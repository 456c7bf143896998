use synthui::ui::menu::{Menu, MenuItem};
use synthui::ui::param::Param;
use synthui::ui::patch::Patch;
use synthui::ui::{Action, Input, Notification, Screen, UI};

fn inert_menu_abc() -> Menu {
    Menu::new(vec![
        MenuItem { label: "A".to_string(), action: None },
        MenuItem { label: "B".to_string(), action: None },
        MenuItem { label: "C".to_string(), action: None },
    ])
}

#[test]
fn scenario_a_inert_menu_press() {
    // Menu items ["A", "B", "C"] with no actions, selected = 0.
    // Inputs [Right, Right, Press]: selected = 2, no action, stack unchanged.
    let mut ui = UI::new();
    let id = ui.register(Screen::Menu(inert_menu_abc()));
    let mut out: Vec<Notification> = Vec::new();
    ui.push_screen(id, &mut out);
    assert_eq!(out.len(), 0);
    let stack_before = ui.stack.clone();

    ui.handle(Input::Right, &mut out);
    ui.handle(Input::Right, &mut out);
    ui.handle(Input::Press, &mut out);

    match &ui.screens[id as usize] {
        Screen::Menu(m) => assert_eq!(m.selected, 2),
        _ => panic!("registered screen is not a menu"),
    }
    assert_eq!(ui.stack, stack_before);
    assert_eq!(out.len(), 0);
}

#[test]
fn scenario_d_patch_start_then_render_then_stop() {
    // Patch("tone", submenu) pushed onto an empty stack: exactly one
    // start("tone") is emitted, then the submenu renders. Pop from that
    // state: exactly one stop(), and the stack becomes empty.
    let submenu = Menu::new(vec![
        MenuItem::new("freq", Action::Push(0)),
        MenuItem::new("<-", Action::Pop),
    ]);
    let expected_lines = submenu.render();

    let mut ui = UI::new();
    let id = ui.register(Screen::Patch(Patch::new("tone", submenu)));

    let mut out: Vec<Notification> = Vec::new();
    ui.push_screen(id, &mut out);
    assert_eq!(out, vec![Notification::Start { name: "tone".to_string() }]);

    let lines = ui.render();
    assert_eq!(lines, expected_lines);

    let mut out2: Vec<Notification> = Vec::new();
    ui.pop_screen(&mut out2);
    assert_eq!(out2, vec![Notification::Stop]);
    assert!(ui.stack.is_empty());
}

#[test]
fn push_then_pop_restores_stack_for_every_kind() {
    let mut ui = UI::new();
    let menu_id = ui.register(Screen::Menu(inert_menu_abc()));
    let param_id = ui.register(Screen::Param(Param::new(
        "freq".to_string(),
        44000,
        1000,
        2000,
        2000000,
    )));
    let patch_id = ui.register(Screen::Patch(Patch::new("tone", inert_menu_abc())));

    let mut out: Vec<Notification> = Vec::new();
    ui.push_screen(menu_id, &mut out);
    let prior = ui.stack.clone();
    for id in [menu_id, param_id, patch_id] {
        ui.push_screen(id, &mut out);
        ui.pop_screen(&mut out);
        assert_eq!(ui.stack, prior);
    }
}

#[test]
fn register_push_pop_leaves_registry_intact() {
    let mut ui = UI::new();
    let id = ui.register(Screen::Menu(inert_menu_abc()));
    assert_eq!(id, 0);
    let mut out: Vec<Notification> = Vec::new();
    ui.push_screen(id, &mut out);
    ui.pop_screen(&mut out);
    assert!(ui.stack.is_empty());
    assert_eq!(ui.screens.len(), 1);
    match &ui.screens[id as usize] {
        Screen::Menu(m) => assert_eq!(m.items.len(), 3),
        _ => panic!("screen was not kept"),
    }
}

#[test]
fn selection_never_leaves_bounds() {
    // Any burst of Left/Right on a non-empty menu keeps the selection a
    // valid index: never negative, never at or past the item count.
    let mut m = inert_menu_abc();
    for _ in 0..10 {
        m.handle(Input::Left);
        assert!(m.selected < 3);
    }
    assert_eq!(m.selected, 0);
    for _ in 0..10 {
        m.handle(Input::Right);
        assert!(m.selected < 3);
    }
    assert_eq!(m.selected, 2);
}

#[test]
fn empty_menu_ignores_every_input() {
    let mut m = Menu::new(vec![]);
    assert_eq!(m.handle(Input::Left), None);
    assert_eq!(m.handle(Input::Right), None);
    assert_eq!(m.handle(Input::Press), None);
    assert_eq!(m.selected, 0);
    assert!(m.render().is_empty());
}

#[test]
fn empty_stack_pop_and_handle_are_no_ops() {
    let mut ui = UI::new();
    let mut out: Vec<Notification> = Vec::new();
    ui.pop_screen(&mut out);
    ui.handle(Input::Press, &mut out);
    assert!(ui.stack.is_empty());
    assert!(out.is_empty());
    assert!(ui.render().is_empty());
}

#[test]
fn current_screen_follows_the_stack_top() {
    let mut ui = UI::new();
    assert!(ui.current_screen().is_none());
    let id = ui.register(Screen::Menu(inert_menu_abc()));
    let mut out: Vec<Notification> = Vec::new();
    ui.push_screen(id, &mut out);
    assert!(matches!(ui.current_screen(), Some(Screen::Menu(_))));
    ui.pop_screen(&mut out);
    assert!(ui.current_screen().is_none());
}

#[test]
fn stale_identifier_on_stack_is_ignored() {
    let mut ui = UI::new();
    let mut out: Vec<Notification> = Vec::new();
    ui.push_screen(7, &mut out);
    assert_eq!(ui.stack, vec![7]);
    ui.handle(Input::Right, &mut out);
    assert!(ui.render().is_empty());
    ui.pop_screen(&mut out);
    assert!(ui.stack.is_empty());
    assert!(out.is_empty());
}

#[test]
fn menu_press_pushes_target_and_runs_its_lifecycle() {
    // A menu item that pushes a patch: one press emits the patch's start.
    let mut ui = UI::new();
    let patch_id = ui.register(Screen::Patch(Patch::new("tone", inert_menu_abc())));
    let top = Menu::new(vec![MenuItem::new("tone", Action::Push(patch_id))]);
    let top_id = ui.register(Screen::Menu(top));

    let mut out: Vec<Notification> = Vec::new();
    ui.push_screen(top_id, &mut out);
    assert!(out.is_empty());
    ui.handle(Input::Press, &mut out);
    assert_eq!(out, vec![Notification::Start { name: "tone".to_string() }]);
    assert_eq!(ui.stack, vec![top_id, patch_id]);

    // The param editor leaves with Press: on a patch, Press selects instead.
    out.clear();
    ui.handle(Input::Press, &mut out);
    // The patch's submenu has "A" selected, which is inert.
    assert!(out.is_empty());
    assert_eq!(ui.stack, vec![top_id, patch_id]);
}
