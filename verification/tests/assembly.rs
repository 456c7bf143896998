use synthui::config;
use synthui::ui::{Action, Input, Notification, Screen, build_ui};

fn one_menu_config() -> Vec<config::Menu> {
    vec![config::Menu {
        name: "synths".to_string(),
        patches: vec![config::Patch {
            name: "tone".to_string(),
            params: vec![config::Param {
                name: "freq".to_string(),
                value: 44000,
                step: 1000,
                min: 2000,
                max: 2000000,
            }],
        }],
    }]
}

#[test]
fn build_ui_registers_depth_first_and_pushes_the_root() {
    let menus = one_menu_config();
    assert!(config::check_menus(&menus));
    let ui = build_ui(&menus);

    // Identifiers run depth first: the parameter, its patch, its menu, then
    // the root menu, which is the sole entry of the stack.
    assert_eq!(ui.screens.len(), 4);
    assert!(matches!(ui.screens[0], Screen::Param(_)));
    assert!(matches!(ui.screens[1], Screen::Patch(_)));
    assert!(matches!(ui.screens[2], Screen::Menu(_)));
    assert!(matches!(ui.screens[3], Screen::Menu(_)));
    assert_eq!(ui.stack, vec![3]);

    match &ui.screens[0] {
        Screen::Param(p) => {
            assert_eq!(p.name, "freq");
            assert_eq!(p.value, 44000);
            assert_eq!(p.step, 1000);
            assert_eq!(p.min, 2000);
            assert_eq!(p.max, 2000000);
        },
        _ => unreachable!(),
    }
    match &ui.screens[1] {
        Screen::Patch(p) => {
            assert_eq!(p.name, "tone");
            assert_eq!(p.menu.items.len(), 2);
            assert_eq!(p.menu.items[0].label, "freq");
            assert_eq!(p.menu.items[0].action, Some(Action::Push(0)));
            assert_eq!(p.menu.items[1].label, "<-");
            assert_eq!(p.menu.items[1].action, Some(Action::Pop));
        },
        _ => unreachable!(),
    }
    match &ui.screens[3] {
        Screen::Menu(m) => {
            assert_eq!(m.items.len(), 1);
            assert_eq!(m.items[0].label, "synths");
            assert_eq!(m.items[0].action, Some(Action::Push(2)));
        },
        _ => unreachable!(),
    }
}

#[test]
fn built_ui_walks_from_root_to_param_and_broadcasts() {
    let mut ui = build_ui(&one_menu_config());
    let mut out: Vec<Notification> = Vec::new();

    // Activate "synths", then "tone": entering the patch starts it.
    ui.handle(Input::Press, &mut out);
    assert!(out.is_empty());
    ui.handle(Input::Press, &mut out);
    assert_eq!(out, vec![Notification::Start { name: "tone".to_string() }]);
    assert_eq!(ui.stack, vec![3, 2, 1]);

    // Activate "freq" and turn the encoder once.
    out.clear();
    ui.handle(Input::Press, &mut out);
    assert!(out.is_empty());
    ui.handle(Input::Right, &mut out);
    assert_eq!(out, vec![Notification::SetValue { name: "freq".to_string(), value: 45000 }]);

    // Press leaves the editor without emitting.
    out.clear();
    ui.handle(Input::Press, &mut out);
    assert!(out.is_empty());
    assert_eq!(ui.stack, vec![3, 2, 1]);

    // The patch's back item stops the patch on the way out.
    ui.handle(Input::Right, &mut out);
    ui.handle(Input::Press, &mut out);
    assert_eq!(out, vec![Notification::Stop]);
    assert_eq!(ui.stack, vec![3, 2]);
}

#[test]
fn config_validation_rejects_bad_parameters() {
    let good = config::Param {
        name: "freq".to_string(),
        value: 44000,
        step: 1000,
        min: 2000,
        max: 2000000,
    };
    assert!(config::check_param(&good));

    let out_of_bounds = config::Param { value: 1, min: 2000, ..good.clone() };
    assert!(!config::check_param(&out_of_bounds));

    let negative_step = config::Param { step: -1, ..good.clone() };
    assert!(!config::check_param(&negative_step));

    let mut menus = one_menu_config();
    assert!(config::check_menus(&menus));
    menus[0].patches[0].params[0].value = 1;
    assert!(!config::check_menus(&menus));
}

#[test]
fn empty_configuration_builds_a_bare_root() {
    let menus: Vec<config::Menu> = Vec::new();
    let ui = build_ui(&menus);
    assert_eq!(ui.screens.len(), 1);
    assert_eq!(ui.stack, vec![0]);
    match &ui.screens[0] {
        Screen::Menu(m) => assert!(m.items.is_empty()),
        _ => unreachable!(),
    }
}
