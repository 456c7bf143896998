use synthui::menu::{Menu, MenuItem};
use synthui::ui::{Action, Input};

fn sample() -> Menu {
    // Two submenus and a leaf at the roots; back items are inserted below
    // every node that has children.
    Menu::new(vec![
        MenuItem::menu(
            "synths",
            vec![
                MenuItem::item("saw", Action::Push(1)),
                MenuItem::item("sine", Action::Push(2)),
            ],
        ),
        MenuItem::menu("drums", vec![MenuItem::item("kick", Action::Push(3))]),
        MenuItem::item("about", Action::Push(4)),
    ])
}

#[test]
fn back_buttons_are_inserted_below_nodes_with_children() {
    let m = sample();
    assert_eq!(m.items.len(), 3);
    // "synths" gained a trailing back item; the leaf did not.
    assert_eq!(m.items[0].children.len(), 3);
    let back = &m.items[0].children[2];
    assert_eq!(back.label, "<-");
    assert!(back.back);
    assert!(back.children.is_empty());
    assert_eq!(m.items[2].children.len(), 0);
}

#[test]
fn selecting_a_submenu_descends_and_back_returns() {
    let mut m = sample();
    assert_eq!(m.select(), None);  // descends into "synths"
    assert_eq!(m.path, vec![0]);
    assert_eq!(m.selected, 0);

    // Walk down to the back item and activate it: the parent selection that
    // led here is restored.
    m.down();
    m.down();
    assert_eq!(m.selected, 2);
    assert_eq!(m.select(), None);
    assert_eq!(m.path, Vec::<usize>::new());
    assert_eq!(m.selected, 0);
}

#[test]
fn leaves_report_their_action() {
    let mut m = sample();
    m.handle(Input::Right);
    m.handle(Input::Right);
    assert_eq!(m.selected, 2);
    assert_eq!(m.handle(Input::Press), Some(Action::Push(4)));
    // Selection and path are untouched by a leaf.
    assert_eq!(m.selected, 2);
    assert!(m.path.is_empty());

    // Inside a submenu, a leaf reports its action too.
    let mut m = sample();
    m.select();
    m.down();
    assert_eq!(m.handle(Input::Press), Some(Action::Push(2)));
}

#[test]
fn selection_clamps_at_both_ends() {
    let mut m = sample();
    m.handle(Input::Left);
    assert_eq!(m.selected, 0);
    for _ in 0..10 {
        m.handle(Input::Right);
    }
    assert_eq!(m.selected, 2);
}

#[test]
fn tree_menu_renders_active_list_with_marker() {
    let mut m = sample();
    assert_eq!(m.render(), vec![
        "* synths".to_string(),
        "  drums".to_string(),
        "  about".to_string(),
    ]);
    m.select();
    assert_eq!(m.render(), vec![
        "* saw".to_string(),
        "  sine".to_string(),
        "  <-".to_string(),
    ]);
}

#[test]
fn empty_tree_menu_ignores_every_input() {
    let mut m = Menu::new(vec![]);
    assert_eq!(m.handle(Input::Left), None);
    assert_eq!(m.handle(Input::Right), None);
    assert_eq!(m.handle(Input::Press), None);
    assert_eq!(m.selected, 0);
    assert!(m.render().is_empty());
}
