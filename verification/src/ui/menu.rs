//! An ordered list of selectable items, each carrying an optional navigation
//! action. The selection clamps at both ends and never wraps.
use vstd::prelude::*;
use vstd::string::StringExecFns;

use crate::ui::{Action, Input, line_views};

verus! {

/// One entry of a menu: a label and an optional navigation action. An item
/// without an action is inert: selectable, but activating it does nothing.
#[derive(Clone, Debug)]
pub struct MenuItem {
    pub label: String,
    pub action: Option<Action>,
}

/// Mathematical model of a menu item.
pub struct ItemView {
    pub label: Seq<char>,
    pub action: Option<Action>,
}

impl View for MenuItem {
    type V = ItemView;

    open spec fn view(&self) -> ItemView {
        ItemView { label: self.label@, action: self.action }
    }
}

impl MenuItem {
    /// Builds an item that performs `action` when activated.
    pub fn new(label: &str, action: Action) -> (r: MenuItem)
        ensures
            r@ == (ItemView { label: label@, action: Some(action) }),
    {
        MenuItem { label: label.to_owned(), action: Some(action) }
    }
}

/// A menu: items plus the index of the current selection.
#[derive(Debug)]
pub struct Menu {
    pub selected: usize,
    pub items: Vec<MenuItem>,
}

/// Mathematical model of a menu.
pub struct MenuView {
    pub selected: int,
    pub items: Seq<ItemView>,
}

impl View for Menu {
    type V = MenuView;

    open spec fn view(&self) -> MenuView {
        MenuView {
            selected: self.selected as int,
            items: Seq::new(self.items@.len(), |i: int| self.items@[i]@),
        }
    }
}

/// The selection is a valid index whenever the menu is non-empty, and rests
/// at zero when it is empty.
pub open spec fn menu_wf(m: MenuView) -> bool {
    if m.items.len() > 0 {
        0 <= m.selected < m.items.len()
    } else {
        m.selected == 0
    }
}

/// Selection after moving up: one step toward zero, clamped.
pub open spec fn menu_up(m: MenuView) -> MenuView {
    MenuView { selected: if m.selected > 0 { m.selected - 1 } else { m.selected }, ..m }
}

/// Selection after moving down: one step toward the last item, clamped.
pub open spec fn menu_down(m: MenuView) -> MenuView {
    MenuView {
        selected: if m.selected + 1 < m.items.len() {
            m.selected + 1
        } else {
            m.selected
        },
        ..m
    }
}

/// The action of the selected item, if the selection is valid and the item
/// has one.
pub open spec fn menu_select(m: MenuView) -> Option<Action> {
    if 0 <= m.selected < m.items.len() {
        m.items[m.selected].action
    } else {
        None
    }
}

/// How a menu responds to one input: Left and Right move the selection,
/// Press reports the selected item's action without mutating.
pub open spec fn menu_step(m: MenuView, input: Input) -> (MenuView, Option<Action>) {
    match input {
        Input::Left => (menu_up(m), None),
        Input::Right => (menu_down(m), None),
        Input::Press => (m, menu_select(m)),
    }
}

/// One rendered line: the item's label behind a marker that distinguishes
/// the selected item from the rest.
pub open spec fn menu_line(m: MenuView, i: int) -> Seq<char> {
    (if i == m.selected {
        "* "@
    } else {
        "  "@
    }) + m.items[i].label
}

/// One text line per item, in order.
pub open spec fn menu_lines(m: MenuView) -> Seq<Seq<char>> {
    Seq::new(m.items.len(), |i: int| menu_line(m, i))
}

/// The menu after a whole sequence of inputs, applied in order.
pub open spec fn menu_run(m: MenuView, inputs: Seq<Input>) -> MenuView
    decreases inputs.len(),
{
    if inputs.len() == 0 {
        m
    } else {
        menu_run(menu_step(m, inputs[0]).0, inputs.drop_first())
    }
}

/// One step never touches the items and keeps the selection well formed.
pub proof fn lemma_menu_step_wf(m: MenuView, input: Input)
    requires
        menu_wf(m),
    ensures
        menu_wf(menu_step(m, input).0),
        menu_step(m, input).0.items == m.items,
{
}

/// On a non-empty menu, any sequence of inputs leaves the selection a valid
/// index: never negative, never at or past the item count.
pub proof fn lemma_menu_selected_in_bounds(m: MenuView, inputs: Seq<Input>)
    requires
        menu_wf(m),
        m.items.len() >= 1,
    ensures
        0 <= menu_run(m, inputs).selected < m.items.len(),
    decreases inputs.len(),
{
    if inputs.len() > 0 {
        let m1 = menu_step(m, inputs[0]).0;
        lemma_menu_step_wf(m, inputs[0]);
        lemma_menu_selected_in_bounds(m1, inputs.drop_first());
    }
}

impl Menu {
    pub open spec fn inv(&self) -> bool {
        menu_wf(self@)
    }

    /// Builds a menu over `menu_items` with the first item selected.
    pub fn new(menu_items: Vec<MenuItem>) -> (r: Menu)
        ensures
            r@.selected == 0,
            r@.items == Seq::new(menu_items@.len(), |i: int| menu_items@[i]@),
            r.inv(),
    {
        Menu { selected: 0, items: menu_items }
    }

    /// Moves the selection one step down, clamping at the last item.
    pub fn down(&mut self)
        requires
            old(self).inv(),
        ensures
            final(self).inv(),
            final(self)@ == menu_down(old(self)@),
    {
        let len = self.items.len();
        if len > 0 && self.selected < len - 1 {
            self.selected = self.selected + 1;
        }
    }

    /// Moves the selection one step up, clamping at the first item.
    pub fn up(&mut self)
        requires
            old(self).inv(),
        ensures
            final(self).inv(),
            final(self)@ == menu_up(old(self)@),
    {
        if self.selected > 0 {
            self.selected = self.selected - 1;
        }
    }

    /// Reports the action of the selected item; the selection is unchanged.
    pub fn select(&mut self) -> (r: Option<Action>)
        ensures
            *final(self) == *old(self),
            r == menu_select(old(self)@),
    {
        if self.selected < self.items.len() {
            self.items[self.selected].action
        } else {
            None
        }
    }

    /// Produces one text line per item; the selected item's line carries a
    /// distinct marker. The lines are handed to the external text renderer.
    pub fn render(&self) -> (r: Vec<String>)
        ensures
            line_views(r@) == menu_lines(self@),
    {
        let mut lines: Vec<String> = Vec::new();
        let mut i: usize = 0;
        while i < self.items.len()
            invariant
                i <= self.items@.len(),
                lines@.len() == i,
                line_views(lines@) =~~= menu_lines(self@).take(i as int),
            decreases self.items@.len() - i,
        {
            let prefix: &str = if i == self.selected {
                "* "
            } else {
                "  "
            };
            let line = prefix.to_owned().concat(self.items[i].label.as_str());
            lines.push(line);
            proof {
                assert(line_views(lines@) =~~= menu_lines(self@).take(i + 1));
            }
            i = i + 1;
        }
        proof {
            assert(line_views(lines@) =~~= menu_lines(self@));
        }
        lines
    }

    /// Applies one input symbol and reports the resulting action, if any.
    pub fn handle(&mut self, input: Input) -> (r: Option<Action>)
        requires
            old(self).inv(),
        ensures
            final(self).inv(),
            final(self)@ == menu_step(old(self)@, input).0,
            r == menu_step(old(self)@, input).1,
    {
        match input {
            Input::Left => {
                self.up();
                None
            },
            Input::Right => {
                self.down();
                None
            },
            Input::Press => self.select(),
        }
    }
}

} // verus!
