//! A self-contained menu over a tree of items: activating an item with
//! children descends into them, a back item returns to the parent, and the
//! path of indices taken is kept internally. Back items are inserted
//! automatically below every node that has children.
use vstd::prelude::*;
use vstd::string::StringExecFns;

use crate::ui::{Action, Input, line_views};

verus! {

/// One node of the item tree: a label, the node's children, whether the
/// item navigates back to the parent, and the action of a leaf.
#[derive(Debug)]
pub struct MenuItem {
    pub label: String,
    pub children: Vec<MenuItem>,
    pub back: bool,
    pub action: Option<Action>,
}

/// Mathematical model of an item tree.
pub struct TreeView {
    pub label: Seq<char>,
    pub back: bool,
    pub action: Option<Action>,
    pub children: Seq<TreeView>,
}

/// Mathematical model of one item and its whole subtree.
pub open spec fn item_view(item: MenuItem) -> TreeView
    decreases item,
{
    TreeView {
        label: item.label@,
        back: item.back,
        action: item.action,
        children: item_views(item.children@),
    }
}

/// The models of a sequence of items.
pub open spec fn item_views(s: Seq<MenuItem>) -> Seq<TreeView>
    decreases s,
{
    if s.len() == 0 {
        Seq::empty()
    } else {
        item_views(s.drop_last()).push(item_view(s.last()))
    }
}

/// The model of one item sequence is the sequence of the items' models.
pub proof fn lemma_item_views(s: Seq<MenuItem>)
    ensures
        item_views(s).len() == s.len(),
        forall|i: int| 0 <= i < s.len() ==> item_views(s)[i] == item_view(#[trigger] s[i]),
    decreases s.len(),
{
    if s.len() > 0 {
        lemma_item_views(s.drop_last());
        assert forall|i: int| 0 <= i < s.len() implies item_views(s)[i] == item_view(s[i]) by {
            if i < s.len() - 1 {
                assert(s.drop_last()[i] == s[i]);
                assert(item_views(s.drop_last())[i] == item_view(s.drop_last()[i]));
            }
        }
    }
}

/// The model of the back item: a leaf that returns to the parent.
pub open spec fn back_item_view() -> TreeView {
    TreeView { label: "<-"@, back: true, action: None, children: Seq::empty() }
}

/// A subtree after back items are inserted: every node that has children
/// gets a trailing back item, and its children are treated the same way.
/// Leaves are untouched.
pub open spec fn with_back(t: TreeView) -> TreeView
    decreases t,
{
    TreeView {
        children: if t.children.len() > 0 {
            with_backs(t.children).push(back_item_view())
        } else {
            t.children
        },
        ..t
    }
}

/// A sequence of subtrees after back items are inserted in each.
pub open spec fn with_backs(s: Seq<TreeView>) -> Seq<TreeView>
    decreases s,
{
    if s.len() == 0 {
        Seq::empty()
    } else {
        with_backs(s.drop_last()).push(with_back(s.last()))
    }
}

/// Inserting back items treats every subtree of a sequence independently.
pub proof fn lemma_with_backs(s: Seq<TreeView>)
    ensures
        with_backs(s).len() == s.len(),
        forall|i: int| 0 <= i < s.len() ==> with_backs(s)[i] == with_back(#[trigger] s[i]),
    decreases s.len(),
{
    if s.len() > 0 {
        lemma_with_backs(s.drop_last());
        assert forall|i: int| 0 <= i < s.len() implies with_backs(s)[i] == with_back(s[i]) by {
            if i < s.len() - 1 {
                assert(s.drop_last()[i] == s[i]);
                assert(with_backs(s.drop_last())[i] == with_back(s.drop_last()[i]));
            }
        }
    }
}

impl MenuItem {
    /// Builds an item that holds a submenu of children.
    pub fn menu(label: &str, children: Vec<MenuItem>) -> (r: MenuItem)
        ensures
            r.label@ == label@,
            r.children == children,
            r.back == false,
            r.action == None::<Action>,
    {
        MenuItem { label: label.to_owned(), children, back: false, action: None }
    }

    /// Builds a leaf item that performs `action` when activated.
    pub fn item(label: &str, action: Action) -> (r: MenuItem)
        ensures
            r.label@ == label@,
            r.children@ == Seq::<MenuItem>::empty(),
            r.back == false,
            r.action == Some(action),
    {
        MenuItem { label: label.to_owned(), children: Vec::new(), back: false, action: Some(action) }
    }

    /// Appends a back item below every node of this subtree that has
    /// children, so that each submenu can be left again.
    pub fn insert_back_button(&mut self)
        ensures
            item_view(*final(self)) == with_back(item_view(*old(self))),
    {
        let mut tmp = MenuItem {
            label: String::new(),
            children: Vec::new(),
            back: false,
            action: None,
        };
        core::mem::swap(self, &mut tmp);
        let r = with_back_buttons(tmp);
        *self = r;
    }
}

/// A menu over an item tree: the items, the path of indices taken into the
/// tree, and the selection within the list the path leads to.
#[derive(Debug)]
pub struct Menu {
    pub path: Vec<usize>,
    pub selected: usize,
    pub items: Vec<MenuItem>,
}

/// The item list a path leads to, starting from the roots.
pub open spec fn items_at(s: Seq<MenuItem>, path: Seq<usize>) -> Seq<MenuItem>
    decreases path.len(),
{
    if path.len() == 0 {
        s
    } else {
        items_at(s, path.drop_last())[path.last() as int].children@
    }
}

/// A path is valid when each of its indices names an item of the list the
/// indices before it lead to.
pub open spec fn path_ok(s: Seq<MenuItem>, path: Seq<usize>) -> bool
    decreases path.len(),
{
    if path.len() == 0 {
        true
    } else {
        path_ok(s, path.drop_last()) && (path.last() as int) < items_at(s, path.drop_last()).len()
    }
}

/// A valid path stays valid when cut short.
pub proof fn lemma_path_ok_prefix(s: Seq<MenuItem>, path: Seq<usize>, d: int)
    requires
        path_ok(s, path),
        0 <= d <= path.len(),
    ensures
        path_ok(s, path.take(d)),
    decreases path.len() - d,
{
    if d == path.len() {
        assert(path.take(d) =~= path);
    } else {
        lemma_path_ok_prefix(s, path, d + 1);
        assert(path.take(d + 1).drop_last() =~= path.take(d));
    }
}

/// The items the menu currently presents.
pub open spec fn menu_active(m: Menu) -> Seq<MenuItem> {
    items_at(m.items@, m.path@)
}

/// The path is valid and the selection is a valid index of the active list
/// whenever that list is non-empty, resting at zero when it is empty.
pub open spec fn menu_inv(m: Menu) -> bool {
    &&& path_ok(m.items@, m.path@)
    &&& if menu_active(m).len() > 0 {
        0 <= m.selected < menu_active(m).len()
    } else {
        m.selected == 0
    }
}

/// How activating the selected item changes the menu and what it reports:
/// a back item returns to the parent list (restoring the selection that led
/// here, and doing nothing at the roots), an item with children descends
/// into them, and a leaf reports its action.
pub open spec fn select_rel(m: Menu, m2: Menu, r: Option<Action>) -> bool {
    &&& m2.items == m.items
    &&& {
        let active = menu_active(m);
        if (m.selected as int) < active.len() {
            let it = active[m.selected as int];
            if it.back {
                if m.path@.len() > 0 {
                    &&& m2.path@ == m.path@.drop_last()
                    &&& m2.selected == m.path@.last()
                    &&& r == None::<Action>
                } else {
                    &&& m2.path == m.path
                    &&& m2.selected == m.selected
                    &&& r == None::<Action>
                }
            } else if it.children@.len() > 0 {
                &&& m2.path@ == m.path@.push(m.selected)
                &&& m2.selected == 0
                &&& r == None::<Action>
            } else {
                &&& m2.path == m.path
                &&& m2.selected == m.selected
                &&& r == it.action
            }
        } else {
            &&& m2.path == m.path
            &&& m2.selected == m.selected
            &&& r == None::<Action>
        }
    }
}

/// The selection after moving down: one step toward the end of the active
/// list, clamped.
pub open spec fn down_sel(m: Menu) -> int {
    if m.selected + 1 < menu_active(m).len() {
        m.selected + 1
    } else {
        m.selected as int
    }
}

/// The selection after moving up: one step toward zero, clamped.
pub open spec fn up_sel(m: Menu) -> int {
    if m.selected > 0 {
        m.selected - 1
    } else {
        m.selected as int
    }
}

/// How the menu responds to one input symbol.
pub open spec fn step_rel(m: Menu, m2: Menu, input: Input, r: Option<Action>) -> bool {
    match input {
        Input::Left => m2.items == m.items && m2.path == m.path && m2.selected == up_sel(m) && r
            == None::<Action>,
        Input::Right => m2.items == m.items && m2.path == m.path && m2.selected == down_sel(m) && r
            == None::<Action>,
        Input::Press => select_rel(m, m2, r),
    }
}

/// One rendered line of the active list: the item's label behind a marker
/// that distinguishes the selected item from the rest.
pub open spec fn tree_menu_line(m: Menu, i: int) -> Seq<char> {
    (if i == m.selected {
        "* "@
    } else {
        "  "@
    }) + menu_active(m)[i].label@
}

/// One text line per item of the active list, in order.
pub open spec fn tree_menu_lines(m: Menu) -> Seq<Seq<char>> {
    Seq::new(menu_active(m).len(), |i: int| tree_menu_line(m, i))
}

impl Menu {
    /// Builds a menu over the item trees, inserting back items below every
    /// node that has children, with the path at the roots and the first
    /// item selected.
    pub fn new(menu_items: Vec<MenuItem>) -> (r: Menu)
        ensures
            r.path@ == Seq::<usize>::empty(),
            r.selected == 0,
            item_views(r.items@).len() == menu_items@.len(),
            forall|i: int|
                0 <= i < menu_items@.len() ==> item_views(r.items@)[i] == with_back(
                    item_view(#[trigger] menu_items@[i]),
                ),
            menu_inv(r),
    {
        let mut items = menu_items;
        let mut i: usize = 0;
        while i < items.len()
            invariant
                i <= items@.len(),
                items@.len() == menu_items@.len(),
                forall|j: int|
                    0 <= j < i ==> item_view(#[trigger] items@[j]) == with_back(
                        item_view(menu_items@[j]),
                    ),
                forall|j: int| i <= j < items@.len() ==> items@[j] == menu_items@[j],
            decreases items@.len() - i,
        {
            items[i].insert_back_button();
            i = i + 1;
        }
        let r = Menu { path: Vec::new(), selected: 0, items };
        proof {
            lemma_item_views(r.items@);
            assert(r.path@ =~= Seq::<usize>::empty());
            assert forall|i: int|
                0 <= i < menu_items@.len() implies item_views(r.items@)[i] == with_back(
                item_view(menu_items@[i]),
            ) by {
                assert(item_view(r.items@[i]) == with_back(item_view(menu_items@[i])));
            }
        }
        r
    }

    /// The item list the path currently leads to.
    fn active_items(&self) -> (r: &Vec<MenuItem>)
        requires
            path_ok(self.items@, self.path@),
        ensures
            r@ == menu_active(*self),
    {
        let mut items: &Vec<MenuItem> = &self.items;
        let mut d: usize = 0;
        while d < self.path.len()
            invariant
                d <= self.path@.len(),
                path_ok(self.items@, self.path@),
                items@ == items_at(self.items@, self.path@.take(d as int)),
            decreases self.path@.len() - d,
        {
            proof {
                lemma_path_ok_prefix(self.items@, self.path@, d + 1);
                assert(self.path@.take(d + 1).drop_last() =~= self.path@.take(d as int));
            }
            let idx = self.path[d];
            items = &items[idx].children;
            d = d + 1;
        }
        proof {
            assert(self.path@.take(self.path@.len() as int) =~= self.path@);
        }
        items
    }

    /// Moves the selection one step down the active list, clamping at its
    /// last item.
    pub fn down(&mut self)
        requires
            menu_inv(*old(self)),
        ensures
            menu_inv(*final(self)),
            final(self).items == old(self).items,
            final(self).path == old(self).path,
            final(self).selected == down_sel(*old(self)),
    {
        let len = self.active_items().len();
        if len > 0 && self.selected < len - 1 {
            self.selected = self.selected + 1;
        }
    }

    /// Moves the selection one step up the active list, clamping at its
    /// first item.
    pub fn up(&mut self)
        requires
            menu_inv(*old(self)),
        ensures
            menu_inv(*final(self)),
            final(self).items == old(self).items,
            final(self).path == old(self).path,
            final(self).selected == up_sel(*old(self)),
    {
        if self.selected > 0 {
            self.selected = self.selected - 1;
        }
    }

    /// Activates the selected item: a back item returns to the parent list,
    /// an item with children descends into them, and a leaf reports its
    /// action.
    pub fn select(&mut self) -> (r: Option<Action>)
        requires
            menu_inv(*old(self)),
        ensures
            menu_inv(*final(self)),
            select_rel(*old(self), *final(self), r),
    {
        let is_back: bool;
        let children_len: usize;
        let action: Option<Action>;
        {
            let items = self.active_items();
            if self.selected >= items.len() {
                return None;
            }
            let it = &items[self.selected];
            is_back = it.back;
            children_len = it.children.len();
            action = it.action;
        }
        if is_back {
            if self.path.len() > 0 {
                proof {
                    assert(self.path@.drop_last() =~= self.path@.take(
                        self.path@.len() - 1,
                    ));
                    lemma_path_ok_prefix(self.items@, self.path@, self.path@.len() - 1);
                }
                let i = self.path[self.path.len() - 1];
                self.path.pop();
                self.selected = i;
                proof {
                    assert(old(self).path@.drop_last() =~= self.path@);
                }
            }
            None
        } else if children_len > 0 {
            self.path.push(self.selected);
            self.selected = 0;
            proof {
                assert(self.path@.drop_last() =~= old(self).path@);
                assert(items_at(self.items@, self.path@) == menu_active(*old(self))[old(
                    self,
                ).selected as int].children@);
            }
            None
        } else {
            action
        }
    }

    /// Applies one input symbol: Left and Right move the selection, Press
    /// activates the selected item.
    pub fn handle(&mut self, input: Input) -> (r: Option<Action>)
        requires
            menu_inv(*old(self)),
        ensures
            menu_inv(*final(self)),
            step_rel(*old(self), *final(self), input, r),
    {
        match input {
            Input::Left => {
                self.up();
                None
            },
            Input::Right => {
                self.down();
                None
            },
            Input::Press => self.select(),
        }
    }

    /// Produces one text line per item of the active list; the selected
    /// item's line carries a distinct marker. The lines are handed to the
    /// external text renderer.
    pub fn render(&self) -> (r: Vec<String>)
        requires
            menu_inv(*self),
        ensures
            line_views(r@) == tree_menu_lines(*self),
    {
        let items = self.active_items();
        let mut lines: Vec<String> = Vec::new();
        let mut i: usize = 0;
        while i < items.len()
            invariant
                i <= items@.len(),
                items@ == menu_active(*self),
                lines@.len() == i,
                line_views(lines@) =~~= tree_menu_lines(*self).take(i as int),
            decreases items@.len() - i,
        {
            let prefix: &str = if i == self.selected {
                "* "
            } else {
                "  "
            };
            let line = prefix.to_owned().concat(items[i].label.as_str());
            lines.push(line);
            proof {
                assert(line_views(lines@) =~~= tree_menu_lines(*self).take(i + 1));
            }
            i = i + 1;
        }
        proof {
            assert(line_views(lines@) =~~= tree_menu_lines(*self));
        }
        lines
    }
}

/// The subtree with back items inserted, built bottom up.
fn with_back_buttons(item: MenuItem) -> (r: MenuItem)
    ensures
        item_view(r) == with_back(item_view(item)),
    decreases item,
{
    if item.children.len() == 0 {
        proof {
            assert(item_view(item) == with_back(item_view(item)));
        }
        item
    } else {
        let MenuItem { label, mut children, back, action } = item;
        let mut out: Vec<MenuItem> = Vec::new();
        while children.len() > 0
            invariant
                children@ == item.children@.skip(out@.len() as int),
                out@.len() <= item.children@.len(),
                forall|j: int|
                    0 <= j < out@.len() ==> item_view(#[trigger] out@[j]) == with_back(
                        item_view(item.children@[j]),
                    ),
            decreases children@.len(),
        {
            let ghost k: int = out@.len() as int;
            let c = children.remove(0);
            proof {
                assert(c == item.children@[k]);
                assert(children@ =~= item.children@.skip(k + 1));
                assert(decreases_to!(item => item.children));
                assert(decreases_to!(item.children => item.children@[k]));
            }
            out.push(with_back_buttons(c));
        }
        out.push(
            MenuItem { label: "<-".to_owned(), children: Vec::new(), back: true, action: None },
        );
        let r = MenuItem { label, children: out, back, action };
        proof {
            lemma_item_views(r.children@);
            lemma_item_views(item.children@);
            lemma_with_backs(item_views(item.children@));
            let ghost n: int = item.children@.len() as int;
            let ghost rhs = with_backs(item_views(item.children@)).push(back_item_view());
            assert forall|j: int| 0 <= j < n + 1 implies item_views(r.children@)[j] == rhs[j] by {
                assert(item_views(r.children@)[j] == item_view(r.children@[j]));
                if j < n {
                    assert(item_views(item.children@)[j] == item_view(item.children@[j]));
                    assert(rhs[j] == with_back(item_views(item.children@)[j]));
                } else {
                    assert(item_view(r.children@[j]) == back_item_view());
                }
            }
            assert(item_view(r).children =~= with_back(item_view(item)).children);
            assert(item_view(r) == with_back(item_view(item)));
        }
        r
    }
}

} // verus!
