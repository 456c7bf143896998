//! A named configuration that should be running in the external audio
//! engine while its screen is active. Entering it announces a start,
//! leaving it announces a stop; everything else passes through to its
//! submenu.
use vstd::prelude::*;

use crate::ui::menu::{Menu, MenuView, menu_lines, menu_step, menu_wf};
use crate::ui::{Action, Input, Notification, NoteView, line_views, note_views};

verus! {

/// A named wrapper around a menu of the patch's parameters.
#[derive(Debug)]
pub struct Patch {
    pub name: String,
    pub menu: Menu,
}

/// Mathematical model of a patch.
pub struct PatchView {
    pub name: Seq<char>,
    pub menu: MenuView,
}

impl View for Patch {
    type V = PatchView;

    open spec fn view(&self) -> PatchView {
        PatchView { name: self.name@, menu: self.menu@ }
    }
}

pub open spec fn patch_wf(p: PatchView) -> bool {
    menu_wf(p.menu)
}

/// What a patch displays: exactly its submenu's lines.
pub open spec fn patch_lines(p: PatchView) -> Seq<Seq<char>> {
    menu_lines(p.menu)
}

/// How a patch responds to one input: a pure pass-through to its submenu.
pub open spec fn patch_step(p: PatchView, input: Input) -> (PatchView, Option<Action>) {
    let (m, a) = menu_step(p.menu, input);
    (PatchView { menu: m, ..p }, a)
}

impl Patch {
    pub open spec fn inv(&self) -> bool {
        patch_wf(self@)
    }

    /// Builds a patch over its submenu.
    pub fn new(name: &str, menu: Menu) -> (r: Patch)
        ensures
            r@.name == name@,
            r@.menu == menu@,
    {
        Patch { name: name.to_owned(), menu }
    }

    /// Appends exactly one start notification carrying the patch's name.
    pub fn start(&self, out: &mut Vec<Notification>)
        ensures
            note_views(final(out)@) == note_views(old(out)@).push(
                NoteView::Start { name: self@.name },
            ),
    {
        out.push(Notification::Start { name: self.name.clone() });
        proof {
            assert(note_views(out@) =~= note_views(old(out)@).push(
                NoteView::Start { name: self@.name },
            ));
        }
    }

    /// Appends exactly one stop notification, with no payload.
    pub fn stop(&self, out: &mut Vec<Notification>)
        ensures
            note_views(final(out)@) == note_views(old(out)@).push(NoteView::Stop),
    {
        out.push(Notification::Stop);
        proof {
            assert(note_views(out@) =~= note_views(old(out)@).push(NoteView::Stop));
        }
    }

    /// Renders the submenu's lines, unchanged.
    pub fn render(&self) -> (r: Vec<String>)
        ensures
            line_views(r@) == patch_lines(self@),
    {
        self.menu.render()
    }

    /// Applies one input symbol to the submenu and reports its action.
    pub fn handle(&mut self, input: Input) -> (r: Option<Action>)
        requires
            old(self).inv(),
        ensures
            final(self).inv(),
            final(self)@ == patch_step(old(self)@, input).0,
            r == patch_step(old(self)@, input).1,
    {
        self.menu.handle(input)
    }
}

} // verus!
