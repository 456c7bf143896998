//! The UI runtime: logical inputs, navigation actions, outbound
//! notifications, and the registry plus navigation stack that dispatch
//! rendering and input to the active screen.
pub mod menu;
pub mod param;
pub mod patch;

use vstd::prelude::*;

use crate::config;

verus! {

/// Identifier of a registered screen, assigned monotonically and never
/// reused.
pub type ScreenId = u32;

/// A logical input symbol produced by the hardware input devices.
#[derive(Copy, Clone, Debug, PartialEq, Eq, Structural)]
pub enum Input {
    Right,
    Left,
    Press,
}

/// The navigation effect a screen reports after handling an input.
#[derive(Copy, Clone, Debug, PartialEq, Eq, Structural)]
pub enum Action {
    Push(ScreenId),
    Pop,
}

/// An outbound message for the external audio engine. Values are carried in
/// hundredths of a unit, the display precision of the surface.
#[derive(Clone, Debug, PartialEq, Eq)]
pub enum Notification {
    SetValue { name: String, value: i64 },
    Start { name: String },
    Stop,
}

/// Mathematical model of a notification.
pub enum NoteView {
    SetValue { name: Seq<char>, value: int },
    Start { name: Seq<char> },
    Stop,
}

impl View for Notification {
    type V = NoteView;

    open spec fn view(&self) -> NoteView {
        match self {
            Notification::SetValue { name, value } => NoteView::SetValue {
                name: name@,
                value: *value as int,
            },
            Notification::Start { name } => NoteView::Start { name: name@ },
            Notification::Stop => NoteView::Stop,
        }
    }
}

/// The models of a sequence of notifications, in emission order.
pub open spec fn note_views(s: Seq<Notification>) -> Seq<NoteView> {
    Seq::new(s.len(), |i: int| s[i]@)
}

/// The models of a sequence of rendered text lines, top to bottom.
pub open spec fn line_views(s: Seq<String>) -> Seq<Seq<char>> {
    Seq::new(s.len(), |i: int| s[i]@)
}

/// A visual and interactive unit that can occupy the top of the navigation
/// stack. The set of screen kinds is fixed, so a closed variant stands in
/// for dynamic dispatch.
#[derive(Debug)]
pub enum Screen {
    Menu(menu::Menu),
    Patch(patch::Patch),
    Param(param::Param),
}

/// Mathematical model of a screen.
pub enum ScreenView {
    Menu(menu::MenuView),
    Patch(patch::PatchView),
    Param(param::ParamView),
}

impl View for Screen {
    type V = ScreenView;

    open spec fn view(&self) -> ScreenView {
        match self {
            Screen::Menu(m) => ScreenView::Menu(m@),
            Screen::Patch(p) => ScreenView::Patch(p@),
            Screen::Param(p) => ScreenView::Param(p@),
        }
    }
}

pub open spec fn screen_wf(s: ScreenView) -> bool {
    match s {
        ScreenView::Menu(m) => menu::menu_wf(m),
        ScreenView::Patch(p) => patch::patch_wf(p),
        ScreenView::Param(p) => param::param_wf(p),
    }
}

/// How a screen responds to one input: the new screen, the action it
/// reports, and the notifications it emits, in order.
pub open spec fn screen_step(s: ScreenView, input: Input) -> (ScreenView, Option<
    Action,
>, Seq<NoteView>) {
    match s {
        ScreenView::Menu(m) => {
            let (m2, a) = menu::menu_step(m, input);
            (ScreenView::Menu(m2), a, seq![])
        },
        ScreenView::Patch(p) => {
            let (p2, a) = patch::patch_step(p, input);
            (ScreenView::Patch(p2), a, seq![])
        },
        ScreenView::Param(p) => {
            let (p2, a, n) = param::param_step(p, input);
            (ScreenView::Param(p2), a, n)
        },
    }
}

/// What a screen displays, one text line at a time.
pub open spec fn screen_lines(s: ScreenView) -> Seq<Seq<char>> {
    match s {
        ScreenView::Menu(m) => menu::menu_lines(m),
        ScreenView::Patch(p) => patch::patch_lines(p),
        ScreenView::Param(p) => param::param_lines(p),
    }
}

/// What a screen emits on becoming active: exactly one start notification
/// for a patch, nothing for the other kinds.
pub open spec fn screen_load_notes(s: ScreenView) -> Seq<NoteView> {
    match s {
        ScreenView::Patch(p) => seq![NoteView::Start { name: p.name }],
        _ => seq![],
    }
}

/// What a screen emits on ceasing to be active: exactly one stop
/// notification for a patch, nothing for the other kinds.
pub open spec fn screen_unload_notes(s: ScreenView) -> Seq<NoteView> {
    match s {
        ScreenView::Patch(_) => seq![NoteView::Stop],
        _ => seq![],
    }
}

impl Screen {
    /// Applies one input symbol to the screen.
    pub fn handle(&mut self, input: Input, out: &mut Vec<Notification>) -> (r: Option<Action>)
        requires
            screen_wf(old(self)@),
        ensures
            screen_wf(final(self)@),
            final(self)@ == screen_step(old(self)@, input).0,
            r == screen_step(old(self)@, input).1,
            note_views(final(out)@) == note_views(old(out)@) + screen_step(old(self)@, input).2,
    {
        let r = match self {
            Screen::Menu(m) => m.handle(input),
            Screen::Patch(p) => p.handle(input),
            Screen::Param(p) => p.handle(input, out),
        };
        proof {
            assert(note_views(out@) =~= note_views(old(out)@) + screen_step(
                old(self)@,
                input,
            ).2);
        }
        r
    }

    /// Produces the screen's display lines for the external text renderer.
    pub fn render(&self) -> (r: Vec<String>)
        requires
            screen_wf(self@),
        ensures
            line_views(r@) == screen_lines(self@),
    {
        match self {
            Screen::Menu(m) => m.render(),
            Screen::Patch(p) => p.render(),
            Screen::Param(p) => p.render(),
        }
    }

    /// The screen's lifecycle callback on becoming active.
    pub fn load(&mut self, out: &mut Vec<Notification>)
        ensures
            final(self)@ == old(self)@,
            note_views(final(out)@) == note_views(old(out)@) + screen_load_notes(old(self)@),
    {
        match self {
            Screen::Patch(p) => p.start(out),
            _ => (),
        }
        proof {
            assert(note_views(out@) =~= note_views(old(out)@) + screen_load_notes(old(self)@));
        }
    }

    /// The screen's lifecycle callback on ceasing to be active.
    pub fn unload(&mut self, out: &mut Vec<Notification>)
        ensures
            final(self)@ == old(self)@,
            note_views(final(out)@) == note_views(old(out)@) + screen_unload_notes(old(self)@),
    {
        match self {
            Screen::Patch(p) => p.stop(out),
            _ => (),
        }
        proof {
            assert(note_views(out@) =~= note_views(old(out)@) + screen_unload_notes(old(self)@));
        }
    }
}

/// The UI runtime: the registry of all screens and the navigation stack of
/// active identifiers, the last of which is rendered and receives input.
pub struct UI {
    pub screens: Vec<Screen>,
    pub stack: Vec<ScreenId>,
    pub next_id: ScreenId,
}

/// Mathematical model of the runtime: the registered screens in
/// registration order, and the stack of active identifiers.
pub struct UIView {
    pub screens: Seq<ScreenView>,
    pub stack: Seq<ScreenId>,
}

impl View for UI {
    type V = UIView;

    open spec fn view(&self) -> UIView {
        UIView {
            screens: Seq::new(self.screens@.len(), |i: int| self.screens@[i]@),
            stack: self.stack@,
        }
    }
}

/// Every registered screen is well formed.
pub open spec fn ui_wf(u: UIView) -> bool {
    forall|i: int| 0 <= i < u.screens.len() ==> screen_wf(#[trigger] u.screens[i])
}

/// Registration appends the screen; its identifier is the index it was
/// stored at.
pub open spec fn ui_register(u: UIView, s: ScreenView) -> (UIView, ScreenId) {
    (UIView { screens: u.screens.push(s), ..u }, u.screens.len() as ScreenId)
}

/// Pushing appends the identifier, then the newly active screen emits its
/// load notifications. An identifier with no registered screen is parked on
/// the stack silently.
pub open spec fn ui_push(u: UIView, id: ScreenId) -> (UIView, Seq<NoteView>) {
    let notes = if (id as int) < u.screens.len() {
        screen_load_notes(u.screens[id as int])
    } else {
        seq![]
    };
    (UIView { stack: u.stack.push(id), ..u }, notes)
}

/// Popping lets the active screen emit its unload notifications, then
/// removes it; on an empty stack it is a silent no-op.
pub open spec fn ui_pop(u: UIView) -> (UIView, Seq<NoteView>) {
    if u.stack.len() == 0 {
        (u, seq![])
    } else {
        let id = u.stack.last();
        let notes = if (id as int) < u.screens.len() {
            screen_unload_notes(u.screens[id as int])
        } else {
            seq![]
        };
        (UIView { stack: u.stack.drop_last(), ..u }, notes)
    }
}

/// What the runtime displays: the active screen's lines, or nothing when
/// the stack is empty or its top identifier has no registered screen.
pub open spec fn ui_lines(u: UIView) -> Seq<Seq<char>> {
    if u.stack.len() == 0 || u.stack.last() as int >= u.screens.len() {
        Seq::empty()
    } else {
        screen_lines(u.screens[u.stack.last() as int])
    }
}

/// How the runtime responds to one input: the active screen handles it,
/// and any action it reports is applied to the stack. With an empty stack,
/// or a stale identifier on top, nothing happens.
pub open spec fn ui_step(u: UIView, input: Input) -> (UIView, Seq<NoteView>) {
    if u.stack.len() == 0 || u.stack.last() as int >= u.screens.len() {
        (u, seq![])
    } else {
        let id = u.stack.last() as int;
        let (s2, act, notes) = screen_step(u.screens[id], input);
        let u1 = UIView { screens: u.screens.update(id, s2), ..u };
        match act {
            None => (u1, notes),
            Some(Action::Push(p)) => {
                let (u2, n2) = ui_push(u1, p);
                (u2, notes + n2)
            },
            Some(Action::Pop) => {
                let (u2, n2) = ui_pop(u1);
                (u2, notes + n2)
            },
        }
    }
}

/// Pushing an identifier and immediately popping it restores the stack to
/// its exact prior contents, whatever screen kind the identifier names, and
/// never touches the registry.
pub proof fn lemma_push_then_pop_restores_stack(u: UIView, id: ScreenId)
    ensures
        ui_pop(ui_push(u, id).0).0.stack == u.stack,
        ui_pop(ui_push(u, id).0).0.screens == u.screens,
{
    assert(u.stack.push(id).drop_last() =~= u.stack);
}

/// Entering a patch emits exactly one start notification, carrying the
/// patch's name and nothing else.
pub proof fn lemma_patch_enter_emits_one_start(u: UIView, id: ScreenId, p: patch::PatchView)
    requires
        (id as int) < u.screens.len(),
        u.screens[id as int] == ScreenView::Patch(p),
    ensures
        ui_push(u, id).1 == seq![NoteView::Start { name: p.name }],
{
}

/// Leaving a patch emits exactly one stop notification, with no payload.
pub proof fn lemma_patch_leave_emits_one_stop(u: UIView, p: patch::PatchView)
    requires
        u.stack.len() > 0,
        (u.stack.last() as int) < u.screens.len(),
        u.screens[u.stack.last() as int] == ScreenView::Patch(p),
    ensures
        ui_pop(u).1 == seq![NoteView::Stop],
{
}

/// Registering a screen, pushing it and popping it returns the stack to
/// empty when it was the sole entry; the registry still contains the screen
/// afterward, since screens are never deregistered.
pub proof fn lemma_register_push_pop(u: UIView, s: ScreenView)
    requires
        u.stack.len() == 0,
        u.screens.len() < u32::MAX,
    ensures
        ({
            let (u1, id) = ui_register(u, s);
            let u2 = ui_push(u1, id).0;
            let u3 = ui_pop(u2).0;
            &&& u3.stack.len() == 0
            &&& u3.screens == u.screens.push(s)
            &&& u3.screens[id as int] == s
        }),
{
    let (u1, id) = ui_register(u, s);
    lemma_push_then_pop_restores_stack(u1, id);
}

impl UI {
    /// The identifier counter agrees with the registry, and every screen is
    /// well formed.
    pub open spec fn inv(&self) -> bool {
        &&& self.next_id as int == self@.screens.len()
        &&& ui_wf(self@)
    }

    /// Builds an empty runtime: no screens, an empty stack.
    pub fn new() -> (r: UI)
        ensures
            r@.screens == Seq::<ScreenView>::empty(),
            r@.stack == Seq::<ScreenId>::empty(),
            r.inv(),
    {
        let r = UI { screens: Vec::new(), stack: Vec::new(), next_id: 0 };
        proof {
            assert(r@.screens =~= Seq::<ScreenView>::empty());
            assert(r@.stack =~= Seq::<ScreenId>::empty());
        }
        r
    }

    /// Stores the screen and returns its fresh identifier; the runtime takes
    /// exclusive ownership. Screens are never removed.
    pub fn register(&mut self, screen: Screen) -> (id: ScreenId)
        requires
            old(self).inv(),
            screen_wf(screen@),
            old(self)@.screens.len() < u32::MAX,
        ensures
            final(self).inv(),
            (final(self)@, id) == ui_register(old(self)@, screen@),
    {
        let id = self.next_id;
        self.screens.push(screen);
        self.next_id = self.next_id + 1;
        proof {
            assert(self@.screens =~= old(self)@.screens.push(screen@));
        }
        id
    }

    /// The screen at the top of the stack, if the stack is non-empty and the
    /// top identifier is registered.
    pub fn current_screen(&self) -> (r: Option<&Screen>)
        ensures
            match r {
                Some(s) => {
                    &&& self@.stack.len() > 0
                    &&& (self@.stack.last() as int) < self@.screens.len()
                    &&& s@ == self@.screens[self@.stack.last() as int]
                },
                None => self@.stack.len() == 0 || (self@.stack.last() as int)
                    >= self@.screens.len(),
            },
    {
        if self.stack.len() == 0 {
            None
        } else {
            let id = self.stack[self.stack.len() - 1];
            if (id as usize) < self.screens.len() {
                Some(&self.screens[id as usize])
            } else {
                None
            }
        }
    }

    /// Appends the identifier to the stack, then lets the newly active
    /// screen emit its load notifications.
    pub fn push_screen(&mut self, screen_id: ScreenId, out: &mut Vec<Notification>)
        requires
            old(self).inv(),
        ensures
            final(self).inv(),
            final(self)@ == ui_push(old(self)@, screen_id).0,
            note_views(final(out)@) == note_views(old(out)@) + ui_push(old(self)@, screen_id).1,
    {
        self.stack.push(screen_id);
        if (screen_id as usize) < self.screens.len() {
            let s = &mut self.screens[screen_id as usize];
            s.load(out);
        }
        proof {
            assert(self@.screens =~= old(self)@.screens);
            assert(self@ == ui_push(old(self)@, screen_id).0);
            assert(note_views(out@) =~= note_views(old(out)@) + ui_push(old(self)@, screen_id).1);
        }
    }

    /// Lets the active screen emit its unload notifications, then removes it
    /// from the stack; on an empty stack this is a silent no-op.
    pub fn pop_screen(&mut self, out: &mut Vec<Notification>)
        requires
            old(self).inv(),
        ensures
            final(self).inv(),
            final(self)@ == ui_pop(old(self)@).0,
            note_views(final(out)@) == note_views(old(out)@) + ui_pop(old(self)@).1,
    {
        if self.stack.len() > 0 {
            let id = self.stack[self.stack.len() - 1];
            if (id as usize) < self.screens.len() {
                let s = &mut self.screens[id as usize];
                s.unload(out);
            }
            self.stack.pop();
        }
        proof {
            assert(self@.screens =~= old(self)@.screens);
            assert(self@ == ui_pop(old(self)@).0);
            assert(note_views(out@) =~= note_views(old(out)@) + ui_pop(old(self)@).1);
        }
    }

    /// Delegates rendering to the active screen; with an empty stack, or a
    /// stale identifier on top, nothing is displayed.
    pub fn render(&self) -> (r: Vec<String>)
        requires
            ui_wf(self@),
        ensures
            line_views(r@) == ui_lines(self@),
    {
        let r = match self.current_screen() {
            Some(screen) => screen.render(),
            None => Vec::new(),
        };
        proof {
            assert(line_views(r@) =~= ui_lines(self@));
        }
        r
    }

    /// Delegates one input symbol to the active screen and applies the
    /// navigation action it reports, if any. Side effects happen only as a
    /// consequence of the screen's handling and the lifecycle callbacks.
    pub fn handle(&mut self, input: Input, out: &mut Vec<Notification>)
        requires
            old(self).inv(),
        ensures
            final(self).inv(),
            final(self)@ == ui_step(old(self)@, input).0,
            note_views(final(out)@) == note_views(old(out)@) + ui_step(old(self)@, input).1,
    {
        if self.stack.len() == 0 {
            proof {
                assert(note_views(out@) =~= note_views(old(out)@) + ui_step(old(self)@, input).1);
            }
            return ;
        }
        let id = self.stack[self.stack.len() - 1];
        if (id as usize) >= self.screens.len() {
            proof {
                assert(note_views(out@) =~= note_views(old(out)@) + ui_step(old(self)@, input).1);
            }
            return ;
        }
        let s = &mut self.screens[id as usize];
        let act = s.handle(input, out);
        proof {
            assert(self@.screens =~= old(self)@.screens.update(
                id as int,
                screen_step(old(self)@.screens[id as int], input).0,
            ));
        }
        match act {
            None => {
                proof {
                    assert(note_views(out@) =~= note_views(old(out)@) + ui_step(
                        old(self)@,
                        input,
                    ).1);
                }
            },
            Some(Action::Push(p)) => {
                self.push_screen(p, out);
                proof {
                    assert(note_views(out@) =~= note_views(old(out)@) + ui_step(
                        old(self)@,
                        input,
                    ).1);
                }
            },
            Some(Action::Pop) => {
                self.pop_screen(out);
                proof {
                    assert(note_views(out@) =~= note_views(old(out)@) + ui_step(
                        old(self)@,
                        input,
                    ).1);
                }
            },
        }
    }
}

// ---------------------------------------------------------------------------
// Assembly: building the registry and the navigation stack from the
// configuration tree. Identifiers are assigned depth first: each patch's
// parameters, then the patch; each menu's patches, then the menu; the root
// menu last, pushed as the sole active screen.
/// The parameter a configuration entry builds.
pub open spec fn param_of_config(p: config::Param) -> param::ParamView {
    param::ParamView {
        name: p.name@,
        value: p.value as int,
        step: p.step as int,
        min: p.min as int,
        max: p.max as int,
    }
}

/// The screens one patch's parameters register, in registration order.
pub open spec fn param_screens(ps: Seq<config::Param>) -> Seq<ScreenView> {
    Seq::new(ps.len(), |i: int| ScreenView::Param(param_of_config(ps[i])))
}

/// The submenu one patch builds, where `base` is the identifier of its
/// first parameter: one entry per parameter, then a back item.
pub open spec fn patch_menu_view(base: int, ps: Seq<config::Param>) -> menu::MenuView {
    menu::MenuView {
        selected: 0,
        items: Seq::new(
            ps.len(),
            |i: int|
                menu::ItemView {
                    label: ps[i].name@,
                    action: Some(Action::Push((base + i) as ScreenId)),
                },
        ).push(menu::ItemView { label: "<-"@, action: Some(Action::Pop) }),
    }
}

/// The patch one configuration entry builds, its parameters starting at
/// `base`.
pub open spec fn patch_of_config(base: int, p: config::Patch) -> patch::PatchView {
    patch::PatchView { name: p.name@, menu: patch_menu_view(base, p.params@) }
}

/// The screens one whole patch registers: its parameters, then itself.
pub open spec fn patch_screens(base: int, p: config::Patch) -> Seq<ScreenView> {
    param_screens(p.params@).push(ScreenView::Patch(patch_of_config(base, p)))
}

/// How many screens one patch registers.
pub open spec fn patch_block(p: config::Patch) -> int {
    p.params@.len() as int + 1
}

/// How many screens a sequence of patches registers.
pub open spec fn patch_blocks(ps: Seq<config::Patch>) -> int
    decreases ps.len(),
{
    if ps.len() == 0 {
        0
    } else {
        patch_blocks(ps.drop_last()) + patch_block(ps.last())
    }
}

/// The screens a sequence of patches registers, starting at `base`.
pub open spec fn patches_screens(base: int, ps: Seq<config::Patch>) -> Seq<ScreenView>
    decreases ps.len(),
{
    if ps.len() == 0 {
        Seq::empty()
    } else {
        patches_screens(base, ps.drop_last()) + patch_screens(
            base + patch_blocks(ps.drop_last()),
            ps.last(),
        )
    }
}

/// The menu entry for patch `k` of a menu whose patches start at `base`:
/// the patch's name, pushing the patch's own screen.
pub open spec fn patch_entry(base: int, ps: Seq<config::Patch>, k: int) -> menu::ItemView {
    menu::ItemView {
        label: ps[k].name@,
        action: Some(
            Action::Push((base + patch_blocks(ps.take(k)) + ps[k].params@.len()) as ScreenId),
        ),
    }
}

/// The menu one configuration entry builds, its patches starting at
/// `base`: one entry per patch, then a back item.
pub open spec fn menu_of_config(base: int, m: config::Menu) -> menu::MenuView {
    menu::MenuView {
        selected: 0,
        items: Seq::new(m.patches@.len(), |k: int| patch_entry(base, m.patches@, k)).push(
            menu::ItemView { label: "↩"@, action: Some(Action::Pop) },
        ),
    }
}

/// How many screens one menu registers.
pub open spec fn menu_block(m: config::Menu) -> int {
    patch_blocks(m.patches@) + 1
}

/// How many screens a sequence of menus registers.
pub open spec fn menu_blocks(ms: Seq<config::Menu>) -> int
    decreases ms.len(),
{
    if ms.len() == 0 {
        0
    } else {
        menu_blocks(ms.drop_last()) + menu_block(ms.last())
    }
}

/// The screens one whole menu registers: its patches' screens, then itself.
pub open spec fn menu_screens(base: int, m: config::Menu) -> Seq<ScreenView> {
    patches_screens(base, m.patches@).push(ScreenView::Menu(menu_of_config(base, m)))
}

/// The screens a sequence of menus registers, starting at `base`.
pub open spec fn menus_screens(base: int, ms: Seq<config::Menu>) -> Seq<ScreenView>
    decreases ms.len(),
{
    if ms.len() == 0 {
        Seq::empty()
    } else {
        menus_screens(base, ms.drop_last()) + menu_screens(
            base + menu_blocks(ms.drop_last()),
            ms.last(),
        )
    }
}

/// The root menu's entry for menu `k`: the menu's name, pushing the menu's
/// own screen.
pub open spec fn menu_entry(ms: Seq<config::Menu>, k: int) -> menu::ItemView {
    menu::ItemView {
        label: ms[k].name@,
        action: Some(
            Action::Push((menu_blocks(ms.take(k)) + patch_blocks(ms[k].patches@)) as ScreenId),
        ),
    }
}

/// The root menu: one entry per configured menu, with no back item.
pub open spec fn root_menu_view(ms: Seq<config::Menu>) -> menu::MenuView {
    menu::MenuView { selected: 0, items: Seq::new(ms.len(), |k: int| menu_entry(ms, k)) }
}

/// The whole runtime the configuration builds: every menu's screens, then
/// the root menu, which is the sole entry of the stack.
pub open spec fn ui_of_config(ms: Seq<config::Menu>) -> UIView {
    UIView {
        screens: menus_screens(0, ms).push(ScreenView::Menu(root_menu_view(ms))),
        stack: seq![menu_blocks(ms) as ScreenId],
    }
}

proof fn lemma_patch_blocks_bounds(ps: Seq<config::Patch>)
    ensures
        patch_blocks(ps) >= ps.len(),
        patches_screens(0, ps).len() == patch_blocks(ps),
    decreases ps.len(),
{
    if ps.len() > 0 {
        lemma_patch_blocks_bounds(ps.drop_last());
        lemma_patches_screens_base(ps.drop_last(), 0, 0);
    }
}

/// The screens a patch sequence registers do not depend on where their
/// identifiers start, except inside the entries themselves; in particular
/// the count is the same from every base.
proof fn lemma_patches_screens_base(ps: Seq<config::Patch>, a: int, b: int)
    ensures
        patches_screens(a, ps).len() == patches_screens(b, ps).len(),
    decreases ps.len(),
{
    if ps.len() > 0 {
        lemma_patches_screens_base(ps.drop_last(), a, b);
    }
}

proof fn lemma_patches_screens_len(base: int, ps: Seq<config::Patch>)
    ensures
        patches_screens(base, ps).len() == patch_blocks(ps),
    decreases ps.len(),
{
    if ps.len() > 0 {
        lemma_patches_screens_len(base, ps.drop_last());
    }
}

proof fn lemma_patch_take_succ(base: int, ps: Seq<config::Patch>, i: int)
    requires
        0 <= i < ps.len(),
    ensures
        patch_blocks(ps.take(i + 1)) == patch_blocks(ps.take(i)) + patch_block(ps[i]),
        patches_screens(base, ps.take(i + 1)) == patches_screens(base, ps.take(i)) + patch_screens(
            base + patch_blocks(ps.take(i)),
            ps[i],
        ),
{
    assert(ps.take(i + 1).drop_last() =~= ps.take(i));
    assert(ps.take(i + 1).last() == ps[i]);
}

proof fn lemma_patch_blocks_take_le(ps: Seq<config::Patch>, i: int)
    requires
        0 <= i <= ps.len(),
    ensures
        patch_blocks(ps.take(i)) <= patch_blocks(ps),
        patch_blocks(ps.take(i)) >= i,
    decreases ps.len() - i,
{
    lemma_patch_blocks_bounds(ps.take(i));
    if i == ps.len() {
        assert(ps.take(i) =~= ps);
    } else {
        lemma_patch_take_succ(0, ps, i);
        lemma_patch_blocks_take_le(ps, i + 1);
    }
}

proof fn lemma_menu_blocks_bounds(ms: Seq<config::Menu>)
    ensures
        menu_blocks(ms) >= ms.len(),
    decreases ms.len(),
{
    if ms.len() > 0 {
        lemma_menu_blocks_bounds(ms.drop_last());
        lemma_patch_blocks_bounds(ms.last().patches@);
    }
}

proof fn lemma_menus_screens_len(base: int, ms: Seq<config::Menu>)
    ensures
        menus_screens(base, ms).len() == menu_blocks(ms),
    decreases ms.len(),
{
    if ms.len() > 0 {
        lemma_menus_screens_len(base, ms.drop_last());
        lemma_patches_screens_len(base + menu_blocks(ms.drop_last()), ms.last().patches@);
    }
}

proof fn lemma_menu_take_succ(base: int, ms: Seq<config::Menu>, i: int)
    requires
        0 <= i < ms.len(),
    ensures
        menu_blocks(ms.take(i + 1)) == menu_blocks(ms.take(i)) + menu_block(ms[i]),
        menus_screens(base, ms.take(i + 1)) == menus_screens(base, ms.take(i)) + menu_screens(
            base + menu_blocks(ms.take(i)),
            ms[i],
        ),
{
    assert(ms.take(i + 1).drop_last() =~= ms.take(i));
    assert(ms.take(i + 1).last() == ms[i]);
}

proof fn lemma_menu_blocks_take_le(ms: Seq<config::Menu>, i: int)
    requires
        0 <= i <= ms.len(),
    ensures
        menu_blocks(ms.take(i)) <= menu_blocks(ms),
        menu_blocks(ms.take(i)) >= i,
    decreases ms.len() - i,
{
    lemma_menu_blocks_bounds(ms.take(i));
    if i == ms.len() {
        assert(ms.take(i) =~= ms);
    } else {
        lemma_menu_take_succ(0, ms, i);
        lemma_menu_blocks_take_le(ms, i + 1);
        lemma_patch_blocks_bounds(ms[i].patches@);
    }
}

/// Builds one parameter editor from its configuration entry.
fn build_param(param_config: &config::Param) -> (r: param::Param)
    requires
        config::param_ok(*param_config),
    ensures
        r@ == param_of_config(*param_config),
        r.inv(),
{
    param::Param::new(
        param_config.name.clone(),
        param_config.value,
        param_config.step,
        param_config.min,
        param_config.max,
    )
}

/// Builds one patch from its configuration entry, registering each of its
/// parameters and wiring the patch's submenu to them.
fn build_patch(ui: &mut UI, patch_config: &config::Patch) -> (r: patch::Patch)
    requires
        old(ui).inv(),
        config::patch_ok(*patch_config),
        old(ui)@.screens.len() + patch_config.params@.len() < u32::MAX,
    ensures
        final(ui).inv(),
        final(ui)@.screens == old(ui)@.screens + param_screens(patch_config.params@),
        final(ui)@.stack == old(ui)@.stack,
        r@ == patch_of_config(old(ui)@.screens.len() as int, *patch_config),
        r.inv(),
{
    let ghost base: int = old(ui)@.screens.len() as int;
    let mut items: Vec<menu::MenuItem> = Vec::new();
    let mut i: usize = 0;
    while i < patch_config.params.len()
        invariant
            ui.inv(),
            config::patch_ok(*patch_config),
            base == old(ui)@.screens.len(),
            base + patch_config.params@.len() < u32::MAX,
            i <= patch_config.params@.len(),
            ui@.screens == old(ui)@.screens + param_screens(patch_config.params@.take(i as int)),
            ui@.stack == old(ui)@.stack,
            items@.len() == i,
            forall|k: int|
                0 <= k < i ==> #[trigger] items@[k]@ == (menu::ItemView {
                    label: patch_config.params@[k].name@,
                    action: Some(Action::Push((base + k) as ScreenId)),
                }),
        decreases patch_config.params@.len() - i,
    {
        let param = build_param(&patch_config.params[i]);
        let id = ui.register(Screen::Param(param));
        items.push(menu::MenuItem::new(patch_config.params[i].name.as_str(), Action::Push(id)));
        proof {
            assert(ui@.screens =~= old(ui)@.screens + param_screens(
                patch_config.params@.take(i + 1),
            ));
        }
        i = i + 1;
    }
    items.push(menu::MenuItem::new("<-", Action::Pop));
    let m = menu::Menu::new(items);
    let r = patch::Patch::new(patch_config.name.as_str(), m);
    proof {
        assert(patch_config.params@.take(patch_config.params@.len() as int) =~= patch_config
            .params@);
        assert(r@.menu.items =~= patch_menu_view(base, patch_config.params@).items);
        assert(r@.menu == patch_menu_view(base, patch_config.params@));
    }
    r
}

/// Builds one menu from its configuration entry, registering each of its
/// patches (and, through them, their parameters).
fn build_menu(ui: &mut UI, menu_config: &config::Menu) -> (r: menu::Menu)
    requires
        old(ui).inv(),
        config::menu_ok(*menu_config),
        old(ui)@.screens.len() + patch_blocks(menu_config.patches@) < u32::MAX,
    ensures
        final(ui).inv(),
        final(ui)@.screens == old(ui)@.screens + patches_screens(
            old(ui)@.screens.len() as int,
            menu_config.patches@,
        ),
        final(ui)@.stack == old(ui)@.stack,
        r@ == menu_of_config(old(ui)@.screens.len() as int, *menu_config),
        r.inv(),
{
    let ghost base: int = old(ui)@.screens.len() as int;
    let ghost ps: Seq<config::Patch> = menu_config.patches@;
    let mut items: Vec<menu::MenuItem> = Vec::new();
    let mut i: usize = 0;
    while i < menu_config.patches.len()
        invariant
            ui.inv(),
            config::menu_ok(*menu_config),
            ps == menu_config.patches@,
            base == old(ui)@.screens.len(),
            base + patch_blocks(ps) < u32::MAX,
            i <= ps.len(),
            ui@.screens == old(ui)@.screens + patches_screens(base, ps.take(i as int)),
            ui@.stack == old(ui)@.stack,
            items@.len() == i,
            forall|k: int| 0 <= k < i ==> #[trigger] items@[k]@ == patch_entry(base, ps, k),
        decreases ps.len() - i,
    {
        proof {
            lemma_patch_blocks_take_le(ps, i as int);
            lemma_patch_blocks_take_le(ps, i as int + 1);
            lemma_patch_take_succ(base, ps, i as int);
            lemma_patches_screens_len(base, ps.take(i as int));
        }
        let patch = build_patch(ui, &menu_config.patches[i]);
        let id = ui.register(Screen::Patch(patch));
        items.push(menu::MenuItem::new(menu_config.patches[i].name.as_str(), Action::Push(id)));
        proof {
            lemma_patches_screens_base(ps.take(i as int), base, 0);
            assert(ui@.screens =~= old(ui)@.screens + patches_screens(base, ps.take(i + 1)));
        }
        i = i + 1;
    }
    items.push(menu::MenuItem::new("↩", Action::Pop));
    let r = menu::Menu::new(items);
    proof {
        assert(ps.take(ps.len() as int) =~= ps);
        assert(r@.items =~= menu_of_config(base, *menu_config).items);
        assert(r@ == menu_of_config(base, *menu_config));
    }
    r
}

/// Assembles the whole UI from the configured menu tree: registers every
/// parameter, patch and menu, then a root menu over the menus' names, and
/// pushes the root as the sole active screen.
pub fn build_ui(menus: &Vec<config::Menu>) -> (r: UI)
    requires
        config::menus_ok(menus@),
        menu_blocks(menus@) < u32::MAX,
    ensures
        r@ == ui_of_config(menus@),
        r.inv(),
{
    let ghost ms: Seq<config::Menu> = menus@;
    let mut ui = UI::new();
    let mut items: Vec<menu::MenuItem> = Vec::new();
    let mut i: usize = 0;
    proof {
        assert(ui@.screens =~= menus_screens(0, ms.take(0)));
    }
    while i < menus.len()
        invariant
            ui.inv(),
            config::menus_ok(ms),
            ms == menus@,
            menu_blocks(ms) < u32::MAX,
            i <= ms.len(),
            ui@.screens == menus_screens(0, ms.take(i as int)),
            ui@.stack == Seq::<ScreenId>::empty(),
            items@.len() == i,
            forall|k: int| 0 <= k < i ==> #[trigger] items@[k]@ == menu_entry(ms, k),
        decreases ms.len() - i,
    {
        proof {
            lemma_menu_blocks_take_le(ms, i as int);
            lemma_menu_blocks_take_le(ms, i as int + 1);
            lemma_menu_take_succ(0, ms, i as int);
            lemma_menus_screens_len(0, ms.take(i as int));
            lemma_patch_blocks_bounds(ms[i as int].patches@);
            lemma_patches_screens_len(
                menu_blocks(ms.take(i as int)),
                ms[i as int].patches@,
            );
        }
        let m = build_menu(&mut ui, &menus[i]);
        let id = ui.register(Screen::Menu(m));
        items.push(menu::MenuItem::new(menus[i].name.as_str(), Action::Push(id)));
        proof {
            assert(ui@.screens =~= menus_screens(0, ms.take(i + 1)));
            assert(items@[i as int]@ == menu_entry(ms, i as int));
        }
        i = i + 1;
    }
    proof {
        assert(ms.take(ms.len() as int) =~= ms);
        lemma_menus_screens_len(0, ms);
    }
    let root = menu::Menu::new(items);
    proof {
        assert(root@.items =~= root_menu_view(ms).items);
        assert(root@ == root_menu_view(ms));
    }
    let root_id = ui.register(Screen::Menu(root));
    let mut notes: Vec<Notification> = Vec::new();
    ui.push_screen(root_id, &mut notes);
    proof {
        assert(ui@.screens =~= ui_of_config(ms).screens);
        assert(ui@.stack =~= ui_of_config(ms).stack);
    }
    ui
}

} // verus!
