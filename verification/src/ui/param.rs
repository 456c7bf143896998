//! A bounded numeric parameter, edited in place and broadcast on every
//! change. Values, steps and bounds are carried in hundredths of a unit,
//! the display precision of the surface.
use vstd::prelude::*;
use vstd::string::StringExecFns;

use crate::text::{dash_bar, fixed2, format_fixed2, make_dash_bar};
use crate::ui::{Action, Input, Notification, NoteView, line_views, note_views};

verus! {

/// Width of the editor's value bar when the value sits at `max`, in
/// character cells.
pub const BAR_WIDTH: u64 = 13;

/// Largest magnitude a parameter bound, value or step may take, in
/// hundredths of a unit. Keeps every increment and decrement free of
/// overflow in a 64-bit value.
pub const PARAM_LIMIT: i64 = 100_000_000_000_000_000;

/// A named value confined to `[min, max]`, moved by `step` at a time.
#[derive(Clone, Debug)]
pub struct Param {
    pub name: String,
    pub value: i64,
    pub step: i64,
    pub min: i64,
    pub max: i64,
}

/// Mathematical model of a parameter.
pub struct ParamView {
    pub name: Seq<char>,
    pub value: int,
    pub step: int,
    pub min: int,
    pub max: int,
}

impl View for Param {
    type V = ParamView;

    open spec fn view(&self) -> ParamView {
        ParamView {
            name: self.name@,
            value: self.value as int,
            step: self.step as int,
            min: self.min as int,
            max: self.max as int,
        }
    }
}

/// The value stays within its bounds, the step never moves it backwards,
/// and every quantity is small enough that one step cannot overflow.
pub open spec fn param_wf(p: ParamView) -> bool {
    &&& p.min <= p.value <= p.max
    &&& 0 <= p.step <= PARAM_LIMIT as int
    &&& -(PARAM_LIMIT as int) <= p.min
    &&& p.max <= PARAM_LIMIT as int
}

/// The parameter after one increment: up one step, clamped at `max`.
pub open spec fn param_inc(p: ParamView) -> ParamView {
    ParamView {
        value: if p.value + p.step > p.max { p.max } else { p.value + p.step },
        ..p
    }
}

/// The parameter after one decrement: down one step, clamped at `min`.
pub open spec fn param_dec(p: ParamView) -> ParamView {
    ParamView {
        value: if p.value - p.step < p.min { p.min } else { p.value - p.step },
        ..p
    }
}

/// How a parameter responds to one input: Left decrements and broadcasts,
/// Right increments and broadcasts, Press leaves the editor silently.
pub open spec fn param_step(p: ParamView, input: Input) -> (ParamView, Option<
    Action,
>, Seq<NoteView>) {
    match input {
        Input::Left => (
            param_dec(p),
            None,
            seq![NoteView::SetValue { name: p.name, value: param_dec(p).value }],
        ),
        Input::Right => (
            param_inc(p),
            None,
            seq![NoteView::SetValue { name: p.name, value: param_inc(p).value }],
        ),
        Input::Press => (p, Some(Action::Pop), seq![]),
    }
}

/// Filled length of the value bar: `BAR_WIDTH * value / max`, rounded to
/// the nearest cell. The ratio is taken against `max` alone, not against
/// the `[min, max]` range, so the bar is proportional to the true position
/// only when `min` is zero. The ratio is drawn whenever it is non-negative
/// — when `value` and `max` share a sign, including all-negative ranges,
/// where it is at least one at `max` and grows toward `min`. A negative
/// ratio, or a `max` of zero, draws an empty bar.
pub open spec fn bar_width(p: ParamView) -> int {
    if p.max > 0 && p.value > 0 {
        (2 * BAR_WIDTH * p.value + p.max) / (2 * p.max)
    } else if p.max < 0 && p.value < 0 {
        (2 * BAR_WIDTH * -p.value + -p.max) / (2 * -p.max)
    } else {
        0
    }
}

/// The editor's display: a label line, the value with two decimal places,
/// and the proportional bar.
pub open spec fn param_lines(p: ParamView) -> Seq<Seq<char>> {
    seq![p.name + ":"@, fixed2(p.value), dash_bar(bar_width(p) as nat)]
}

/// The parameter after `k` consecutive increments.
pub open spec fn param_inc_n(p: ParamView, k: nat) -> ParamView
    decreases k,
{
    if k == 0 {
        p
    } else {
        param_inc(param_inc_n(p, (k - 1) as nat))
    }
}

/// The parameter after `k` consecutive decrements.
pub open spec fn param_dec_n(p: ParamView, k: nat) -> ParamView
    decreases k,
{
    if k == 0 {
        p
    } else {
        param_dec(param_dec_n(p, (k - 1) as nat))
    }
}

/// After `k` consecutive increments from `v`, the value is
/// `min(v + k * step, max)`; name, step and bounds are untouched.
pub proof fn lemma_param_inc_n(p: ParamView, k: nat)
    requires
        param_wf(p),
    ensures
        param_wf(param_inc_n(p, k)),
        param_inc_n(p, k) == (ParamView {
            value: if p.value + k * p.step > p.max {
                p.max
            } else {
                p.value + k * p.step
            },
            ..p
        }),
    decreases k,
{
    if k > 0 {
        lemma_param_inc_n(p, (k - 1) as nat);
        assert(k * p.step == (k - 1) as nat * p.step + p.step) by (nonlinear_arith)
            requires
                k >= 1,
        ;
        assert((k - 1) as nat * p.step >= 0) by (nonlinear_arith)
            requires
                p.step >= 0,
        ;
    } else {
        assert(k * p.step == 0) by (nonlinear_arith)
            requires
                k == 0,
        ;
    }
}

/// After `k` consecutive decrements from `v`, the value is
/// `max(v - k * step, min)`; name, step and bounds are untouched.
pub proof fn lemma_param_dec_n(p: ParamView, k: nat)
    requires
        param_wf(p),
    ensures
        param_wf(param_dec_n(p, k)),
        param_dec_n(p, k) == (ParamView {
            value: if p.value - k * p.step < p.min {
                p.min
            } else {
                p.value - k * p.step
            },
            ..p
        }),
    decreases k,
{
    if k > 0 {
        lemma_param_dec_n(p, (k - 1) as nat);
        assert(k * p.step == (k - 1) as nat * p.step + p.step) by (nonlinear_arith)
            requires
                k >= 1,
        ;
        assert((k - 1) as nat * p.step >= 0) by (nonlinear_arith)
            requires
                p.step >= 0,
        ;
    } else {
        assert(k * p.step == 0) by (nonlinear_arith)
            requires
                k == 0,
        ;
    }
}

impl Param {
    pub open spec fn inv(&self) -> bool {
        param_wf(self@)
    }

    /// Builds a parameter; the caller supplies a value already within its
    /// bounds and a non-negative step.
    pub fn new(name: String, value: i64, step: i64, min: i64, max: i64) -> (r: Param)
        requires
            min <= value <= max,
            0 <= step <= PARAM_LIMIT,
            -PARAM_LIMIT <= min,
            max <= PARAM_LIMIT,
        ensures
            r@ == (ParamView {
                name: name@,
                value: value as int,
                step: step as int,
                min: min as int,
                max: max as int,
            }),
            r.inv(),
    {
        Param { name, value, step, min, max }
    }

    /// Moves the value up one step, clamping at `max`.
    pub fn inc(&mut self)
        requires
            old(self).inv(),
        ensures
            final(self).inv(),
            final(self)@ == param_inc(old(self)@),
    {
        self.value = self.value + self.step;
        if self.value > self.max {
            self.value = self.max;
        }
    }

    /// Moves the value down one step, clamping at `min`.
    pub fn dec(&mut self)
        requires
            old(self).inv(),
        ensures
            final(self).inv(),
            final(self)@ == param_dec(old(self)@),
    {
        self.value = self.value - self.step;
        if self.value < self.min {
            self.value = self.min;
        }
    }

    /// Appends exactly one value notification carrying the parameter's name
    /// and current value.
    pub fn send(&self, out: &mut Vec<Notification>)
        ensures
            note_views(final(out)@) == note_views(old(out)@).push(
                NoteView::SetValue { name: self@.name, value: self@.value },
            ),
    {
        out.push(Notification::SetValue { name: self.name.clone(), value: self.value });
        proof {
            assert(note_views(out@) =~= note_views(old(out)@).push(
                NoteView::SetValue { name: self@.name, value: self@.value },
            ));
        }
    }

    /// Produces the editor's three lines: the label, the value with two
    /// decimal places, and the proportional bar. The lines are handed to
    /// the external text renderer.
    pub fn render(&self) -> (r: Vec<String>)
        requires
            self.inv(),
        ensures
            line_views(r@) == param_lines(self@),
    {
        let mut lines: Vec<String> = Vec::new();
        lines.push(self.name.clone().concat(":"));
        lines.push(format_fixed2(self.value));
        let w: u64 = if self.max > 0 && self.value > 0 {
            let num: u64 = 2 * BAR_WIDTH * (self.value as u64) + (self.max as u64);
            let den: u64 = 2 * (self.max as u64);
            num / den
        } else if self.max < 0 && self.value < 0 {
            let num: u64 = 2 * BAR_WIDTH * ((-self.value) as u64) + ((-self.max) as u64);
            let den: u64 = 2 * ((-self.max) as u64);
            num / den
        } else {
            0
        };
        proof {
            assert(w == bar_width(self@));
        }
        lines.push(make_dash_bar(w));
        proof {
            assert(line_views(lines@) =~~= param_lines(self@));
        }
        lines
    }

    /// Applies one input symbol: Left and Right move the value and broadcast
    /// it, Press asks to leave the editor.
    pub fn handle(&mut self, input: Input, out: &mut Vec<Notification>) -> (r: Option<Action>)
        requires
            old(self).inv(),
        ensures
            final(self).inv(),
            final(self)@ == param_step(old(self)@, input).0,
            r == param_step(old(self)@, input).1,
            note_views(final(out)@) == note_views(old(out)@) + param_step(old(self)@, input).2,
    {
        let r = match input {
            Input::Left => {
                self.dec();
                self.send(out);
                None
            },
            Input::Right => {
                self.inc();
                self.send(out);
                None
            },
            Input::Press => Some(Action::Pop),
        };
        proof {
            assert(note_views(out@) =~= note_views(old(out)@) + param_step(old(self)@, input).2);
        }
        r
    }
}

} // verus!
