//! The redraw timer: when the overlay is shown, hidden and painted.

use vstd::prelude::*;

use crate::frames::START_SEQ;

verus! {

/// Period of the redraw timer, in milliseconds (about 60 Hz).
pub const RENDER_TICK_MS: u32 = 16;

/// The longest silence, in nanoseconds, that does not yet count as idle.
///
/// The timeout is 0.15 s, held against the silence as a single-precision number
/// of seconds. 150 000 008 ns is the longest span that such a number does not
/// tell apart from 0.15 s.
pub const IDLE_TIMEOUT_NANOS: u128 = 150_000_008;

/// How long ago, in seconds, the last frame is taken to have arrived before any
/// frame has: long enough to be idle.
pub const STALE_SECS: u64 = 3600;

/// What one tick of the timer reads.
#[derive(Clone, Copy, PartialEq, Eq, Structural, Debug)]
pub struct TickInput {
    /// The number of the newest frame; `None` if it cannot be read.
    pub seq: Option<u64>,
    /// Nanoseconds since the last frame arrived; `None` if that cannot be read.
    pub silence_nanos: Option<u128>,
}

/// What is to be done in one tick.
#[derive(Clone, Copy, PartialEq, Eq, Structural, Debug)]
pub enum TickPlan {
    /// Nothing: the overlay is idle and hidden.
    Rest,
    /// Hide the window, drop the frames held and lower every column to zero.
    Hide,
    /// Show the window if `show` is set, let the held peak decay, and queue a
    /// paint if `redraw` is set.
    Active { show: bool, redraw: bool },
}

/// What the timer remembers from one tick to the next.
#[derive(Clone, Copy, PartialEq, Eq, Structural, Debug)]
pub struct RenderLoop {
    /// Whether the window is mapped.
    pub visible: bool,
    /// The number of the newest frame at the last paint.
    pub last_drawn_seq: u64,
}

impl TickInput {
    /// The overlay is idle if the last frame is older than the timeout, or if
    /// its age cannot be read.
    pub open spec fn idle(self) -> bool {
        match self.silence_nanos {
            Some(nanos) => nanos > IDLE_TIMEOUT_NANOS,
            None => true,
        }
    }

    /// The number of the newest frame, zero if it cannot be read.
    pub open spec fn current_seq(self) -> u64 {
        match self.seq {
            Some(seq) => seq,
            None => 0,
        }
    }

    /// Whether the overlay is idle.
    pub fn is_idle(&self) -> (idle: bool)
        ensures
            idle == self.idle(),
            idle == !(self.silence_nanos matches Some(nanos) && nanos <= IDLE_TIMEOUT_NANOS),
    {
        match self.silence_nanos {
            Some(nanos) => nanos > IDLE_TIMEOUT_NANOS,
            None => true,
        }
    }
}

impl RenderLoop {
    /// What is to be done on `input`.
    pub open spec fn plan(self, input: TickInput) -> TickPlan {
        if input.idle() {
            if self.visible {
                TickPlan::Hide
            } else {
                TickPlan::Rest
            }
        } else {
            TickPlan::Active {
                show: !self.visible,
                redraw: input.current_seq() != self.last_drawn_seq,
            }
        }
    }

    /// The state after `input`.
    pub open spec fn next(self, input: TickInput) -> RenderLoop {
        RenderLoop {
            visible: !input.idle(),
            last_drawn_seq: if input.idle() {
                self.last_drawn_seq
            } else {
                input.current_seq()
            },
        }
    }

    /// The state after a run of ticks.
    pub open spec fn after(self, inputs: Seq<TickInput>) -> RenderLoop
        decreases inputs.len(),
    {
        if inputs.len() == 0 {
            self
        } else {
            self.after(inputs.drop_last()).next(inputs.last())
        }
    }

    /// The plan of the last tick of a run.
    pub open spec fn last_plan(self, inputs: Seq<TickInput>) -> TickPlan {
        self.after(inputs.drop_last()).plan(inputs.last())
    }

    /// How often a run of ticks hides the window.
    pub open spec fn hides(self, inputs: Seq<TickInput>) -> nat
        decreases inputs.len(),
    {
        if inputs.len() == 0 {
            0
        } else {
            self.hides(inputs.drop_last()) + if self.last_plan(inputs) is Hide {
                1nat
            } else {
                0nat
            }
        }
    }

    /// How often a run of ticks shows the window.
    pub open spec fn shows(self, inputs: Seq<TickInput>) -> nat
        decreases inputs.len(),
    {
        if inputs.len() == 0 {
            0
        } else {
            self.shows(inputs.drop_last()) + match self.last_plan(inputs) {
                TickPlan::Active { show: true, .. } => 1nat,
                _ => 0nat,
            }
        }
    }

    /// How often a run of ticks queues a paint.
    pub open spec fn redraws(self, inputs: Seq<TickInput>) -> nat
        decreases inputs.len(),
    {
        if inputs.len() == 0 {
            0
        } else {
            self.redraws(inputs.drop_last()) + match self.last_plan(inputs) {
                TickPlan::Active { redraw: true, .. } => 1nat,
                _ => 0nat,
            }
        }
    }

    /// The state before the first tick: the window has been mapped, and nothing
    /// has been painted.
    pub fn new() -> (state: RenderLoop)
        ensures
            state.visible,
            state.last_drawn_seq == START_SEQ,
    {
        RenderLoop { visible: true, last_drawn_seq: START_SEQ }
    }

    /// One tick of the timer.
    pub fn tick(&mut self, input: TickInput) -> (plan: TickPlan)
        ensures
            plan == old(self).plan(input),
            *final(self) == old(self).next(input),
            final(self).visible == (input.silence_nanos matches Some(nanos) && nanos
                <= IDLE_TIMEOUT_NANOS),
            plan is Active == final(self).visible,
            plan is Hide == (old(self).visible && !final(self).visible),
            plan matches TickPlan::Active { show, .. } ==> show == !old(self).visible,
            plan matches TickPlan::Active { redraw, .. } ==> redraw == (final(self).last_drawn_seq
                != old(self).last_drawn_seq),
            plan is Active && input.seq is Some ==> final(self).last_drawn_seq == input.seq->0,
            plan is Active && input.seq is None ==> final(self).last_drawn_seq == 0,
            plan !is Active ==> final(self).last_drawn_seq == old(self).last_drawn_seq,
    {
        let seq: u64 = match input.seq {
            Some(seq) => seq,
            None => 0,
        };
        if input.is_idle() {
            if self.visible {
                self.visible = false;
                return TickPlan::Hide;
            }
            return TickPlan::Rest;
        }
        let show = !self.visible;
        if show {
            self.visible = true;
        }
        let redraw = seq != self.last_drawn_seq;
        if redraw {
            self.last_drawn_seq = seq;
        }
        TickPlan::Active { show, redraw }
    }
}

/// After every tick the window is mapped if and only if the overlay was not
/// idle in it.
pub proof fn law_visible_unless_idle(state: RenderLoop, inputs: Seq<TickInput>)
    requires
        inputs.len() > 0,
    ensures
        state.after(inputs).visible == !inputs.last().idle(),
{
}

/// The window is hidden only while it is mapped and shown only while it is not:
/// over any run of ticks the two alternate, so that their difference is the
/// change in visibility.
pub proof fn law_hides_and_shows_alternate(state: RenderLoop, inputs: Seq<TickInput>)
    ensures
        state.hides(inputs) - state.shows(inputs) == (if state.visible {
            1int
        } else {
            0
        }) - (if state.after(inputs).visible {
            1int
        } else {
            0
        }),
    decreases inputs.len(),
{
    if inputs.len() > 0 {
        law_hides_and_shows_alternate(state, inputs.drop_last());
    }
}

/// A silent overlay does no rendering work: while it is idle nothing is painted
/// or shown, and the window is hidden in the first tick at the latest and not
/// again. What was painted last is not forgotten.
pub proof fn law_idle_does_no_work(state: RenderLoop, inputs: Seq<TickInput>)
    requires
        forall|i: int| 0 <= i < inputs.len() ==> (#[trigger] inputs[i]).idle(),
    ensures
        state.redraws(inputs) == 0,
        state.shows(inputs) == 0,
        state.hides(inputs) == (if state.visible && inputs.len() > 0 {
            1nat
        } else {
            0
        }),
        state.after(inputs).last_drawn_seq == state.last_drawn_seq,
        inputs.len() > 0 ==> !state.after(inputs).visible,
    decreases inputs.len(),
{
    if inputs.len() > 0 {
        let before = inputs.drop_last();
        assert forall|i: int| 0 <= i < before.len() implies (#[trigger] before[i]).idle() by {
            assert(before[i] == inputs[i]);
        }
        law_idle_does_no_work(state, before);
        assert(inputs[inputs.len() - 1].idle());
    }
}

/// Before any frame has arrived the overlay is idle, so its first tick hides the
/// window that was mapped at start.
pub proof fn law_first_tick_hides(state: RenderLoop, input: TickInput)
    requires
        state.visible,
        input.silence_nanos matches Some(nanos) ==> nanos >= STALE_SECS * 1_000_000_000,
    ensures
        state.plan(input) is Hide,
        !state.next(input).visible,
{
}

/// A hidden window reappears in the first tick in which the overlay is not idle.
pub proof fn law_reappears_when_frames_resume(state: RenderLoop, input: TickInput)
    requires
        !state.visible,
        !input.idle(),
    ensures
        state.plan(input) matches TickPlan::Active { show, .. } && show,
        state.next(input).visible,
{
}

/// Between two paints a new frame has arrived: over any run of ticks that all
/// read the same frame number, at most one paint is queued, and none once that
/// number has been painted.
pub proof fn law_same_frame_is_painted_once(state: RenderLoop, inputs: Seq<TickInput>, seq: u64)
    requires
        forall|i: int| 0 <= i < inputs.len() ==> (#[trigger] inputs[i]).current_seq() == seq,
    ensures
        state.redraws(inputs) <= 1,
        state.last_drawn_seq == seq ==> state.redraws(inputs) == 0,
        state.redraws(inputs) == 1 ==> state.after(inputs).last_drawn_seq == seq,
        state.redraws(inputs) == 0 ==> state.after(inputs).last_drawn_seq == state.last_drawn_seq,
    decreases inputs.len(),
{
    if inputs.len() > 0 {
        let before = inputs.drop_last();
        assert forall|i: int| 0 <= i < before.len() implies (#[trigger] before[i]).current_seq()
            == seq by {
            assert(before[i] == inputs[i]);
        }
        law_same_frame_is_painted_once(state, before, seq);
        assert(inputs[inputs.len() - 1].current_seq() == seq);
    }
}

/// After a tick the window is mapped exactly if the last frame is known to be no
/// older than the timeout, however old it is and whatever was before. Exactly
/// then something may be painted.
pub proof fn law_mapped_by_the_age_of_the_last_frame(state: RenderLoop, input: TickInput)
    ensures
        input.silence_nanos matches Some(nanos) ==> state.next(input).visible == (nanos
            <= IDLE_TIMEOUT_NANOS),
        input.silence_nanos is None ==> !state.next(input).visible,
        input.silence_nanos matches Some(nanos) ==> (state.plan(input) is Active) == (nanos
            <= IDLE_TIMEOUT_NANOS),
        input.silence_nanos is None ==> state.plan(input) !is Active,
{
}

/// A silence that is longer than one that hides the window hides it too, and one
/// that is shorter than one that leaves it mapped leaves it mapped.
pub proof fn law_longer_silence_hides_too(
    a: RenderLoop,
    b: RenderLoop,
    shorter: TickInput,
    longer: TickInput,
)
    requires
        shorter.silence_nanos is Some,
        longer.silence_nanos is Some,
        shorter.silence_nanos->0 <= longer.silence_nanos->0,
    ensures
        !a.next(shorter).visible ==> !b.next(longer).visible,
        b.next(longer).visible ==> a.next(shorter).visible,
        a.plan(shorter) !is Active ==> b.plan(longer) !is Active,
{
}

/// The plan says how the window changes: it is hidden exactly if it was mapped
/// and is not any more, shown exactly if it is mapped and was not, and where it
/// was unmapped and stays so nothing is done.
pub proof fn law_plan_is_the_change_of_visibility(state: RenderLoop, input: TickInput)
    ensures
        state.plan(input) is Hide <==> state.visible && !state.next(input).visible,
        state.plan(input) is Rest <==> !state.visible && !state.next(input).visible,
        (state.plan(input) matches TickPlan::Active { show, .. } && show) <==> !state.visible
            && state.next(input).visible,
{
}

/// Where the window is mapped, the frame number that was read is the one painted
/// last from then on, and a paint is queued exactly if it is another than before;
/// a number that cannot be read counts as zero. Where the window is not mapped
/// the number painted last stays.
pub proof fn law_paint_follows_the_number(state: RenderLoop, input: TickInput)
    ensures
        state.next(input).visible && input.seq is Some ==> state.next(input).last_drawn_seq
            == input.seq->0,
        state.next(input).visible && input.seq is None ==> state.next(input).last_drawn_seq == 0,
        !state.next(input).visible ==> state.next(input).last_drawn_seq == state.last_drawn_seq,
        (state.plan(input) matches TickPlan::Active { redraw, .. } && redraw) <==> state.next(
            input,
        ).last_drawn_seq != state.last_drawn_seq,
{
}

/// What was painted last does not bear on whether the window is mapped, and
/// whether it was mapped does not bear on what is painted.
pub proof fn law_visibility_and_paint_are_independent(a: RenderLoop, b: RenderLoop, input: TickInput)
    ensures
        a.next(input).visible == b.next(input).visible,
        a.last_drawn_seq == b.last_drawn_seq ==> a.next(input) == b.next(input),
        a.visible == b.visible ==> (a.plan(input) is Hide) == (b.plan(input) is Hide),
{
}

} // verus!
