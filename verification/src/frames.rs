//! Bookkeeping of received audio frames: their numbering, the report of every
//! so-many-th frame, and the decay of the held peak between frames.

use vstd::prelude::*;

use crate::render::{RenderLoop, TickInput, TickPlan};

verus! {

/// Loudness, in dBFS, that stands for the newest frame when there is none.
pub const SILENCE_DBFS: i32 = -120;

/// The number that stands for no frame at all, before the first one.
pub const START_SEQ: u64 = 0;

/// One more than the largest frame number: numbering starts over there.
pub const SEQ_MODULUS: u128 = 0x1_0000_0000_0000_0000;

/// The number of the newest frame once `frames` more have arrived.
pub open spec fn seq_after(seq: u64, frames: nat) -> u64 {
    ((seq + frames) % (SEQ_MODULUS as int)) as u64
}

/// The number of the frame after number `seq`.
pub fn next_seq(seq: u64) -> (next: u64)
    ensures
        next == seq_after(seq, 1),
        next == (if seq == u64::MAX {
            0
        } else {
            seq + 1
        }),
{
    seq.wrapping_add(1)
}

/// Counts the frames received and picks those that are reported.
#[derive(Clone, Copy, PartialEq, Eq, Structural, Debug)]
pub struct FrameCounter {
    /// Frames received so far.
    pub total: u64,
    /// Every frame whose count this divides is reported; with 0, none is.
    pub log_every: u32,
}

/// Whether the frame that makes the count `total` is reported.
pub open spec fn report_due(total: int, log_every: u32) -> bool {
    log_every > 0 && total % (log_every as int) == 0
}

/// How many of the first `frames` frames are reported.
pub open spec fn reports(frames: nat, log_every: u32) -> nat
    decreases frames,
{
    if frames == 0 {
        0
    } else {
        reports((frames - 1) as nat, log_every) + if report_due(frames as int, log_every) {
            1nat
        } else {
            0nat
        }
    }
}

impl FrameCounter {
    /// A counter that has seen no frame.
    pub fn new(log_every: u32) -> (counter: FrameCounter)
        ensures
            counter.total == 0,
            counter.log_every == log_every,
    {
        FrameCounter { total: 0, log_every }
    }

    /// Counts one frame; the result says whether it is reported.
    pub fn record(&mut self) -> (due: bool)
        requires
            old(self).total < u64::MAX,
        ensures
            final(self).total == old(self).total + 1,
            final(self).log_every == old(self).log_every,
            due == report_due(final(self).total as int, old(self).log_every),
            due == (old(self).log_every > 0 && final(self).total as int % old(self).log_every as int
                == 0),
            reports(final(self).total as nat, old(self).log_every) == reports(
                old(self).total as nat,
                old(self).log_every,
            ) + (if due {
                1nat
            } else {
                0nat
            }),
    {
        self.total = self.total + 1;
        self.log_every > 0 && self.total % (self.log_every as u64) == 0
    }
}

/// The loudness that stands for the newest frame: its own, or `floor` if there
/// is no frame.
pub open spec fn current_peak<F>(latest: Option<F>, floor: F) -> F {
    match latest {
        Some(peak) => peak,
        None => floor,
    }
}

/// The loudness by which the held peak `held` is to decay between frames: that
/// of the newest frame, `floor` if there is none.
///
/// There is none to apply if the newest frame is louder than the held peak:
/// the peak was raised when that frame arrived. `at_most` compares two
/// loudnesses.
pub fn peak_to_decay<F: Copy, C: Fn(F, F) -> bool>(
    latest: Option<F>,
    floor: F,
    held: F,
    at_most: C,
) -> (peak: Option<F>)
    requires
        call_requires(at_most, (current_peak(latest, floor), held)),
    ensures
        call_ensures(at_most, (current_peak(latest, floor), held), peak is Some),
        peak matches Some(p) ==> p == current_peak(latest, floor),
        latest matches Some(newest) ==> call_ensures(at_most, (newest, held), peak is Some),
        latest is None ==> call_ensures(at_most, (floor, held), peak is Some),
        peak is Some && latest is Some ==> peak == latest,
        peak is Some && latest is None ==> peak == Some(floor),
{
    let current = match latest {
        Some(peak) => peak,
        None => floor,
    };
    if at_most(current, held) {
        Some(current)
    } else {
        None
    }
}

/// Numbers advance frame by frame: `a` frames and then `b` more are `a + b`.
pub proof fn law_seq_advances(seq: u64, a: nat, b: nat)
    ensures
        seq_after(seq, 0) == seq,
        seq_after(seq_after(seq, a), b) == seq_after(seq, a + b),
{
    let m = SEQ_MODULUS as int;
    vstd::arithmetic::div_mod::lemma_small_mod(seq as nat, m as nat);
    vstd::arithmetic::div_mod::lemma_add_mod_noop(seq + a, b as int, m);
    vstd::arithmetic::div_mod::lemma_add_mod_noop((seq + a) % m, b as int, m);
    vstd::arithmetic::div_mod::lemma_mod_twice(seq + a, m);
}

/// While the overlay is not idle, a paint is queued exactly when frames have
/// arrived since the last one. (The numbers cannot tell a full turn of the
/// numbering from no frame at all.)
pub proof fn law_redraw_iff_new_frames(state: RenderLoop, input: TickInput, frames: nat)
    requires
        !input.idle(),
        frames < SEQ_MODULUS,
        input.seq == Some(seq_after(state.last_drawn_seq, frames)),
    ensures
        state.plan(input) matches TickPlan::Active { redraw, .. } && redraw == (frames > 0),
{
    let m = SEQ_MODULUS as int;
    let seq = state.last_drawn_seq as int;
    if seq + frames < m {
        vstd::arithmetic::div_mod::lemma_small_mod((seq + frames) as nat, m as nat);
    } else {
        vstd::arithmetic::div_mod::lemma_mod_sub_multiples_vanish(seq + frames, m);
        vstd::arithmetic::div_mod::lemma_small_mod((seq + frames - m) as nat, m as nat);
    }
}

/// How many frames had arrived at the last tick of a run in which the overlay
/// was not idle; `counts` says how many had arrived at each tick.
pub open spec fn painted(inputs: Seq<TickInput>, counts: Seq<nat>) -> nat
    decreases inputs.len(),
{
    if inputs.len() == 0 {
        0
    } else if inputs.last().idle() {
        painted(inputs.drop_last(), counts)
    } else {
        counts[inputs.len() - 1]
    }
}

/// From the start of the overlay on, what is on the screen keeps up with the
/// frames: after any run of ticks the last paint shows all frames that had
/// arrived by the last tick in which the overlay was not idle, and the last tick
/// queued a paint exactly if it was not idle and some of them were new. (The
/// numbers tell fewer than 2^64 frames apart.)
pub proof fn law_paints_keep_up(start: RenderLoop, inputs: Seq<TickInput>, counts: Seq<nat>)
    requires
        start.last_drawn_seq == START_SEQ,
        counts.len() == inputs.len(),
        forall|i: int|
            0 <= i < inputs.len() ==> (#[trigger] inputs[i]).seq == Some(
                seq_after(START_SEQ, counts[i]),
            ),
        forall|i: int, j: int| 0 <= i <= j < counts.len() ==> counts[i] <= counts[j],
        forall|i: int| 0 <= i < counts.len() ==> #[trigger] counts[i] < SEQ_MODULUS,
    ensures
        start.after(inputs).last_drawn_seq == seq_after(START_SEQ, painted(inputs, counts)),
        inputs.len() > 0 ==> painted(inputs, counts) <= counts.last(),
        inputs.len() > 0 && !inputs.last().idle() ==> (start.last_plan(inputs) matches
            TickPlan::Active { redraw, .. } && redraw == (counts.last() > painted(
            inputs.drop_last(),
            counts,
        ))),
    decreases inputs.len(),
{
    let m = SEQ_MODULUS as int;
    if inputs.len() == 0 {
        vstd::arithmetic::div_mod::lemma_small_mod(0, m as nat);
    } else {
        let earlier = inputs.drop_last();
        let earlier_counts = counts.drop_last();
        assert forall|i: int| 0 <= i < earlier.len() implies (#[trigger] earlier[i]).seq == Some(
            seq_after(START_SEQ, earlier_counts[i]),
        ) by {
            assert(earlier[i] == inputs[i]);
        }
        law_paints_keep_up(start, earlier, earlier_counts);
        lemma_painted_ignores_later_counts(earlier, earlier_counts, counts);
        let before = painted(earlier, counts);
        let last = counts[inputs.len() - 1];
        assert(inputs[inputs.len() - 1].seq == Some(seq_after(START_SEQ, last)));
        if earlier.len() > 0 {
            assert(before <= counts[inputs.len() - 2]);
        }
        assert(before <= last);
        vstd::arithmetic::div_mod::lemma_small_mod(before, m as nat);
        vstd::arithmetic::div_mod::lemma_small_mod(last, m as nat);
    }
}

/// The frames painted in a run of ticks depend on the counts in that run only.
proof fn lemma_painted_ignores_later_counts(inputs: Seq<TickInput>, a: Seq<nat>, b: Seq<nat>)
    requires
        inputs.len() <= a.len(),
        inputs.len() <= b.len(),
        forall|i: int| 0 <= i < inputs.len() ==> a[i] == b[i],
    ensures
        painted(inputs, a) == painted(inputs, b),
    decreases inputs.len(),
{
    if inputs.len() > 0 {
        lemma_painted_ignores_later_counts(inputs.drop_last(), a, b);
    }
}

/// One frame in `log_every` is reported, and none if that is 0.
pub proof fn law_reports_every_nth(frames: nat, log_every: u32)
    ensures
        log_every == 0 ==> reports(frames, log_every) == 0,
        log_every > 0 ==> reports(frames, log_every) == frames as int / log_every as int,
    decreases frames,
{
    if frames > 0 {
        law_reports_every_nth((frames - 1) as nat, log_every);
        if log_every > 0 {
            let n = log_every as int;
            let f = frames as int;
            vstd::arithmetic::div_mod::lemma_fundamental_div_mod(f, n);
            vstd::arithmetic::div_mod::lemma_fundamental_div_mod(f - 1, n);
            let q = f / n;
            let r = f % n;
            if r == 0 {
                assert(f - 1 == (q - 1) * n + (n - 1)) by (nonlinear_arith)
                    requires
                        f == n * q + r,
                        r == 0,
                ;
                vstd::arithmetic::div_mod::lemma_fundamental_div_mod_converse(
                    f - 1,
                    n,
                    q - 1,
                    n - 1,
                );
            } else {
                assert(f - 1 == q * n + (r - 1)) by (nonlinear_arith)
                    requires
                        f == n * q + r,
                ;
                vstd::arithmetic::div_mod::lemma_fundamental_div_mod_converse(f - 1, n, q, r - 1);
            }
        }
    } else if log_every > 0 {
        vstd::arithmetic::div_mod::lemma_basic_div(0, log_every as int);
    }
}

/// The newest frame, where there is one, stands for itself, and the floor stands
/// for none.
pub proof fn law_newest_frame_stands_for_itself<F>(newest: F, floor: F)
    ensures
        current_peak(Some(newest), floor) == newest,
        current_peak(None, floor) == floor,
{
}

/// Reports are `log_every` frames apart: a frame is reported exactly if the one
/// `log_every` frames on is, and of that many frames in a row exactly one is.
pub proof fn law_reports_are_evenly_spaced(total: nat, log_every: u32)
    requires
        log_every > 0,
    ensures
        report_due(total as int, log_every) == report_due(total + log_every, log_every),
        reports(total + log_every as nat, log_every) == reports(total, log_every) + 1,
        report_due(log_every as int, log_every),
        0 < total < log_every ==> !report_due(total as int, log_every),
        !report_due(total as int, 0),
{
    let n = log_every as int;
    let t = total as int;
    law_reports_every_nth(total, log_every);
    law_reports_every_nth(total + log_every as nat, log_every);
    vstd::arithmetic::div_mod::lemma_fundamental_div_mod(t, n);
    let q = t / n;
    let r = t % n;
    assert(t + n == (q + 1) * n + r) by (nonlinear_arith)
        requires
            t == n * q + r,
    ;
    vstd::arithmetic::div_mod::lemma_fundamental_div_mod_converse(t + n, n, q + 1, r);
    vstd::arithmetic::div_mod::lemma_mod_self_0(n);
    if 0 < total < log_every {
        vstd::arithmetic::div_mod::lemma_small_mod(total, log_every as nat);
    }
}

/// The next number is one more, and the numbers come round after the last.
pub proof fn law_next_number_is_one_more(seq: u64)
    ensures
        seq < u64::MAX ==> seq_after(seq, 1) == seq + 1,
        seq_after(u64::MAX, 1) == 0,
{
    let m = SEQ_MODULUS as int;
    if seq < u64::MAX {
        vstd::arithmetic::div_mod::lemma_small_mod((seq + 1) as nat, m as nat);
    }
    vstd::arithmetic::div_mod::lemma_mod_self_0(m);
}

} // verus!
