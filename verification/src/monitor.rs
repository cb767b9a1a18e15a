//! Which monitor the fractional placement goes by, and its height.
//!
//! The toolkit counts in application pixels, and so do the surface's margins. A
//! monitor with scale factor `n` has `n` physical pixels to each of them.

use vstd::prelude::*;

verus! {

/// The height, in application pixels, that is assumed if no monitor can be
/// asked.
pub const FALLBACK_HEIGHT_PX: i32 = 1080;

/// What the toolkit says of a monitor.
#[derive(Clone, Copy, PartialEq, Eq, Structural, Debug)]
pub struct Monitor {
    /// Height in application pixels.
    pub height: i32,
    /// Physical pixels in an application pixel.
    pub scale: i32,
}

impl Monitor {
    /// The height in physical pixels.
    pub open spec fn physical_height(self) -> int {
        self.height * self.scale
    }
}

/// A monitor's entry that can be used: the monitor could be asked, and its
/// height is positive.
pub open spec fn usable(monitor: Option<Monitor>) -> bool {
    monitor matches Some(m) && m.height > 0 && m.scale > 0
}

/// The focused monitor is known, and its entry in `monitors` can be used.
pub open spec fn focus_usable(monitors: Seq<Option<Monitor>>, focused: Option<usize>) -> bool {
    focused matches Some(f) && f < monitors.len() && usable(monitors[f as int])
}

/// `index` is the first entry of `monitors` that can be used.
pub open spec fn first_usable(monitors: Seq<Option<Monitor>>, index: int) -> bool {
    &&& 0 <= index < monitors.len()
    &&& usable(monitors[index])
    &&& forall|i: int| 0 <= i < index ==> !usable(#[trigger] monitors[i])
}

/// `index` is the monitor to go by: the focused one, which the user is most
/// likely looking at, or the first one that can be used if the focused one
/// cannot.
pub open spec fn picked(
    monitors: Seq<Option<Monitor>>,
    focused: Option<usize>,
    index: int,
) -> bool {
    if focus_usable(monitors, focused) {
        index == focused->0
    } else {
        first_usable(monitors, index)
    }
}

/// The monitor at `index`, if it can be used.
fn usable_at(monitors: &[Option<Monitor>], index: usize) -> (monitor: Option<Monitor>)
    ensures
        monitor is Some <==> index < monitors@.len() && usable(monitors@[index as int]),
        monitor is Some ==> monitor == monitors@[index as int],
        monitor is Some <==> index < monitors@.len() && (monitors@[index as int] matches Some(m)
            && m.height > 0 && m.scale > 0),
{
    if index < monitors.len() {
        if let Some(monitor) = monitors[index] {
            if monitor.height > 0 && monitor.scale > 0 {
                return Some(monitor);
            }
        }
    }
    None
}

/// The monitor to go by: the focused one, or the first one with a positive
/// height if the focused one is not known or has none.
///
/// `monitors` holds the monitors in the compositor's order, `None` for one that
/// could not be asked; `focused` is the index of the focused one in it, `None`
/// if that is not known.
pub fn pick_monitor(monitors: &[Option<Monitor>], focused: Option<usize>) -> (monitor: Option<
    Monitor,
>)
    ensures
        monitor is Some <==> exists|i: int|
            0 <= i < monitors@.len() && usable(#[trigger] monitors@[i]),
        monitor is Some ==> usable(monitor) && exists|i: int| #[trigger]
            picked(monitors@, focused, i) && monitor == monitors@[i],
        forall|i: int| #[trigger] picked(monitors@, focused, i) ==> monitor == monitors@[i],
        monitor matches Some(m) ==> m.height > 0 && m.scale > 0,
        monitor is None ==> (forall|i: int|
            #![trigger monitors@[i]]
            0 <= i < monitors@.len() ==> !(monitors@[i] matches Some(m) && m.height > 0 && m.scale
                > 0)),
        forall|i: int|
            #![trigger monitors@[i]]
            0 <= i < monitors@.len() && !(focused matches Some(f) && f < monitors@.len()
                && (monitors@[f as int] matches Some(m) && m.height > 0 && m.scale > 0))
                && (monitors@[i] matches Some(m) && m.height
                > 0 && m.scale > 0) && (forall|j: int|
                #![trigger monitors@[j]]
                0 <= j < i ==> !(monitors@[j] matches Some(m) && m.height > 0 && m.scale > 0))
                ==> monitor == monitors@[i],
        forall|f: usize|
            #![trigger monitors@[f as int]]
            focused == Some(f) && f < monitors@.len() && (monitors@[f as int] matches Some(m)
                && m.height > 0 && m.scale > 0) ==> monitor == monitors@[f as int],
{
    if let Some(index) = focused {
        let monitor = usable_at(monitors, index);
        if monitor.is_some() {
            assert(picked(monitors@, focused, index as int));
            return monitor;
        }
    }
    let mut index: usize = 0;
    while index < monitors.len()
        invariant
            index <= monitors.len(),
            !focus_usable(monitors@, focused),
            forall|i: int| 0 <= i < index ==> !usable(#[trigger] monitors@[i]),
        decreases monitors.len() - index,
    {
        let monitor = usable_at(monitors, index);
        if monitor.is_some() {
            assert(picked(monitors@, focused, index as int));
            assert forall|i: int| #[trigger] first_usable(monitors@, i) implies i == index by {
                if index < i {
                    assert(!usable(monitors@[index as int]));
                }
            }
            return monitor;
        }
        index = index + 1;
    }
    None
}

/// The height, in physical pixels, of the focused monitor, or of the first one
/// with a positive height if the focused one is not known or has none. The
/// parameters are those of [`pick_monitor`].
pub fn focused_monitor_height_px(monitors: &[Option<Monitor>], focused: Option<usize>) -> (height:
    Option<i64>)
    ensures
        height is Some <==> exists|i: int|
            0 <= i < monitors@.len() && usable(#[trigger] monitors@[i]),
        height matches Some(h) ==> h > 0 && exists|i: int| #[trigger]
            picked(monitors@, focused, i) && h == monitors@[i]->0.physical_height(),
        forall|i: int| #[trigger]
            picked(monitors@, focused, i) ==> (height matches Some(h) && h
                == monitors@[i]->0.physical_height()),
        focus_usable(monitors@, focused) ==> (height matches Some(h) && h
            == monitors@[focused->0 as int]->0.physical_height()),
        !focus_usable(monitors@, focused) ==> (forall|i: int| #[trigger]
            first_usable(monitors@, i) ==> (height matches Some(h) && h
                == monitors@[i]->0.physical_height())),
        forall|i: int|
            #![trigger monitors@[i]]
            0 <= i < monitors@.len() && !(focused matches Some(f) && f < monitors@.len()
                && (monitors@[f as int] matches Some(m) && m.height > 0 && m.scale > 0))
                && (monitors@[i] matches Some(m) && m.height
                > 0 && m.scale > 0) && (forall|j: int|
                #![trigger monitors@[j]]
                0 <= j < i ==> !(monitors@[j] matches Some(m) && m.height > 0 && m.scale > 0))
                ==> (height matches Some(h) && h == monitors@[i]->0.height * monitors@[i]->0.scale),
        forall|f: usize|
            #![trigger monitors@[f as int]]
            focused == Some(f) && f < monitors@.len() && (monitors@[f as int] matches Some(m)
                && m.height > 0 && m.scale > 0) ==> (height matches Some(h) && h == monitors@[f as int]->0.height * monitors@[f as int]->0.scale),
{
    proof {
        if focus_usable(monitors@, focused) {
            assert(picked(monitors@, focused, focused->0 as int));
        } else {
            assert forall|i: int| #[trigger] first_usable(monitors@, i) implies picked(
                monitors@,
                focused,
                i,
            ) by {}
        }
    }
    match pick_monitor(monitors, focused) {
        Some(monitor) => {
            assert(0 < monitor.height * monitor.scale <= 0x7fff_ffff * 0x7fff_ffff)
                by (nonlinear_arith)
                requires
                    0 < monitor.height <= 0x7fff_ffff,
                    0 < monitor.scale <= 0x7fff_ffff,
            ;
            Some(monitor.height as i64 * monitor.scale as i64)
        },
        None => None,
    }
}

/// The height that the fractional placement goes by, in application pixels, the
/// unit of the margin that comes of it: that of the focused monitor, else of the
/// first one that can be used, else an assumed one.
pub fn placement_height_px(monitors: &[Option<Monitor>], focused: Option<usize>) -> (height: i32)
    ensures
        height > 0,
        forall|i: int| #[trigger]
            picked(monitors@, focused, i) ==> height == monitors@[i]->0.height,
        focus_usable(monitors@, focused) ==> height == monitors@[focused->0 as int]->0.height,
        !focus_usable(monitors@, focused) ==> (forall|i: int| #[trigger]
            first_usable(monitors@, i) ==> height == monitors@[i]->0.height),
        (forall|i: int| 0 <= i < monitors@.len() ==> !usable(#[trigger] monitors@[i])) ==> height
            == FALLBACK_HEIGHT_PX,
        forall|i: int|
            #![trigger monitors@[i]]
            0 <= i < monitors@.len() && !(focused matches Some(f) && f < monitors@.len()
                && (monitors@[f as int] matches Some(m) && m.height > 0 && m.scale > 0))
                && (monitors@[i] matches Some(m) && m.height
                > 0 && m.scale > 0) && (forall|j: int|
                #![trigger monitors@[j]]
                0 <= j < i ==> !(monitors@[j] matches Some(m) && m.height > 0 && m.scale > 0))
                ==> height == monitors@[i]->0.height,
        forall|f: usize|
            #![trigger monitors@[f as int]]
            focused == Some(f) && f < monitors@.len() && (monitors@[f as int] matches Some(m)
                && m.height > 0 && m.scale > 0) ==> height == monitors@[f as int]->0.height,
{
    proof {
        if focus_usable(monitors@, focused) {
            assert(picked(monitors@, focused, focused->0 as int));
        } else {
            assert forall|i: int| #[trigger] first_usable(monitors@, i) implies picked(
                monitors@,
                focused,
                i,
            ) by {}
        }
    }
    match pick_monitor(monitors, focused) {
        Some(monitor) => monitor.height,
        None => FALLBACK_HEIGHT_PX,
    }
}

/// The focused monitor comes first, wherever it is listed and whatever the
/// others are.
pub proof fn law_focused_monitor_comes_first(
    monitors: Seq<Option<Monitor>>,
    focused: usize,
    index: int,
)
    requires
        focused < monitors.len(),
        usable(monitors[focused as int]),
    ensures
        picked(monitors, Some(focused), index) <==> index == focused,
{
}

/// A focused monitor that cannot be used is as good as an unknown one.
pub proof fn law_unusable_focus_is_ignored(
    monitors: Seq<Option<Monitor>>,
    focused: usize,
    index: int,
)
    requires
        focused < monitors.len() ==> !usable(monitors[focused as int]),
    ensures
        picked(monitors, Some(focused), index) <==> picked(monitors, None, index),
{
}

/// Exactly one monitor is picked if one can be used, and none otherwise.
pub proof fn law_one_monitor_is_picked(monitors: Seq<Option<Monitor>>, focused: Option<usize>)
    ensures
        (exists|i: int| 0 <= i < monitors.len() && usable(#[trigger] monitors[i])) <==> (exists|
            i: int,
        | #[trigger] picked(monitors, focused, i)),
        forall|i: int, j: int| #[trigger]
            picked(monitors, focused, i) && #[trigger] picked(monitors, focused, j) ==> i == j,
{
    if exists|i: int| 0 <= i < monitors.len() && usable(#[trigger] monitors[i]) {
        let witness = choose|i: int| 0 <= i < monitors.len() && usable(#[trigger] monitors[i]);
        if focus_usable(monitors, focused) {
            assert(picked(monitors, focused, focused->0 as int));
        } else {
            let first = lemma_first_usable_exists(monitors, witness);
            assert(picked(monitors, focused, first));
        }
    }
    assert forall|i: int, j: int| #[trigger]
        picked(monitors, focused, i) && #[trigger] picked(monitors, focused, j) implies i == j by {
        if !focus_usable(monitors, focused) {
            assert(usable(monitors[i]) && usable(monitors[j]));
        }
    }
}

/// Where one entry can be used, there is a first one.
proof fn lemma_first_usable_exists(monitors: Seq<Option<Monitor>>, witness: int) -> (first: int)
    requires
        0 <= witness < monitors.len(),
        usable(monitors[witness]),
    ensures
        first_usable(monitors, first),
    decreases witness,
{
    if exists|i: int| 0 <= i < witness && usable(#[trigger] monitors[i]) {
        let earlier = choose|i: int| 0 <= i < witness && usable(#[trigger] monitors[i]);
        lemma_first_usable_exists(monitors, earlier)
    } else {
        witness
    }
}

/// Where entry `index` stands once one more has been put in at `at`.
pub open spec fn shifted(index: int, at: int) -> int {
    if index < at {
        index
    } else {
        index + 1
    }
}

/// A monitor that cannot be used does not matter, wherever it stands: with one
/// more of them the same monitor is picked, the focus being the same monitor.
pub proof fn law_unusable_monitors_are_skipped(
    before: Seq<Option<Monitor>>,
    skipped: Option<Monitor>,
    after: Seq<Option<Monitor>>,
    focused: Option<usize>,
    refocused: Option<usize>,
    index: int,
)
    requires
        !usable(skipped),
        focused is Some == refocused is Some,
        focused matches Some(f) ==> refocused->0 == shifted(f as int, before.len() as int),
    ensures
        picked(before + after, focused, index) <==> picked(
            before.push(skipped) + after,
            refocused,
            shifted(index, before.len() as int),
        ),
{
    let at = before.len() as int;
    let short = before + after;
    let long = before.push(skipped) + after;
    assert forall|i: int| 0 <= i < short.len() implies short[i] == #[trigger] long[shifted(
        i,
        at,
    )] by {}
    assert(long[at] == skipped);
    if focused is Some && focused->0 < short.len() {
        assert(short[focused->0 as int] == long[shifted(focused->0 as int, at)]);
    }
    let moved = shifted(index, at);
    if 0 <= index < short.len() {
        assert(short[index] == long[moved]);
    }
    if first_usable(short, index) {
        assert forall|i: int| 0 <= i < moved implies !usable(#[trigger] long[i]) by {
            if i < at {
                assert(long[shifted(i, at)] == short[i]);
            } else if i > at {
                assert(long[shifted(i - 1, at)] == short[i - 1]);
            }
        }
    }
    if first_usable(long, moved) {
        assert forall|i: int| 0 <= i < index implies !usable(#[trigger] short[i]) by {
            assert(short[i] == long[shifted(i, at)]);
        }
    }
}

/// Without a focus on a monitor with a positive height and scale, the first such
/// monitor is gone by, whatever the height is: the entry before which every other
/// one is absent or has a height or scale that is not positive. No other one is.
pub proof fn law_first_positive_height_is_gone_by(
    monitors: Seq<Option<Monitor>>,
    focused: Option<usize>,
    index: int,
    other: int,
)
    requires
        focused matches Some(f) ==> f >= monitors.len() || monitors[f as int] is None
            || monitors[f as int]->0.height <= 0 || monitors[f as int]->0.scale <= 0,
        0 <= index < monitors.len(),
        monitors[index] is Some,
        monitors[index]->0.height > 0,
        monitors[index]->0.scale > 0,
        forall|j: int|
            0 <= j < index ==> (#[trigger] monitors[j]) is None || monitors[j]->0.height <= 0
                || monitors[j]->0.scale <= 0,
    ensures
        picked(monitors, focused, other) <==> other == index,
{
    if picked(monitors, focused, other) && other > index {
        assert(!usable(monitors[index]));
    }
}

/// With the focus on a monitor with a positive height and scale, that one is gone
/// by, whatever the height is and whatever the others are.
pub proof fn law_positive_focus_is_gone_by(
    monitors: Seq<Option<Monitor>>,
    focused: usize,
    other: int,
)
    requires
        focused < monitors.len(),
        monitors[focused as int] is Some,
        monitors[focused as int]->0.height > 0,
        monitors[focused as int]->0.scale > 0,
    ensures
        picked(monitors, Some(focused), other) <==> other == focused,
{
}

/// A monitor that is gone by is listed, could be asked, and has a positive height
/// and scale. Its physical height is the product of the two, so it is no less
/// than its height in application pixels.
pub proof fn law_monitor_gone_by_has_a_height(
    monitors: Seq<Option<Monitor>>,
    focused: Option<usize>,
    index: int,
)
    requires
        picked(monitors, focused, index),
    ensures
        0 <= index < monitors.len(),
        monitors[index] matches Some(m) && m.height > 0 && m.scale > 0,
        monitors[index]->0.physical_height() == monitors[index]->0.height
            * monitors[index]->0.scale,
        monitors[index]->0.physical_height() >= monitors[index]->0.height,
{
    let m = monitors[index]->0;
    assert(m.height * m.scale >= m.height) by (nonlinear_arith)
        requires
            m.height > 0,
            m.scale >= 1,
    ;
}

} // verus!
