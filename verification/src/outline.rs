//! The outline of a rounded rectangle: a quarter circle round each corner, each
//! joined to the next by a straight side.
//!
//! Angles are counted in quarter turns from the direction of growing `x` toward
//! that of growing `y`, which is downward.

use vstd::prelude::*;

verus! {

/// The quarter circle round one corner.
#[derive(Clone, Copy, PartialEq, Eq, Structural, Debug)]
pub struct CornerArc {
    /// The corner is on the right side, else on the left.
    pub right: bool,
    /// The corner is on the bottom side, else on the top.
    pub bottom: bool,
    /// Where the arc starts, in quarter turns.
    pub from: i32,
    /// Where the arc ends, in quarter turns.
    pub to: i32,
}

/// The horizontal part of the direction `quarters` quarter turns round.
pub open spec fn direction_x(quarters: int) -> int {
    if quarters % 4 == 0 {
        1
    } else if quarters % 4 == 2 {
        -1
    } else {
        0
    }
}

/// The vertical part of the direction `quarters` quarter turns round.
pub open spec fn direction_y(quarters: int) -> int {
    direction_x(quarters - 1)
}

/// The four arcs: from the top right corner, clockwise.
pub open spec fn corners() -> Seq<CornerArc> {
    seq![
        CornerArc { right: true, bottom: false, from: -1i32, to: 0 },
        CornerArc { right: true, bottom: true, from: 0, to: 1 },
        CornerArc { right: false, bottom: true, from: 1, to: 2 },
        CornerArc { right: false, bottom: false, from: 2, to: 3 },
    ]
}

/// The arcs of the outline, in the order in which they are drawn.
pub fn corner_arcs() -> (arcs: [CornerArc; 4])
    ensures
        arcs@ == corners(),
{
    [
        CornerArc { right: true, bottom: false, from: -1, to: 0 },
        CornerArc { right: true, bottom: true, from: 0, to: 1 },
        CornerArc { right: false, bottom: true, from: 1, to: 2 },
        CornerArc { right: false, bottom: false, from: 2, to: 3 },
    ]
}

/// Every arc is one quarter turn long and bulges toward its own corner: the
/// directions of its two ends point to the two sides that meet there.
pub proof fn law_arcs_round_their_corners(index: int)
    requires
        0 <= index < 4,
    ensures
        ({
            let arc = corners()[index];
            &&& arc.to == arc.from + 1
            &&& direction_x(arc.from as int) + direction_x(arc.to as int) == (if arc.right {
                1int
            } else {
                -1
            })
            &&& direction_y(arc.from as int) + direction_y(arc.to as int) == (if arc.bottom {
                1int
            } else {
                -1
            })
        }),
{
}

/// The outline is closed and smooth: every arc ends in the direction in which
/// the next one starts, the last one and the first included, and the side
/// between them is straight, at right angles to that direction.
pub proof fn law_outline_is_closed(index: int)
    requires
        0 <= index < 4,
    ensures
        ({
            let arc = corners()[index];
            let next = corners()[(index + 1) % 4];
            &&& direction_x(arc.to as int) == direction_x(next.from as int)
            &&& direction_y(arc.to as int) == direction_y(next.from as int)
            &&& (arc.right != next.right) == (direction_x(arc.to as int) == 0)
            &&& (arc.bottom != next.bottom) == (direction_y(arc.to as int) == 0)
        }),
{
}

} // verus!
