//! Where the surface is anchored on the screen, with which margins and size.

use vstd::prelude::*;

verus! {

/// Where on the screen the overlay stands.
#[derive(Clone, Copy, PartialEq, Eq, Structural, Debug)]
pub enum OsdPosition {
    BottomLeft,
    BottomCenter,
    BottomRight,
    TopLeft,
    TopCenter,
    TopRight,
}

/// An edge of the screen.
#[derive(Clone, Copy, PartialEq, Eq, Structural, Debug)]
pub enum Edge {
    Top,
    Bottom,
    Left,
    Right,
}

/// One value for each edge of the screen.
#[derive(PartialEq, Eq, Debug)]
pub struct PerEdge<T> {
    pub top: T,
    pub bottom: T,
    pub left: T,
    pub right: T,
}

/// How the surface is tied to the screen.
#[derive(PartialEq, Eq, Debug)]
pub struct Placement {
    /// Whether the surface is anchored to the edge.
    pub anchors: PerEdge<bool>,
    /// The margin to set from the edge, in pixels; `None` where none is set.
    pub margins: PerEdge<Option<i32>>,
}

impl<T> PerEdge<T> {
    /// The value for `edge`.
    pub open spec fn at(self, edge: Edge) -> T {
        match edge {
            Edge::Top => self.top,
            Edge::Bottom => self.bottom,
            Edge::Left => self.left,
            Edge::Right => self.right,
        }
    }
}

impl OsdPosition {
    /// The two centered positions.
    pub open spec fn centered(self) -> bool {
        self is BottomCenter || self is TopCenter
    }

    /// The edges that the surface is anchored to. A centered surface hangs from
    /// the top edge alone, and the compositor centers it; one in a corner is
    /// tied to the two edges that meet there.
    pub open spec fn touches(self, edge: Edge) -> bool {
        match edge {
            Edge::Top => self.centered() || self is TopLeft || self is TopRight,
            Edge::Bottom => self is BottomLeft || self is BottomRight,
            Edge::Left => self is BottomLeft || self is TopLeft,
            Edge::Right => self is BottomRight || self is TopRight,
        }
    }

    /// Whether this is one of the two centered positions.
    pub fn is_centered(&self) -> (centered: bool)
        ensures
            centered == self.centered(),
            centered == (self is BottomCenter || self is TopCenter),
    {
        match self {
            OsdPosition::BottomCenter | OsdPosition::TopCenter => true,
            _ => false,
        }
    }
}

/// `pixels` as the signed number that the toolkit takes: counts from 2^31 on
/// come out negative, 2^32 less.
pub open spec fn signed_px(pixels: u32) -> int {
    if pixels < 0x8000_0000 {
        pixels as int
    } else {
        pixels - 0x1_0000_0000
    }
}

/// Converts a count of pixels to the signed number that the toolkit takes.
pub fn to_signed_px(pixels: u32) -> (signed: i32)
    ensures
        signed == signed_px(pixels),
        (signed - pixels) % 0x1_0000_0000 == 0,
{
    if pixels < 0x8000_0000 {
        pixels as i32
    } else {
        (pixels as i64 - 0x1_0000_0000) as i32
    }
}

/// The margin to set from `edge`: none where the surface is not anchored, the
/// drop `top_px` if it is centered, else `margin_px`.
pub open spec fn margin_at(
    position: OsdPosition,
    margin_px: u32,
    top_px: i32,
    edge: Edge,
) -> Option<i32> {
    if !position.touches(edge) {
        None
    } else if position.centered() {
        Some(top_px)
    } else {
        Some(signed_px(margin_px) as i32)
    }
}

/// Ties the surface to the screen. `top_px` is the distance from the top edge
/// in the centered positions, `margin_px` that from both edges in a corner.
pub fn place(position: OsdPosition, margin_px: u32, top_px: i32) -> (placement: Placement)
    ensures
        forall|edge: Edge| #[trigger]
            placement.anchors.at(edge) == position.touches(edge),
        forall|edge: Edge| #[trigger]
            placement.margins.at(edge) == margin_at(position, margin_px, top_px, edge),
        placement.anchors.top == (position !is BottomLeft && position !is BottomRight),
        placement.anchors.bottom == (position is BottomLeft || position is BottomRight),
        placement.anchors.left == (position is BottomLeft || position is TopLeft),
        placement.anchors.right == (position is BottomRight || position is TopRight),
        placement.margins.top is Some == placement.anchors.top,
        placement.margins.bottom is Some == placement.anchors.bottom,
        placement.margins.left is Some == placement.anchors.left,
        placement.margins.right is Some == placement.anchors.right,
        position is TopCenter || position is BottomCenter ==> placement.margins.top == Some(top_px),
        position is TopLeft || position is TopRight ==> (placement.margins.top->0 - margin_px) % (
        0x1_0000_0000) == 0,
        position is BottomLeft || position is BottomRight ==> (placement.margins.bottom->0
            - margin_px) % 0x1_0000_0000 == 0,
        position is BottomLeft || position is TopLeft ==> (placement.margins.left->0 - margin_px)
            % 0x1_0000_0000 == 0,
        position is BottomRight || position is TopRight ==> (placement.margins.right->0
            - margin_px) % 0x1_0000_0000 == 0,
{
    if position.is_centered() {
        let placement = Placement {
            anchors: PerEdge { top: true, bottom: false, left: false, right: false },
            margins: PerEdge { top: Some(top_px), bottom: None, left: None, right: None },
        };
        return placement;
    }
    let (top, bottom, left, right) = match position {
        OsdPosition::BottomLeft => (false, true, true, false),
        OsdPosition::BottomRight => (false, true, false, true),
        OsdPosition::TopLeft => (true, false, true, false),
        // The centered positions are handled above: this is the top right corner.
        _ => (true, false, false, true),
    };
    let margin: i32 = to_signed_px(margin_px);
    Placement {
        anchors: PerEdge { top, bottom, left, right },
        margins: PerEdge {
            top: if top {
                Some(margin)
            } else {
                None
            },
            bottom: if bottom {
                Some(margin)
            } else {
                None
            },
            left: if left {
                Some(margin)
            } else {
                None
            },
            right: if right {
                Some(margin)
            } else {
                None
            },
        },
    }
}

/// A centered surface is anchored to the top edge and to no other, whichever of
/// the two centered positions was asked for.
pub proof fn law_centered_hangs_from_top(position: OsdPosition, edge: Edge)
    requires
        position.centered(),
    ensures
        position.touches(edge) == (edge is Top),
{
}

/// The two centered positions place the surface alike.
pub proof fn law_centered_positions_agree(margin_px: u32, top_px: i32, edge: Edge)
    ensures
        OsdPosition::TopCenter.touches(edge) == OsdPosition::BottomCenter.touches(edge),
        margin_at(OsdPosition::TopCenter, margin_px, top_px, edge) == margin_at(
            OsdPosition::BottomCenter,
            margin_px,
            top_px,
            edge,
        ),
{
}

/// In a corner the surface is anchored to one of two opposite edges, never to
/// both, in either direction.
pub proof fn law_corner_has_two_edges(position: OsdPosition)
    requires
        !position.centered(),
    ensures
        position.touches(Edge::Top) != position.touches(Edge::Bottom),
        position.touches(Edge::Left) != position.touches(Edge::Right),
{
}

/// The anchors tell the corners apart.
pub proof fn law_corners_differ(a: OsdPosition, b: OsdPosition)
    requires
        !a.centered(),
        !b.centered(),
        forall|edge: Edge| #[trigger] a.touches(edge) == b.touches(edge),
    ensures
        a == b,
{
    assert(a.touches(Edge::Top) == b.touches(Edge::Top));
    assert(a.touches(Edge::Left) == b.touches(Edge::Left));
}

/// A margin is set from every edge that the surface is anchored to, and from no
/// other. In a corner it is the same on both edges and does not depend on the
/// fractional drop; in a centered position it does not depend on the pixel
/// margin.
pub proof fn law_margins_follow_anchors(
    position: OsdPosition,
    margin_px: u32,
    top_px: i32,
    edge: Edge,
)
    ensures
        margin_at(position, margin_px, top_px, edge) is Some == position.touches(edge),
        forall|other_px: i32|
            !position.centered() ==> #[trigger] margin_at(position, margin_px, other_px, edge)
                == margin_at(position, margin_px, top_px, edge),
        forall|other_px: u32|
            position.centered() ==> #[trigger] margin_at(position, other_px, top_px, edge)
                == margin_at(position, margin_px, top_px, edge),
        forall|other: Edge|
            position.touches(edge) && position.touches(other) ==> #[trigger] margin_at(
                position,
                margin_px,
                top_px,
                other,
            ) == margin_at(position, margin_px, top_px, edge),
{
}

/// `placement` ties the surface to the screen as `place` does.
pub open spec fn placed(
    placement: Placement,
    position: OsdPosition,
    margin_px: u32,
    top_px: i32,
) -> bool {
    &&& forall|edge: Edge| #[trigger] placement.anchors.at(edge) == position.touches(edge)
    &&& forall|edge: Edge| #[trigger]
        placement.margins.at(edge) == margin_at(position, margin_px, top_px, edge)
}

/// In a corner the surface keeps the given margin from both edges that meet
/// there: for every margin below 2^31 it is set unchanged. No margin is set from
/// the other two edges.
pub proof fn law_corner_keeps_the_given_margin(
    placement: Placement,
    position: OsdPosition,
    margin_px: u32,
    top_px: i32,
)
    requires
        placed(placement, position, margin_px, top_px),
        position !is TopCenter,
        position !is BottomCenter,
    ensures
        position is TopLeft || position is TopRight ==> placement.anchors.top
            && !placement.anchors.bottom && placement.margins.top is Some
            && placement.margins.bottom is None,
        position is BottomLeft || position is BottomRight ==> placement.anchors.bottom
            && !placement.anchors.top && placement.margins.bottom is Some
            && placement.margins.top is None,
        position is TopLeft || position is BottomLeft ==> placement.anchors.left
            && !placement.anchors.right && placement.margins.left is Some
            && placement.margins.right is None,
        position is TopRight || position is BottomRight ==> placement.anchors.right
            && !placement.anchors.left && placement.margins.right is Some
            && placement.margins.left is None,
        margin_px < 0x8000_0000 ==> {
            &&& placement.margins.top matches Some(margin) ==> margin == margin_px
            &&& placement.margins.bottom matches Some(margin) ==> margin == margin_px
            &&& placement.margins.left matches Some(margin) ==> margin == margin_px
            &&& placement.margins.right matches Some(margin) ==> margin == margin_px
        },
{
    assert(placement.anchors.at(Edge::Top) == position.touches(Edge::Top));
    assert(placement.anchors.at(Edge::Bottom) == position.touches(Edge::Bottom));
    assert(placement.anchors.at(Edge::Left) == position.touches(Edge::Left));
    assert(placement.anchors.at(Edge::Right) == position.touches(Edge::Right));
    assert(placement.margins.at(Edge::Top) == margin_at(position, margin_px, top_px, Edge::Top));
    assert(placement.margins.at(Edge::Bottom) == margin_at(
        position,
        margin_px,
        top_px,
        Edge::Bottom,
    ));
    assert(placement.margins.at(Edge::Left) == margin_at(position, margin_px, top_px, Edge::Left));
    assert(placement.margins.at(Edge::Right) == margin_at(
        position,
        margin_px,
        top_px,
        Edge::Right,
    ));
}

/// A centered surface hangs exactly the given drop below the top edge, for every
/// drop, and is tied to no other edge.
pub proof fn law_centered_hangs_by_the_given_drop(
    placement: Placement,
    position: OsdPosition,
    margin_px: u32,
    top_px: i32,
)
    requires
        placed(placement, position, margin_px, top_px),
        position is TopCenter || position is BottomCenter,
    ensures
        placement.anchors.top,
        !placement.anchors.bottom,
        !placement.anchors.left,
        !placement.anchors.right,
        placement.margins.top == Some(top_px),
        placement.margins.bottom is None,
        placement.margins.left is None,
        placement.margins.right is None,
{
    assert(placement.anchors.at(Edge::Top) == position.touches(Edge::Top));
    assert(placement.anchors.at(Edge::Bottom) == position.touches(Edge::Bottom));
    assert(placement.anchors.at(Edge::Left) == position.touches(Edge::Left));
    assert(placement.anchors.at(Edge::Right) == position.touches(Edge::Right));
    assert(placement.margins.at(Edge::Top) == margin_at(position, margin_px, top_px, Edge::Top));
    assert(placement.margins.at(Edge::Bottom) == margin_at(
        position,
        margin_px,
        top_px,
        Edge::Bottom,
    ));
    assert(placement.margins.at(Edge::Left) == margin_at(position, margin_px, top_px, Edge::Left));
    assert(placement.margins.at(Edge::Right) == margin_at(
        position,
        margin_px,
        top_px,
        Edge::Right,
    ));
}

/// The signed number that stands for a count of pixels is in the range of a
/// signed 32-bit number and differs from the count by a multiple of 2^32; a count
/// in that range stands for itself, and different counts stay different.
pub proof fn law_signed_px_keeps_the_count(a: u32, b: u32)
    ensures
        -0x8000_0000 <= signed_px(a) < 0x8000_0000,
        (signed_px(a) - a) % 0x1_0000_0000 == 0,
        a < 0x8000_0000 ==> signed_px(a) == a,
        signed_px(a) == signed_px(b) ==> a == b,
{
}

} // verus!
