//! The shape of the pill and where its columns stand.
//!
//! Lengths are whole numbers of units, [`UNITS_PER_PX`] to the pixel. The unit
//! is small enough for every length here to be exact.

use vstd::prelude::*;

verus! {

/// Number of rounded columns in the pill.
pub const PILL_BAR_COUNT: usize = 19;

/// How many of the newest frames the columns show.
pub const PILL_RECENT_FRAMES: usize = 44;

/// Units in one pixel.
pub const UNITS_PER_PX: i64 = 3600;

/// The larger of two lengths.
pub open spec fn larger(a: int, b: int) -> int {
    if a > b {
        a
    } else {
        b
    }
}

/// The smaller of two lengths.
pub open spec fn smaller(a: int, b: int) -> int {
    if a < b {
        a
    } else {
        b
    }
}

/// `value`, moved into the range from `low` to `high`.
pub open spec fn clamped(value: int, low: int, high: int) -> int {
    if value < low {
        low
    } else if value > high {
        high
    } else {
        value
    }
}

/// The shape of the pill, in units. The origin is the top left corner of the
/// surface; `y` grows downward.
#[derive(Clone, Copy, PartialEq, Eq, Structural, Debug)]
pub struct PillLayout {
    /// Left edge of the pill.
    pub pill_x: i64,
    /// Top edge of the pill.
    pub pill_y: i64,
    pub pill_w: i64,
    pub pill_h: i64,
    /// Radius of the pill's ends: half of its shorter side.
    pub radius: i64,
    /// Top edge of the shadow, which has the pill's shape.
    pub shadow_y: i64,
    /// Left edge of the room for the columns.
    pub bars_x: i64,
    /// Width of the room for the columns.
    pub bars_w: i64,
    /// Width of one column.
    pub bar_w: i64,
    /// Space between two columns.
    pub gap: i64,
    /// Left edge of the first column.
    pub start_x: i64,
    /// Height at which every column is centered.
    pub center_y: i64,
    /// Height of a column at level zero.
    pub min_bar_h: i64,
    /// Height of a column at level one.
    pub max_bar_h: i64,
}

impl PillLayout {
    /// Space between an end of the pill and the room for the columns.
    pub open spec fn padding(self) -> int {
        self.bars_x - self.pill_x
    }

    /// Width of all nineteen columns and the eighteen spaces between them.
    pub open spec fn total_w(self) -> int {
        19 * self.bar_w + 18 * self.gap
    }

    /// Left edge of column `index`.
    pub open spec fn left(self, index: int) -> int {
        self.start_x + index * (self.bar_w + self.gap)
    }

    /// This is the shape of the pill on a surface of `width` by `height` pixels.
    pub open spec fn fits_surface(self, width: int, height: int) -> bool {
        let px = UNITS_PER_PX as int;
        // The pill stands two pixels from every edge of the surface.
        &&& self.pill_x == 2 * px
        &&& self.pill_y == 2 * px
        &&& self.pill_w == larger(width - 4, 1) * px
        &&& self.pill_h == larger(height - 4, 1) * px
        // Its corners are as round as its shorter side allows.
        &&& 2 * self.radius == smaller(self.pill_w as int, self.pill_h as int)
        &&& self.shadow_y == self.pill_y + px
        // The padding is 38 % of the height, 14 pixels at least.
        &&& 100 * self.padding() == larger(38 * self.pill_h, 1400 * px)
        &&& self.bars_w == larger(self.pill_w - 2 * self.padding(), px)
        // A column is 9.5 % of the height wide, 4 to 6 pixels.
        &&& 1000 * self.bar_w == clamped(95 * self.pill_h, 4000 * px, 6000 * px)
        // The columns fill the room, two pixels apart at least.
        &&& 18 * self.gap == larger(self.bars_w - 19 * self.bar_w, 36 * px)
        // They are centered in it.
        &&& 2 * self.start_x == 2 * self.bars_x + self.bars_w - self.total_w()
        &&& 2 * (self.center_y - self.pill_y) == self.pill_h
        // A column is 13 % (but no less than it is wide) to 68 % of the height.
        &&& 100 * self.min_bar_h == larger(13 * self.pill_h, 100 * self.bar_w)
        &&& 100 * self.max_bar_h == 68 * self.pill_h
    }

    /// Height of a column at `level`, in units.
    pub open spec fn bar_height(self, level: real) -> real {
        (self.min_bar_h as int) as real + ((self.max_bar_h - self.min_bar_h) as real) * level
    }

    /// The left edge of each column, from left to right.
    pub fn bar_lefts(&self) -> (lefts: Vec<i64>)
        requires
            exists|width: i32, height: i32|
                width > 0 && height > 0 && #[trigger] self.fits_surface(
                    width as int,
                    height as int,
                ),
        ensures
            lefts@.len() == PILL_BAR_COUNT,
            forall|i: int| 0 <= i < lefts@.len() ==> #[trigger] lefts@[i] == self.left(i),
            lefts@[0] == self.start_x,
            forall|i: int, j: int|
                0 <= i < lefts@.len() && 0 <= j < lefts@.len() && j == i + 1
                    ==> #[trigger] lefts@[j] - #[trigger] lefts@[i] == self.bar_w + self.gap,
    {
        let pitch: i64 = self.bar_w + self.gap;
        let mut lefts: Vec<i64> = Vec::new();
        let mut x: i64 = self.start_x;
        while lefts.len() < PILL_BAR_COUNT
            invariant
                lefts@.len() <= PILL_BAR_COUNT,
                pitch == self.bar_w + self.gap,
                0 <= pitch <= 0x1_0000_0000_0000,
                -0x1_0000_0000_0000 <= self.start_x <= 0x1_0000_0000_0000,
                x == self.left(lefts@.len() as int),
                forall|i: int| 0 <= i < lefts@.len() ==> #[trigger] lefts@[i] == self.left(i),
            decreases PILL_BAR_COUNT - lefts@.len(),
        {
            let ghost n = lefts@.len() as int;
            lefts.push(x);
            assert(n * pitch <= 19 * pitch) by (nonlinear_arith)
                requires
                    0 <= n <= 19,
                    0 <= pitch,
            ;
            assert(0 <= n * pitch) by (nonlinear_arith)
                requires
                    0 <= n,
                    0 <= pitch,
            ;
            assert((n + 1) * pitch == n * pitch + pitch) by (nonlinear_arith);
            x = x + pitch;
        }
        assert(0 * pitch == 0) by (nonlinear_arith);
        assert forall|i: int, j: int|
            0 <= i < lefts@.len() && 0 <= j < lefts@.len() && j == i + 1 implies #[trigger] lefts@[j]
            - #[trigger] lefts@[i] == self.bar_w + self.gap by {
            assert((i + 1) * pitch == i * pitch + pitch) by (nonlinear_arith);
        }
        lefts
    }
}

/// The shape of the pill on a surface of `width` by `height` pixels, or `None`
/// if there is nothing to paint on.
pub fn pill_layout(width: i32, height: i32) -> (layout: Option<PillLayout>)
    ensures
        layout is Some <==> width > 0 && height > 0,
        layout matches Some(l) ==> l.fits_surface(width as int, height as int),
{
    if width <= 0 || height <= 0 {
        return None;
    }
    let px_w: i64 = if width > 5 {
        width as i64 - 4
    } else {
        1
    };
    let px_h: i64 = if height > 5 {
        height as i64 - 4
    } else {
        1
    };
    let pill_x: i64 = 2 * UNITS_PER_PX;
    let pill_y: i64 = 2 * UNITS_PER_PX;
    let pill_w: i64 = px_w * UNITS_PER_PX;
    let pill_h: i64 = px_h * UNITS_PER_PX;
    let radius: i64 = if px_w < px_h {
        px_w * 1800
    } else {
        px_h * 1800
    };
    // 38 % of a pixel is 1368 units, 9.5 % are 342, 13 % are 468, 68 % are 2448.
    let padding: i64 = if px_h * 1368 > 14 * UNITS_PER_PX {
        px_h * 1368
    } else {
        14 * UNITS_PER_PX
    };
    let bars_x: i64 = pill_x + padding;
    let bars_w: i64 = if pill_w - 2 * padding > UNITS_PER_PX {
        pill_w - 2 * padding
    } else {
        UNITS_PER_PX
    };
    let share_w: i64 = px_h * 342;
    let bar_w: i64 = if share_w < 4 * UNITS_PER_PX {
        4 * UNITS_PER_PX
    } else if share_w > 6 * UNITS_PER_PX {
        6 * UNITS_PER_PX
    } else {
        share_w
    };
    let room: i64 = bars_w - 19 * bar_w;
    let gap: i64 = if room > 36 * UNITS_PER_PX {
        room / 18
    } else {
        2 * UNITS_PER_PX
    };
    let total_w: i64 = 19 * bar_w + 18 * gap;
    let slack: i64 = total_w - bars_w;
    let start_x: i64 = bars_x - slack / 2;
    let share_h: i64 = px_h * 468;
    let min_bar_h: i64 = if share_h > bar_w {
        share_h
    } else {
        bar_w
    };
    Some(
        PillLayout {
            pill_x,
            pill_y,
            pill_w,
            pill_h,
            radius,
            shadow_y: pill_y + UNITS_PER_PX,
            bars_x,
            bars_w,
            bar_w,
            gap,
            start_x,
            center_y: pill_y + px_h * 1800,
            min_bar_h,
            max_bar_h: px_h * 2448,
        },
    )
}

/// The size of the surface determines the shape.
pub proof fn law_layout_is_unique(a: PillLayout, b: PillLayout, width: int, height: int)
    requires
        a.fits_surface(width, height),
        b.fits_surface(width, height),
    ensures
        a == b,
{
}

/// Neighbouring columns stand the same distance apart, two pixels at least: no
/// two columns overlap.
pub proof fn law_columns_are_evenly_spaced(layout: PillLayout, width: int, height: int, index: int)
    requires
        layout.fits_surface(width, height),
    ensures
        layout.left(index + 1) == layout.left(index) + layout.bar_w + layout.gap,
        layout.gap >= 2 * UNITS_PER_PX,
        layout.bar_w >= 4 * UNITS_PER_PX,
{
    let pitch = layout.bar_w + layout.gap;
    assert((index + 1) * pitch == index * pitch + pitch) by (nonlinear_arith);
}

/// The row of columns is its own mirror image: column `index` from the left and
/// column `index` from the right stand equally far from the middle of the room,
/// which is the middle of the pill unless the pill is too narrow for its
/// padding.
pub proof fn law_columns_are_symmetric(layout: PillLayout, width: int, height: int, index: int)
    requires
        layout.fits_surface(width, height),
    ensures
        layout.left(index) + layout.left(18 - index) + layout.bar_w == 2 * layout.bars_x
            + layout.bars_w,
        layout.pill_w - 2 * layout.padding() >= UNITS_PER_PX ==> 2 * layout.bars_x + layout.bars_w
            == 2 * layout.pill_x + layout.pill_w,
{
    let pitch = layout.bar_w + layout.gap;
    assert(index * pitch + (18 - index) * pitch == 18 * pitch) by (nonlinear_arith);
}

/// Where the columns have room two pixels apart, they fill it from end to end,
/// so all of them stand between the pill's ends.
pub proof fn law_columns_fill_the_room(layout: PillLayout, width: int, height: int, index: int)
    requires
        layout.fits_surface(width, height),
        19 * layout.bar_w + 36 * UNITS_PER_PX <= layout.bars_w,
        0 <= index < PILL_BAR_COUNT,
    ensures
        layout.left(0) == layout.bars_x,
        layout.left(18) + layout.bar_w == layout.bars_x + layout.bars_w,
        layout.pill_x + layout.padding() <= layout.left(index),
        layout.left(index) + layout.bar_w <= layout.pill_x + layout.pill_w - layout.padding(),
{
    let pitch = layout.bar_w + layout.gap;
    assert(0 * pitch == 0) by (nonlinear_arith);
    assert(0 <= index * pitch <= 18 * pitch) by (nonlinear_arith)
        requires
            0 <= index <= 18,
            0 <= pitch,
    ;
}

/// A column is never lower than it is wide, so its ends are half circles. On a
/// pill of six pixels or more a column at any share `part / whole` of its range
/// stands inside the pill.
pub proof fn law_columns_stand_inside(
    layout: PillLayout,
    width: int,
    height: int,
    part: int,
    whole: int,
)
    requires
        layout.fits_surface(width, height),
        0 <= part <= whole,
        0 < whole,
    ensures
        layout.min_bar_h >= layout.bar_w,
        layout.pill_h >= 6 * UNITS_PER_PX ==> layout.min_bar_h < layout.max_bar_h,
        layout.pill_h >= 6 * UNITS_PER_PX ==> ({
            let bar_h = whole * layout.min_bar_h + part * (layout.max_bar_h - layout.min_bar_h);
            &&& whole * layout.min_bar_h <= bar_h <= whole * layout.max_bar_h
            &&& whole * 2 * layout.pill_y < whole * 2 * layout.center_y - bar_h
            &&& whole * 2 * layout.center_y + bar_h < whole * 2 * (layout.pill_y + layout.pill_h)
        }),
{
    if layout.pill_h >= 6 * UNITS_PER_PX {
        let low = layout.min_bar_h as int;
        let high = layout.max_bar_h as int;
        let top = layout.pill_y as int;
        let pill_h = layout.pill_h as int;
        let center = layout.center_y as int;
        assert(low < high < pill_h);
        let bar_h = whole * low + part * (high - low);
        assert(whole * low <= bar_h <= whole * high) by (nonlinear_arith)
            requires
                bar_h == whole * low + part * (high - low),
                0 <= part <= whole,
                low < high,
        ;
        assert(whole * high < whole * pill_h) by (nonlinear_arith)
            requires
                high < pill_h,
                0 < whole,
        ;
        assert(whole * 2 * center == whole * 2 * top + whole * pill_h) by (nonlinear_arith)
            requires
                2 * (center - top) == pill_h,
        ;
        assert(whole * 2 * (top + pill_h) == whole * 2 * top + whole * pill_h + whole * pill_h)
            by (nonlinear_arith);
    }
}

/// On a pill of six pixels or more a column grows with its level: at a larger
/// share of its range it is higher.
pub proof fn law_columns_grow_with_their_level(
    layout: PillLayout,
    width: int,
    height: int,
    a: int,
    b: int,
    whole: int,
)
    requires
        layout.fits_surface(width, height),
        layout.pill_h >= 6 * UNITS_PER_PX,
        0 <= a <= b <= whole,
    ensures
        whole * layout.min_bar_h + a * (layout.max_bar_h - layout.min_bar_h) <= whole
            * layout.min_bar_h + b * (layout.max_bar_h - layout.min_bar_h),
        a < b ==> whole * layout.min_bar_h + a * (layout.max_bar_h - layout.min_bar_h) < whole
            * layout.min_bar_h + b * (layout.max_bar_h - layout.min_bar_h),
{
    let range = layout.max_bar_h - layout.min_bar_h;
    assert(range > 0);
    assert(a * range <= b * range) by (nonlinear_arith)
        requires
            a <= b,
            range > 0,
    ;
    if a < b {
        assert(a * range < b * range) by (nonlinear_arith)
            requires
                a < b,
                range > 0,
        ;
    }
}

/// The same for levels of any size: on a surface of ten pixels or more in height
/// a column is higher at a higher level.
pub proof fn law_bar_height_is_monotone(
    layout: PillLayout,
    width: int,
    height: int,
    a: real,
    b: real,
)
    requires
        layout.fits_surface(width, height),
        height >= 10,
        a <= b,
    ensures
        layout.bar_height(a) <= layout.bar_height(b),
        a < b ==> layout.bar_height(a) < layout.bar_height(b),
{
    let range = (layout.max_bar_h - layout.min_bar_h) as real;
    assert(layout.max_bar_h - layout.min_bar_h > 0);
    assert(range > 0int as real);
    assert(range * a <= range * b) by (nonlinear_arith)
        requires
            a <= b,
            range > 0int as real,
    ;
    if a < b {
        assert(range * a < range * b) by (nonlinear_arith)
            requires
                a < b,
                range > 0int as real,
        ;
    }
}

/// On a surface more than five pixels wide and high the pill leaves exactly two
/// pixels free at each of the four edges.
pub proof fn law_pill_leaves_two_pixels_free(layout: PillLayout, width: int, height: int)
    requires
        layout.fits_surface(width, height),
        width > 5,
        height > 5,
    ensures
        layout.pill_x == 2 * UNITS_PER_PX,
        layout.pill_y == 2 * UNITS_PER_PX,
        layout.pill_x + layout.pill_w + 2 * UNITS_PER_PX == width * UNITS_PER_PX,
        layout.pill_y + layout.pill_h + 2 * UNITS_PER_PX == height * UNITS_PER_PX,
{
}

/// The two directions do not bear on each other: the pill's place and extent from
/// left to right come from the width of the surface alone, and those from top to
/// bottom from its height alone. A side of five pixels or less leaves a pill of
/// one pixel, any other one two pixels at either end.
pub proof fn law_pill_follows_each_side(layout: PillLayout, width: int, height: int)
    requires
        layout.fits_surface(width, height),
    ensures
        layout.pill_x == 2 * UNITS_PER_PX,
        layout.pill_y == 2 * UNITS_PER_PX,
        width <= 5 ==> layout.pill_w == UNITS_PER_PX,
        width >= 5 ==> layout.pill_w == width * UNITS_PER_PX - 4 * UNITS_PER_PX,
        height <= 5 ==> layout.pill_h == UNITS_PER_PX,
        height >= 5 ==> layout.pill_h == height * UNITS_PER_PX - 4 * UNITS_PER_PX,
{
}

/// A surface that is wider or higher by some pixels has a pill that is wider or
/// higher by as many.
pub proof fn law_pill_grows_with_the_surface(
    a: PillLayout,
    b: PillLayout,
    width: int,
    height: int,
    wider: nat,
    higher: nat,
)
    requires
        width >= 5,
        height >= 5,
        a.fits_surface(width, height),
        b.fits_surface(width + wider, height + higher),
    ensures
        b.pill_w == a.pill_w + wider * UNITS_PER_PX,
        b.pill_h == a.pill_h + higher * UNITS_PER_PX,
        b.pill_x == a.pill_x,
        b.pill_y == a.pill_y,
{
}

/// The pill is as round as it can be: its ends are half circles on its shorter
/// side. The shadow lies one pixel below it, and its columns are centered on its
/// middle.
pub proof fn law_pill_is_round_and_its_middle_is_halfway(
    layout: PillLayout,
    width: int,
    height: int,
)
    requires
        layout.fits_surface(width, height),
    ensures
        2 * layout.radius <= layout.pill_w,
        2 * layout.radius <= layout.pill_h,
        2 * layout.radius == layout.pill_w || 2 * layout.radius == layout.pill_h,
        layout.shadow_y == layout.pill_y + UNITS_PER_PX,
        layout.center_y - layout.pill_y == layout.pill_y + layout.pill_h - layout.center_y,
{
}

/// The room for the columns starts 38 % of the pill's height from its left end,
/// but 14 pixels at least, and ends as far from its right end, unless that leaves
/// less than a pixel: then it is one pixel wide.
pub proof fn law_room_lies_between_equal_paddings(layout: PillLayout, width: int, height: int)
    requires
        layout.fits_surface(width, height),
    ensures
        layout.bars_x - layout.pill_x >= 14 * UNITS_PER_PX,
        100 * (layout.bars_x - layout.pill_x) >= 38 * layout.pill_h,
        layout.bars_x - layout.pill_x == 14 * UNITS_PER_PX || 100 * (layout.bars_x - layout.pill_x)
            == 38 * layout.pill_h,
        layout.bars_w >= UNITS_PER_PX,
        layout.pill_w - 2 * (layout.bars_x - layout.pill_x) >= UNITS_PER_PX ==> layout.bars_x
            - layout.pill_x == layout.pill_x + layout.pill_w - (layout.bars_x + layout.bars_w),
        layout.pill_w - 2 * (layout.bars_x - layout.pill_x) < UNITS_PER_PX ==> layout.bars_w
            == UNITS_PER_PX,
{
}

/// A column is 9.5 % of the pill's height wide, but no less than four pixels and
/// no more than six.
pub proof fn law_column_width_is_bounded(layout: PillLayout, width: int, height: int)
    requires
        layout.fits_surface(width, height),
    ensures
        4 * UNITS_PER_PX <= layout.bar_w <= 6 * UNITS_PER_PX,
        4000 * UNITS_PER_PX <= 95 * layout.pill_h <= 6000 * UNITS_PER_PX ==> 1000 * layout.bar_w
            == 95 * layout.pill_h,
        95 * layout.pill_h < 4000 * UNITS_PER_PX ==> layout.bar_w == 4 * UNITS_PER_PX,
        95 * layout.pill_h > 6000 * UNITS_PER_PX ==> layout.bar_w == 6 * UNITS_PER_PX,
{
}

/// The columns are spread over the room from its one end to the other, unless
/// they would stand less than two pixels apart: then they stand two pixels apart,
/// and as far out of the room on the one side as on the other.
pub proof fn law_columns_are_spread_over_the_room(layout: PillLayout, width: int, height: int)
    requires
        layout.fits_surface(width, height),
    ensures
        ({
            let end = layout.start_x + 19 * layout.bar_w + 18 * layout.gap;
            &&& layout.bars_x - layout.start_x == end - (layout.bars_x + layout.bars_w)
            &&& layout.bars_x >= layout.start_x
            &&& layout.gap >= 2 * UNITS_PER_PX
            &&& layout.gap > 2 * UNITS_PER_PX ==> layout.start_x == layout.bars_x
        }),
{
}

/// A silent column is 13 % of the pill's height high, but no less than it is wide,
/// and a full one is 68 % of it high.
pub proof fn law_column_heights_are_shares_of_the_pill(
    layout: PillLayout,
    width: int,
    height: int,
)
    requires
        layout.fits_surface(width, height),
    ensures
        layout.min_bar_h >= layout.bar_w,
        100 * layout.min_bar_h >= 13 * layout.pill_h,
        layout.min_bar_h == layout.bar_w || 100 * layout.min_bar_h == 13 * layout.pill_h,
        100 * layout.max_bar_h == 68 * layout.pill_h,
{
}

/// The first column stands where the row starts, and each further one a column
/// and a space to the right of the one before.
pub proof fn law_row_starts_at_its_first_column(layout: PillLayout, index: int)
    ensures
        layout.left(0) == layout.start_x,
        layout.left(index + 1) - layout.left(index) == layout.bar_w + layout.gap,
{
    let pitch = layout.bar_w + layout.gap;
    assert(0 * pitch == 0) by (nonlinear_arith);
    assert((index + 1) * pitch == index * pitch + pitch) by (nonlinear_arith);
}

/// A column at level zero has its lowest height, one at level one its highest,
/// and one halfway between two levels is halfway between their heights.
pub proof fn law_bar_height_spans_its_range(layout: PillLayout, a: real, b: real)
    ensures
        layout.bar_height(0int as real) == (layout.min_bar_h as int) as real,
        layout.bar_height(1int as real) == (layout.max_bar_h as int) as real,
        layout.bar_height((a + b) / (2int as real)) == (layout.bar_height(a) + layout.bar_height(b))
            / (2int as real),
{
    let range = (layout.max_bar_h - layout.min_bar_h) as real;
    assert(range * (0int as real) == 0int as real) by (nonlinear_arith);
    assert(range * (1int as real) == range) by (nonlinear_arith);
    assert(range * ((a + b) / (2int as real)) == (range * a + range * b) / (2int as real))
        by (nonlinear_arith);
}

} // verus!
