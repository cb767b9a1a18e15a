use std::f64::consts::{FRAC_PI_2, PI};

use voxtype_osd_gtk4::animation::{PillAnimation, Response};
use voxtype_osd_gtk4::layout::{pill_layout, PillLayout, PILL_BAR_COUNT, PILL_RECENT_FRAMES, UNITS_PER_PX};
use voxtype_osd_gtk4::outline::{corner_arcs, CornerArc};

fn px(units: i64) -> f64 {
    units as f64 / UNITS_PER_PX as f64
}

fn close(units: i64, pixels: f64) {
    let difference = px(units) - pixels;
    assert!(difference.abs() <= 1e-9 * pixels.abs().max(1.0), "{} and {}", px(units), pixels);
}

fn above(target: f32, level: f32) -> bool {
    target > level
}

fn ease(level: f32, target: f32, response: Response) -> f32 {
    level + (target - level) * (f32::from(response.percent()) / 100.0)
}

#[test]
fn nothing_to_paint_on() {
    assert_eq!(pill_layout(0, 60), None);
    assert_eq!(pill_layout(400, 0), None);
    assert_eq!(pill_layout(-1, 60), None);
    assert_eq!(pill_layout(400, i32::MIN), None);
    assert!(pill_layout(1, 1).is_some());
}

#[test]
fn exact_shape_of_a_common_size() {
    // 420 by 64 pixels: a pill of 416 by 60.
    let expected = PillLayout {
        pill_x: 7_200,
        pill_y: 7_200,
        pill_w: 416 * 3_600,
        pill_h: 60 * 3_600,
        radius: 30 * 3_600,
        shadow_y: 10_800,
        // 2 + 22.8 pixels
        bars_x: 89_280,
        // 416 - 45.6 pixels
        bars_w: 1_333_440,
        // 5.7 pixels
        bar_w: 20_520,
        // (370.4 - 19 * 5.7) / 18 pixels
        gap: 52_420,
        start_x: 89_280,
        center_y: 32 * 3_600,
        // 7.8 and 40.8 pixels
        min_bar_h: 28_080,
        max_bar_h: 146_880,
    };
    assert_eq!(pill_layout(420, 64), Some(expected));
    let lefts = expected.bar_lefts();
    assert_eq!(lefts.len(), PILL_BAR_COUNT);
    assert_eq!(lefts[0], 89_280);
    assert_eq!(lefts[1], 89_280 + 20_520 + 52_420);
    assert_eq!(lefts[18] + expected.bar_w, expected.bars_x + expected.bars_w);
}

#[test]
fn shape_agrees_with_floating_point() {
    let sizes = [1, 2, 4, 5, 6, 9, 10, 13, 30, 41, 46, 47, 64, 67, 68, 100, 200, 333, 420, 1000, 7681];
    for width in sizes {
        for height in sizes {
            let (w, h) = (f64::from(width), f64::from(height));
            let pill_w = (w - 4.0).max(1.0);
            let pill_h = (h - 4.0).max(1.0);
            let padding = (pill_h * 0.38).max(14.0);
            let bars_x = 2.0 + padding;
            let bars_w = (pill_w - padding * 2.0).max(1.0);
            let bar_w = (pill_h * 0.095).clamp(4.0, 6.0);
            let count = PILL_BAR_COUNT as f64;
            let gap = ((bars_w - bar_w * count) / (count - 1.0)).max(2.0);
            let total_w = bar_w * count + gap * (count - 1.0);
            let start_x = bars_x + (bars_w - total_w) * 0.5;
            let layout = pill_layout(width, height).unwrap();
            close(layout.pill_x, 2.0);
            close(layout.pill_y, 2.0);
            close(layout.pill_w, pill_w);
            close(layout.pill_h, pill_h);
            close(layout.radius, (pill_h * 0.5).min(pill_w * 0.5).min(pill_h * 0.5).max(0.0));
            close(layout.shadow_y, 3.0);
            close(layout.bars_x, bars_x);
            close(layout.bars_w, bars_w);
            close(layout.bar_w, bar_w);
            close(layout.gap, gap);
            close(layout.start_x, start_x);
            close(layout.center_y, 2.0 + pill_h * 0.5);
            close(layout.min_bar_h, (pill_h * 0.13).max(bar_w));
            close(layout.max_bar_h, pill_h * 0.68);
            for (index, left) in layout.bar_lefts().iter().enumerate() {
                close(*left, start_x + index as f64 * (bar_w + gap));
            }
        }
    }
}

#[test]
fn largest_surface() {
    let layout = pill_layout(i32::MAX, i32::MAX).unwrap();
    assert_eq!(layout.pill_w, (i32::MAX as i64 - 4) * 3_600);
    assert_eq!(layout.bar_w, 6 * 3_600);
    assert_eq!(layout.bar_lefts().len(), 19);
}

#[test]
fn columns_mirror_each_other() {
    for (width, height) in [(420, 64), (100, 40), (33, 200)] {
        let layout = pill_layout(width, height).unwrap();
        let lefts = layout.bar_lefts();
        for index in 0..PILL_BAR_COUNT {
            assert_eq!(
                lefts[index] + lefts[18 - index] + layout.bar_w,
                2 * layout.bars_x + layout.bars_w
            );
        }
        for pair in lefts.windows(2) {
            assert!(pair[1] - pair[0] - layout.bar_w >= 2 * UNITS_PER_PX);
        }
    }
}

#[test]
fn columns_of_a_low_pill_shrink_with_their_level() {
    let low = pill_layout(420, 9).unwrap();
    assert!(low.min_bar_h > low.max_bar_h);
    let high = pill_layout(420, 10).unwrap();
    assert!(high.min_bar_h < high.max_bar_h);
    assert!(high.max_bar_h < high.pill_h);
}

#[test]
fn ends_of_a_narrow_pill_are_as_round_as_its_width_allows() {
    let layout = pill_layout(34, 104).unwrap();
    assert_eq!(layout.radius, 15 * UNITS_PER_PX);
    let layout = pill_layout(104, 34).unwrap();
    assert_eq!(layout.radius, 15 * UNITS_PER_PX);
}

#[test]
fn columns_grow_with_their_level() {
    for height in [10, 12, 46, 64, 200] {
        let layout = pill_layout(420, height).unwrap();
        let range = layout.max_bar_h - layout.min_bar_h;
        let heights: Vec<i64> = (0..=8).map(|part| 8 * layout.min_bar_h + part * range).collect();
        assert!(heights.windows(2).all(|pair| pair[0] < pair[1]));
    }
}

#[test]
fn higher_gain_fills_more_of_the_vertical() {
    let layout = pill_layout(420, 64).unwrap();
    let bar = |level: f32| {
        px(layout.min_bar_h) + (px(layout.max_bar_h) - px(layout.min_bar_h)) * f64::from(level)
    };
    let mut quiet = PillAnimation::new(0.3f32);
    let mut loud = PillAnimation::new(0.3f32);
    let project = |gain: f32| -> Vec<f32> { (0..19).map(|i| (i as f32 * gain / 40.0).min(1.0)).collect() };
    for _ in 0..20 {
        quiet.approach(&project(0.5), above, ease);
        loud.approach(&project(2.0), above, ease);
        assert!(quiet.levels().iter().zip(loud.levels()).all(|(q, l)| bar(*q) <= bar(*l)));
    }
}

#[test]
fn columns_start_at_zero() {
    let animation = PillAnimation::new(0.0f32);
    assert_eq!(animation.levels(), &[0.0f32; 19]);
    assert_eq!(PILL_RECENT_FRAMES, 44);
}

#[test]
fn columns_rise_fast_and_fall_slowly() {
    let mut animation = PillAnimation::new(0.0f32);
    animation.approach(&[1.0; 19], above, ease);
    assert_eq!(animation.levels(), &[0.62f32; 19]);
    animation.approach(&[0.0; 19], above, ease);
    let expected = 0.62f32 + (0.0f32 - 0.62f32) * 0.24f32;
    assert_eq!(animation.levels(), &[expected; 19]);
}

#[test]
fn shares_are_the_decimal_constants() {
    assert_eq!(f32::from(Response::Attack.percent()) / 100.0, 0.62f32);
    assert_eq!(f32::from(Response::Release.percent()) / 100.0, 0.24f32);
}

#[test]
fn columns_without_a_target_stay() {
    let mut animation = PillAnimation::new(0.5f32);
    animation.approach(&[1.0, 0.0], above, ease);
    let levels = animation.levels();
    assert_eq!(levels[0], 0.5f32 + 0.5f32 * 0.62f32);
    assert_eq!(levels[1], 0.5f32 - 0.5f32 * 0.24f32);
    assert!(levels[2..].iter().all(|level| *level == 0.5));
    assert_eq!(levels.len(), 19);
}

#[test]
fn targets_without_a_column_are_ignored() {
    let mut animation = PillAnimation::new(0.0f32);
    animation.approach(&[1.0; 40], above, ease);
    assert_eq!(animation.levels(), &[0.62f32; 19]);
}

#[test]
fn a_column_at_its_target_is_released() {
    let mut animation = PillAnimation::new(3i64);
    animation.approach(&[3; 19], |target, level| target > level, |_, _, response| {
        i64::from(response.percent())
    });
    assert_eq!(animation.levels(), &[24i64; 19]);
}

#[test]
fn distance_shrinks_geometrically() {
    for (start, target, left) in [(0.0f64, 1.0f64, 0.38f64), (1.0, 0.0, 0.76), (0.25, 0.75, 0.38)] {
        let mut animation = PillAnimation::new(start);
        for paints in 1..=8 {
            animation.approach(&[target; 19], |t, l| t > l, |level, target, response| {
                level + (target - level) * (f64::from(response.percent()) / 100.0)
            });
            let expected = (target - start).abs() * left.powi(paints);
            for level in animation.levels() {
                assert!(((target - level).abs() - expected).abs() < 1e-12);
                assert_eq!(*level < target, start < target);
            }
        }
    }
}

#[test]
fn columns_at_their_targets_stay() {
    let mut animation = PillAnimation::new(0.0f32);
    let targets: Vec<f32> = (0..19).map(|i| i as f32 / 18.0).collect();
    animation.approach(&targets, above, ease);
    let reached = animation.levels().to_vec();
    animation.approach(&reached, above, ease);
    assert_eq!(animation.levels(), reached.as_slice());
}

#[test]
fn louder_targets_leave_no_column_lower() {
    for quiet in 0..=20 {
        for loud in quiet..=20 {
            let mut a = PillAnimation::new(0.5f32);
            let mut b = PillAnimation::new(0.5f32);
            a.approach(&[quiet as f32 / 20.0; 19], above, ease);
            b.approach(&[loud as f32 / 20.0; 19], above, ease);
            assert!(a.levels().iter().zip(b.levels()).all(|(a, b)| a <= b));
        }
    }
}

#[test]
fn levels_stay_in_range() {
    let mut animation = PillAnimation::new(0.0f32);
    for step in 0..300 {
        let target = if step % 7 < 3 { 1.0f32 } else { 0.0f32 };
        animation.approach(&[target; 19], above, ease);
        assert!(animation.levels().iter().all(|level| (0.0f32..=1.0f32).contains(level)));
    }
}

#[test]
fn reset_lowers_every_column() {
    let mut animation = PillAnimation::new(0.0f32);
    animation.approach(&[1.0; 19], above, ease);
    animation.reset(0.0);
    assert_eq!(animation.levels(), &[0.0f32; 19]);
}

#[test]
fn outline_runs_clockwise_from_the_top_right() {
    let arcs = corner_arcs();
    assert_eq!(arcs[0], CornerArc { right: true, bottom: false, from: -1, to: 0 });
    assert_eq!(arcs[1], CornerArc { right: true, bottom: true, from: 0, to: 1 });
    assert_eq!(arcs[2], CornerArc { right: false, bottom: true, from: 1, to: 2 });
    assert_eq!(arcs[3], CornerArc { right: false, bottom: false, from: 2, to: 3 });
    for index in 0..4 {
        assert_eq!((arcs[index].to - arcs[(index + 1) % 4].from) % 4, 0);
    }
}

#[test]
fn quarter_turns_are_the_usual_angles() {
    let angles = [-FRAC_PI_2, 0.0, FRAC_PI_2, PI, PI + FRAC_PI_2];
    for (quarters, angle) in (-1i32..=3).zip(angles) {
        assert_eq!(f64::from(quarters) * FRAC_PI_2, angle);
    }
}
