use voxtype_osd_gtk4::monitor::{
    focused_monitor_height_px, pick_monitor, placement_height_px, Monitor,
};
use voxtype_osd_gtk4::placement::{place, to_signed_px, OsdPosition, PerEdge};

fn edges<T>(top: T, bottom: T, left: T, right: T) -> PerEdge<T> {
    PerEdge { top, bottom, left, right }
}

#[test]
fn centered_positions_hang_from_the_top() {
    for position in [OsdPosition::BottomCenter, OsdPosition::TopCenter] {
        assert!(position.is_centered());
        let placement = place(position, 24, 918);
        assert_eq!(placement.anchors, edges(true, false, false, false));
        assert_eq!(placement.margins, edges(Some(918), None, None, None));
    }
}

#[test]
fn corners_are_tied_to_two_edges() {
    let m = Some(24);
    let placement = place(OsdPosition::BottomLeft, 24, 918);
    assert_eq!(placement.anchors, edges(false, true, true, false));
    assert_eq!(placement.margins, edges(None, m, m, None));
    let placement = place(OsdPosition::BottomRight, 24, 918);
    assert_eq!(placement.anchors, edges(false, true, false, true));
    assert_eq!(placement.margins, edges(None, m, None, m));
    let placement = place(OsdPosition::TopLeft, 24, 918);
    assert_eq!(placement.anchors, edges(true, false, true, false));
    assert_eq!(placement.margins, edges(m, None, m, None));
    let placement = place(OsdPosition::TopRight, 24, 918);
    assert_eq!(placement.anchors, edges(true, false, false, true));
    assert_eq!(placement.margins, edges(m, None, None, m));
    assert!(!OsdPosition::TopRight.is_centered());
}

#[test]
fn pixel_counts_become_signed_as_a_cast_does() {
    for pixels in [0u32, 1, 400, 0x7fff_ffff, 0x8000_0000, 0x8000_0001, u32::MAX] {
        assert_eq!(to_signed_px(pixels), pixels as i32);
    }
    assert_eq!(to_signed_px(u32::MAX), -1);
}

#[test]
fn margin_past_the_signed_range_wraps() {
    let placement = place(OsdPosition::TopLeft, u32::MAX, 0);
    assert_eq!(placement.margins.top, Some(-1));
}

fn plain(height: i32) -> Option<Monitor> {
    Some(Monitor { height, scale: 1 })
}

#[test]
fn focused_monitor_is_tried_first() {
    let monitors = [plain(1080), plain(1440)];
    assert_eq!(pick_monitor(&monitors, Some(1)), plain(1440));
    assert_eq!(focused_monitor_height_px(&monitors, Some(1)), Some(1440));
    assert_eq!(placement_height_px(&monitors, Some(1)), 1440);
    assert_eq!(focused_monitor_height_px(&monitors, Some(0)), Some(1080));
}

#[test]
fn height_is_physical_and_placement_goes_by_application_pixels() {
    let monitors = [Some(Monitor { height: 720, scale: 2 })];
    assert_eq!(focused_monitor_height_px(&monitors, None), Some(1440));
    assert_eq!(focused_monitor_height_px(&monitors, Some(0)), Some(1440));
    assert_eq!(placement_height_px(&monitors, None), 720);
    let huge = [Some(Monitor { height: i32::MAX, scale: i32::MAX })];
    assert_eq!(focused_monitor_height_px(&huge, None), Some(4_611_686_014_132_420_609));
}

#[test]
fn first_positive_height_is_used_without_a_focus() {
    let monitors = [None, plain(0), plain(-3), plain(1440), plain(2160)];
    assert_eq!(pick_monitor(&monitors, None), plain(1440));
    assert_eq!(focused_monitor_height_px(&monitors, None), Some(1440));
    assert_eq!(placement_height_px(&monitors, None), 1440);
}

#[test]
fn unusable_focus_is_ignored() {
    let monitors = [None, plain(0), plain(1440), plain(2160)];
    for focused in [0, 1, 4, usize::MAX] {
        assert_eq!(focused_monitor_height_px(&monitors, Some(focused)), Some(1440));
        assert_eq!(placement_height_px(&monitors, Some(focused)), 1440);
    }
}

#[test]
fn unusable_monitors_are_skipped() {
    let short = [plain(1080), plain(1440)];
    let long = [plain(1080), None, plain(1440)];
    assert_eq!(pick_monitor(&short, Some(1)), pick_monitor(&long, Some(2)));
    assert_eq!(pick_monitor(&short, None), pick_monitor(&long, None));
    let unscaled = [Some(Monitor { height: 900, scale: 0 }), plain(1440)];
    assert_eq!(pick_monitor(&unscaled, None), plain(1440));
}

#[test]
fn no_usable_monitor() {
    assert_eq!(pick_monitor(&[], None), None);
    assert_eq!(focused_monitor_height_px(&[], None), None);
    assert_eq!(focused_monitor_height_px(&[None, plain(0)], Some(1)), None);
    assert_eq!(placement_height_px(&[], None), 1080);
    assert_eq!(placement_height_px(&[None, plain(-1)], Some(0)), 1080);
}
