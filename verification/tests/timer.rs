use std::time::Duration;

use voxtype_osd_gtk4::frames::{next_seq, peak_to_decay, FrameCounter, SILENCE_DBFS, START_SEQ};
use voxtype_osd_gtk4::render::{
    RenderLoop, TickInput, TickPlan, IDLE_TIMEOUT_NANOS, RENDER_TICK_MS, STALE_SECS,
};

fn input(seq: u64, silence: Duration) -> TickInput {
    TickInput { seq: Some(seq), silence_nanos: Some(silence.as_nanos()) }
}

const SOON: Duration = Duration::from_millis(10);
const LATE: Duration = Duration::from_millis(200);

#[test]
fn idle_threshold_agrees_with_single_precision_seconds() {
    let mut nanos: u64 = 149_999_900;
    while nanos < 150_000_100 {
        let silence = Duration::from_nanos(nanos);
        assert_eq!(input(1, silence).is_idle(), silence.as_secs_f32() > 0.15f32);
        nanos += 1;
    }
    for silence in [
        Duration::ZERO,
        Duration::from_millis(149),
        Duration::from_millis(151),
        Duration::from_secs(1),
        Duration::new(1, 100_000_000),
        Duration::from_secs(STALE_SECS),
        Duration::MAX,
    ] {
        assert_eq!(input(1, silence).is_idle(), silence.as_secs_f32() > 0.15f32);
    }
    assert_eq!(IDLE_TIMEOUT_NANOS, 150_000_008);
    assert_eq!(RENDER_TICK_MS, 16);
}

#[test]
fn first_tick_hides_the_mapped_window() {
    let mut state = RenderLoop::new();
    assert!(state.visible);
    let plan = state.tick(input(START_SEQ, Duration::from_secs(STALE_SECS)));
    assert_eq!(plan, TickPlan::Hide);
    assert!(!state.visible);
}

#[test]
fn unreadable_state_counts_as_idle_and_as_frame_zero() {
    let mut state = RenderLoop::new();
    assert_eq!(state.tick(TickInput { seq: Some(4), silence_nanos: None }), TickPlan::Hide);
    let blind = TickInput { seq: None, silence_nanos: Some(1) };
    assert_eq!(state.tick(blind), TickPlan::Active { show: true, redraw: false });
    assert_eq!(state.tick(input(4, SOON)), TickPlan::Active { show: false, redraw: true });
    assert_eq!(state.tick(blind), TickPlan::Active { show: false, redraw: true });
    assert_eq!(state.last_drawn_seq, 0);
}

#[test]
fn silence_hides_once_and_frames_show_again() {
    let mut state = RenderLoop::new();
    assert_eq!(state.tick(input(1, SOON)), TickPlan::Active { show: false, redraw: true });
    assert_eq!(state.tick(input(1, SOON)), TickPlan::Active { show: false, redraw: false });
    assert_eq!(state.tick(input(3, SOON)), TickPlan::Active { show: false, redraw: true });
    assert_eq!(state.tick(input(3, LATE)), TickPlan::Hide);
    assert_eq!(state.tick(input(3, LATE)), TickPlan::Rest);
    assert_eq!(state.tick(input(4, LATE)), TickPlan::Rest);
    assert_eq!(state.last_drawn_seq, 3);
    assert_eq!(state.tick(input(4, SOON)), TickPlan::Active { show: true, redraw: true });
    assert_eq!(state, RenderLoop { visible: true, last_drawn_seq: 4 });
}

#[test]
fn hides_and_shows_alternate_over_a_run() {
    let mut state = RenderLoop::new();
    let mut mapped = 1;
    let mut seq = START_SEQ;
    for step in 0..200u64 {
        seq = next_seq(seq);
        let silence = if (step * 7) % 5 < 2 { LATE } else { SOON };
        match state.tick(input(seq, silence)) {
            TickPlan::Hide => mapped -= 1,
            TickPlan::Active { show: true, .. } => mapped += 1,
            _ => {}
        }
        assert_eq!(mapped == 1, state.visible);
        assert_eq!(state.visible, silence == SOON);
        assert!(mapped == 0 || mapped == 1);
    }
}

#[test]
fn numbering_starts_over_after_the_last_number() {
    assert_eq!(next_seq(START_SEQ), 1);
    assert_eq!(next_seq(41), 42);
    assert_eq!(next_seq(u64::MAX), 0);
}

#[test]
fn a_frame_across_the_wrap_is_painted() {
    let mut state = RenderLoop { visible: true, last_drawn_seq: u64::MAX };
    let plan = state.tick(input(next_seq(u64::MAX), SOON));
    assert_eq!(plan, TickPlan::Active { show: false, redraw: true });
}

#[test]
fn every_third_frame_is_reported() {
    let mut counter = FrameCounter::new(3);
    let mut due = Vec::new();
    for _ in 0..7 {
        due.push(counter.record());
    }
    assert_eq!(due, vec![false, false, true, false, false, true, false]);
    assert_eq!(counter.total, 7);
}

#[test]
fn zero_reports_nothing_and_one_everything() {
    let mut quiet = FrameCounter::new(0);
    let mut loud = FrameCounter::new(1);
    for _ in 0..5 {
        assert!(!quiet.record());
        assert!(loud.record());
    }
    assert_eq!(quiet.total, 5);
}

#[test]
fn held_peak_decays_unless_the_newest_frame_is_louder() {
    let floor = SILENCE_DBFS as f32;
    assert_eq!(floor, -120.0);
    let at_most = |a: f32, b: f32| a <= b;
    assert_eq!(peak_to_decay(Some(-20.0), floor, -6.0, at_most), Some(-20.0));
    assert_eq!(peak_to_decay(Some(-6.0), floor, -6.0, at_most), Some(-6.0));
    assert_eq!(peak_to_decay(Some(-3.0), floor, -6.0, at_most), None);
    assert_eq!(peak_to_decay(None, floor, -6.0, at_most), Some(-120.0));
    assert_eq!(peak_to_decay(Some(f32::NAN), floor, -6.0, at_most), None);
}
