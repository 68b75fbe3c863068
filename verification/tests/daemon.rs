//! The daemon as a process, and the shell's window.

use hytedeck::instance::{acquire, SingleInstance, MUTEX_NAME};
use hytedeck::interval::{now_ms, Interval};
use hytedeck::panel::{
    can_compensate, find_panel, frame_compensated_rect, frameless_style, is_panel_monitor, noactivate_style,
    pin_check, pin_target, rect_from, repin, signed_length, PinCheck, TargetRect,
    FALLBACK_HEIGHT, FALLBACK_WIDTH, WATCHDOG_INTERVAL_SECS,
};
use hytedeck::supervisor::{Backoff, SHELL_EXE_NAME};

fn rect(x: i32, y: i32, width: u32, height: u32) -> TargetRect {
    TargetRect { x, y, width, height }
}

#[test]
fn intervals_count_in_milliseconds() {
    let i = Interval::from_millis(2750);
    assert_eq!((i.as_secs(), i.subsec_millis()), (2, 750));
    assert!(i.at_least(&Interval::from_millis(2750)));
    assert!(!i.at_least(&Interval::from_millis(2751)));
    assert!(Interval::from_secs(3).at_least(&i));
    let limit = Interval::from_secs(30);
    assert_eq!(i.doubled_up_to(&limit), Interval::from_millis(5500));
    assert_eq!(Interval::from_secs(16).doubled_up_to(&limit), limit);
    assert_eq!(Interval::from_secs(u64::MAX).doubled_up_to(&limit), limit);
}

#[test]
fn restarts_back_off_and_start_over_after_a_stable_run() {
    let mut backoff = Backoff::new();
    let short = Interval::from_millis(59_999);
    for secs in [1, 2, 4, 8, 16, 30, 30] {
        assert_eq!(backoff.after_run(short), Interval::from_secs(secs));
    }
    assert_eq!(backoff.after_run(Interval::from_secs(60)), Interval::from_secs(1));
    assert_eq!(backoff.after_run(short), Interval::from_secs(2));
    assert_eq!(SHELL_EXE_NAME, "hyte-shell.exe");
}

#[test]
fn only_one_daemon_runs() {
    assert_eq!(MUTEX_NAME, "Global\\auxdeck-daemon");
    let first = acquire(Some(7), false);
    assert_eq!(first.instance, SingleInstance::Acquired(7));
    assert_eq!(first.close, None);
    assert!(first.instance.may_run());
    let second = acquire(Some(8), true);
    assert_eq!(second.instance, SingleInstance::AlreadyRunning);
    assert_eq!(second.close, Some(8));
    assert!(!second.instance.may_run());
    let unknown = acquire::<i32>(None, true);
    assert_eq!(unknown.instance, SingleInstance::Unverified);
    assert_eq!(unknown.close, None);
    assert!(unknown.instance.may_run());
}

#[test]
fn clock_readings_become_timestamps() {
    assert_eq!(now_ms(Some(1_754_870_400_123)), 1_754_870_400_123);
    assert_eq!(now_ms(Some(u64::MAX as u128 + 5)), 4);
    assert_eq!(now_ms(None), 0);
}

#[test]
fn the_panel_is_the_first_monitor_of_its_size() {
    assert!(is_panel_monitor(682, 2560));
    assert!(is_panel_monitor(2560, 682));
    assert!(!is_panel_monitor(2560, 1440));
    assert!(!is_panel_monitor(682, 682));
    let monitors = vec![rect(0, 0, 2560, 1440), rect(2560, 0, 2560, 682), rect(0, 0, 682, 2560)];
    assert_eq!(find_panel(&monitors), Some(monitors[1]));
    assert_eq!(find_panel(&vec![monitors[0]]), None);
    assert_eq!((FALLBACK_WIDTH, FALLBACK_HEIGHT), (400, 800));
    assert_eq!(WATCHDOG_INTERVAL_SECS, 5);
}

#[test]
fn rectangles_come_from_edges() {
    assert_eq!(rect_from(-10, 5, 20, 45), rect(-10, 5, 30, 40));
    assert_eq!(rect_from(10, 10, 5, 7), rect(10, 10, 0, 0));
    assert_eq!(signed_length(5), 5);
    assert_eq!(signed_length(u32::MAX), -1);
    assert_eq!(signed_length(0x8000_0000), i32::MIN);
}

#[test]
fn a_compensated_window_shows_the_panel() {
    let panel = rect(2560, 0, 682, 2560);
    // An invisible frame of seven pixels to the left, to the right and at the bottom.
    let visible = rect(2567, 0, 668, 2553);
    let window = frame_compensated_rect(Some(panel), Some(visible), panel).unwrap();
    assert_eq!(window, rect(2553, 0, 696, 2567));
    assert!(can_compensate(Some(panel), Some(visible), panel));
    assert_eq!(pin_target(Some(window), panel), window);
    assert_eq!(frame_compensated_rect(Some(panel), Some(panel), panel), None);
    assert_eq!(frame_compensated_rect(None, Some(visible), panel), None);
    assert_eq!(frame_compensated_rect(Some(panel), None, panel), None);
    assert_eq!(pin_target(None, panel), panel);
    // What shows is larger than the window by more than the panel: one pixel is left.
    let inside_out = frame_compensated_rect(Some(rect(0, 0, 10, 10)), Some(rect(0, 0, 900, 10)), panel);
    assert_eq!(inside_out, Some(rect(2560, 0, 1, 2560)));
}

#[test]
fn frames_beyond_the_desktop_cannot_be_made_up_for() {
    let panel = rect(0, 0, 682, 2560);
    let far_left = rect(i32::MIN, 0, 10, 10);
    let far_right = rect(i32::MAX - 10, 0, 10, 10);
    assert!(!can_compensate(Some(far_left), Some(far_right), panel));
    assert!(can_compensate(Some(far_left), None, panel));
    assert!(can_compensate(None, Some(far_right), panel));
    assert!(!can_compensate(Some(rect(5, 0, i32::MAX as u32, 10)), Some(panel), panel));
    let shifted = rect(7, 0, 10, 10);
    let window = rect(0, 0, 24, 10);
    assert!(!can_compensate(Some(window), Some(shifted), rect(i32::MIN, 0, 682, 2560)));
    assert!(!can_compensate(Some(window), Some(shifted), rect(0, 0, i32::MAX as u32, 2560)));
    assert!(can_compensate(Some(window), Some(window), rect(i32::MIN, 0, i32::MAX as u32, 9)));
}

#[test]
fn pinning_is_checked_and_drift_undone() {
    let panel = rect(0, 0, 682, 2560);
    let moved = rect(3, 0, 682, 2560);
    assert_eq!(pin_check(Some(panel), panel), PinCheck::Pinned);
    assert_eq!(pin_check(Some(moved), panel), PinCheck::Mismatch(moved));
    assert_eq!(pin_check(None, panel), PinCheck::Unknown);
    assert_eq!(repin(Some(moved), panel), Some(panel));
    assert_eq!(repin(Some(panel), panel), None);
    assert_eq!(repin(None, panel), None);
}

#[test]
fn styles_change_their_own_bits_only() {
    assert_eq!(noactivate_style(0x100), 0x0800_0180);
    assert_eq!(noactivate_style(noactivate_style(-1)), -1);
    assert_eq!(frameless_style(0x16CF_0000), 0x1603_0000);
    assert_eq!(frameless_style(frameless_style(-1)), -1 - 0x00CC_0000);
}
