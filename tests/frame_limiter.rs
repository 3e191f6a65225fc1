use carambolage::{FrameLimiter, GameSettings};

#[test]
fn settings_default_is_640_by_480_at_60() {
    let s = GameSettings::default();
    assert!(!s.is_fullscreen);
    assert_eq!(s.width, 640);
    assert_eq!(s.height, 480);
    assert_eq!(s.fps, 60);
}

#[test]
fn frame_duration_rounds_up_to_whole_nanoseconds() {
    assert_eq!(FrameLimiter::new(30).frame_nanos(), 33_333_334);
    assert_eq!(FrameLimiter::new(60).frame_nanos(), 16_666_667);
    assert_eq!(FrameLimiter::new(1).frame_nanos(), 1_000_000_000);
    assert_eq!(FrameLimiter::new(1000).frame_nanos(), 1_000_000);
    assert_eq!(FrameLimiter::new(u32::MAX).frame_nanos(), 1);
}

#[test]
fn first_start_has_zero_delta_and_later_ones_measure_the_gap() {
    let mut l = FrameLimiter::new(60);
    assert_eq!(l.start(5_000), 0);
    assert_eq!(l.start(21_000), 16_000);
    // a clock that went backwards gives no time
    assert_eq!(l.start(10_000), 0);
}

#[test]
fn stop_holds_until_one_frame_has_elapsed() {
    let mut l = FrameLimiter::new(30);
    assert!(!l.stop(0));
    l.start(1_000);
    assert!(l.stop(1_000));
    assert!(l.stop(1_000 + 33_333_333));
    assert!(!l.stop(1_000 + 33_333_334));
    // elapsed * fps reaches one second exactly when stop turns false
    assert!(33_333_334u64 * 30 >= 1_000_000_000);
    assert!(33_333_333u64 * 30 < 1_000_000_000);
}

#[test]
fn zero_fps_waits_one_second_and_no_longer() {
    let mut l = FrameLimiter::new(0);
    assert_eq!(l.frame_nanos(), 1_000_000_000);
    l.start(7);
    assert!(l.stop(7 + 999_999_999));
    assert!(!l.stop(7 + 1_000_000_000));
    assert!(!l.stop(u64::MAX));
}
