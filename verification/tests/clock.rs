use viewer_core::clock::{Clock, NANOS_PER_SECOND};

#[test]
fn first_tick_has_no_delta() {
    let mut clock = Clock::new(None);
    assert_eq!(clock.delta(), 0);
    clock.update(5_000_000);
    assert_eq!(clock.delta(), 0);
}

#[test]
fn delta_is_time_between_ticks() {
    let mut clock = Clock::new(None);
    clock.update(1_000);
    clock.update(17_000);
    assert_eq!(clock.delta(), 16_000);
    clock.update(17_000);
    assert_eq!(clock.delta(), 0);
    clock.update(u64::MAX);
    assert_eq!(clock.delta(), u64::MAX - 17_000);
}

#[test]
fn clock_running_backwards_gives_zero_delta() {
    let mut clock = Clock::new(Some(60));
    clock.update(10_000);
    clock.update(4_000);
    assert_eq!(clock.delta(), 0);
    clock.update(6_000);
    assert_eq!(clock.delta(), 2_000);
}

#[test]
fn end_frame_without_ceiling_does_not_wait() {
    let mut clock = Clock::new(None);
    assert_eq!(clock.end_frame(0), 0);
    clock.update(100);
    assert_eq!(clock.end_frame(100), 0);
    assert_eq!(clock.end_frame(u64::MAX), 0);
}

#[test]
fn end_frame_waits_out_the_frame_interval() {
    let mut clock = Clock::new(Some(60));
    clock.update(1_000_000_000);
    // 1e9 / 60 = 16_666_666 ns per frame.
    assert_eq!(clock.end_frame(1_000_000_000), 16_666_666);
    assert_eq!(clock.end_frame(1_004_000_000), 12_666_666);
    assert_eq!(clock.end_frame(1_016_666_665), 1);
    assert_eq!(clock.end_frame(1_016_666_666), 0);
    assert_eq!(clock.end_frame(2_000_000_000), 0);
}

#[test]
fn end_frame_before_the_frame_began_waits_the_whole_interval() {
    let mut clock = Clock::new(Some(4));
    clock.update(500);
    assert_eq!(clock.end_frame(100), NANOS_PER_SECOND / 4);
}

#[test]
fn end_frame_before_any_tick_does_not_wait() {
    let clock = Clock::new(Some(30));
    assert_eq!(clock.end_frame(0), 0);
    assert_eq!(clock.end_frame(123), 0);
}

#[test]
fn ceiling_of_zero_frames_is_no_ceiling() {
    let mut clock = Clock::new(Some(0));
    clock.update(10);
    assert_eq!(clock.end_frame(10), 0);
}

#[test]
fn ceiling_above_a_frame_per_nanosecond_never_waits() {
    let mut clock = Clock::new(Some(u32::MAX));
    clock.update(10);
    assert_eq!(clock.end_frame(10), 0);
    let mut one = Clock::new(Some(1));
    one.update(0);
    assert_eq!(one.end_frame(1), NANOS_PER_SECOND - 1);
}
