use vkbase::frame::FrameCounter;

#[test]
fn counter_starts_at_slot_zero() {
    let counter = FrameCounter::new(3);
    assert_eq!(counter.frame_count, 3);
    assert_eq!(counter.current_frame(), 0);
}

#[test]
fn counter_slot_equals_completed_frames_mod_count() {
    let mut counter = FrameCounter::new(3);
    let mut completed: usize = 0;
    for _ in 0..7 {
        counter.next_frame();
        completed += 1;
        assert_eq!(counter.current_frame(), completed % 3);
    }
    assert_eq!(counter.current_frame(), 1);
}

#[test]
fn counter_wraps_without_skipping() {
    let mut counter = FrameCounter::new(2);
    assert_eq!(counter.current_frame(), 0);
    counter.next_frame();
    assert_eq!(counter.current_frame(), 1);
    counter.next_frame();
    assert_eq!(counter.current_frame(), 0);
    counter.next_frame();
    assert_eq!(counter.current_frame(), 1);
}

#[test]
fn counter_single_slot_stays_at_zero() {
    let mut counter = FrameCounter::new(1);
    for _ in 0..5 {
        counter.next_frame();
        assert_eq!(counter.current_frame(), 0);
    }
}
