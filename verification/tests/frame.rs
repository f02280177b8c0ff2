use nova_ge::frame::{
    AcquireOutcome, AcquireStep, FrameStart, FrameState, PresentOutcome, PresentStep,
    MAX_FRAMES_IN_FLIGHT,
};

#[test]
fn new_pacer_starts_in_slot_zero() {
    let s = FrameState::new();
    assert_eq!(s.current_frame(), 0);
    assert!(!s.needs_recreate());
}

#[test]
fn empty_window_is_skipped() {
    let mut s = FrameState::new();
    s.request_resize();
    assert_eq!(s.begin_frame(0, 600), FrameStart::Skip);
    assert_eq!(s.begin_frame(800, 0), FrameStart::Skip);
    assert!(s.needs_recreate());
    assert_eq!(s.current_frame(), 0);
}

#[test]
fn normal_frame_renders_in_current_slot() {
    let mut s = FrameState::new();
    assert_eq!(s.begin_frame(800, 600), FrameStart::Render { frame: 0 });
    assert_eq!(
        s.after_acquire(AcquireOutcome::Acquired { image_index: 2, suboptimal: false }),
        AcquireStep::Record { frame: 0, image_index: 2 }
    );
    assert!(!s.needs_recreate());
    assert_eq!(s.after_present(PresentOutcome::Presented), PresentStep::Continue);
    assert_eq!(s.current_frame(), 1);
    assert_eq!(s.begin_frame(800, 600), FrameStart::Render { frame: 1 });
}

#[test]
fn slots_cycle_through_frames_in_flight() {
    let mut s = FrameState::new();
    for round in 0..5usize {
        assert_eq!(s.current_frame(), round % MAX_FRAMES_IN_FLIGHT);
        assert_eq!(s.after_present(PresentOutcome::Presented), PresentStep::Continue);
    }
    assert_eq!(s.current_frame(), 1);
    assert_eq!(s.after_present(PresentOutcome::Suboptimal), PresentStep::Continue);
    assert_eq!(s.after_present(PresentOutcome::OutOfDate), PresentStep::Continue);
    assert_eq!(s.current_frame(), 1);
}

#[test]
fn suboptimal_image_is_still_recorded_then_rebuilt() {
    let mut s = FrameState::new();
    assert_eq!(
        s.after_acquire(AcquireOutcome::Acquired { image_index: 0, suboptimal: true }),
        AcquireStep::Record { frame: 0, image_index: 0 }
    );
    assert!(s.needs_recreate());
    s.after_present(PresentOutcome::Presented);
    assert_eq!(s.begin_frame(10, 10), FrameStart::RecreateSwapchain);
    assert!(!s.needs_recreate());
    assert_eq!(s.begin_frame(10, 10), FrameStart::Render { frame: 1 });
}

#[test]
fn out_of_date_image_abandons_frame() {
    let mut s = FrameState::new();
    assert_eq!(s.after_acquire(AcquireOutcome::OutOfDate), AcquireStep::Abandon);
    assert!(s.needs_recreate());
    assert_eq!(s.current_frame(), 0);
}

#[test]
fn failed_acquire_or_present_is_fatal_and_changes_nothing() {
    let mut s = FrameState::new();
    assert_eq!(s.after_acquire(AcquireOutcome::Failed), AcquireStep::Fatal);
    assert_eq!(s.after_present(PresentOutcome::Failed), PresentStep::Fatal);
    assert_eq!(s.current_frame(), 0);
    assert!(!s.needs_recreate());
}

#[test]
fn out_of_date_present_marks_rebuild_and_advances() {
    let mut s = FrameState::new();
    assert_eq!(s.after_present(PresentOutcome::OutOfDate), PresentStep::Continue);
    assert!(s.needs_recreate());
    assert_eq!(s.current_frame(), 1);
}

#[test]
fn resize_rebuilds_once_on_next_visible_frame() {
    let mut s = FrameState::new();
    s.request_resize();
    assert_eq!(s.begin_frame(0, 0), FrameStart::Skip);
    assert_eq!(s.begin_frame(1024, 768), FrameStart::RecreateSwapchain);
    assert_eq!(s.begin_frame(1024, 768), FrameStart::Render { frame: 0 });
}
