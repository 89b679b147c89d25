use amethyst_imgui::config::ConfigFlags;
use amethyst_imgui::frame::{current_ui, with, FrameError, FrameHandle, FrameHandleSlot};
use amethyst_imgui::state::ImguiState;

#[test]
fn with_is_a_no_op_before_the_first_frame() {
    let slot = FrameHandleSlot::new();
    let mut ran = false;
    let called = with(&slot, |_h| ran = true);
    assert!(!called);
    assert!(!ran);
    assert_eq!(current_ui(&slot), None);
}

#[test]
fn with_invokes_exactly_between_begin_and_end() {
    let mut slot = FrameHandleSlot::new();
    let h = FrameHandle { frame: 1 };
    assert!(slot.begin_frame(h).is_ok());

    let mut seen = None;
    let called = slot.with_current(|got| seen = Some(got));
    assert!(called);
    assert_eq!(seen, Some(h));
    assert_eq!(current_ui(&slot), Some(h));

    assert_eq!(slot.end_frame(), Ok(h));

    let mut ran_after = false;
    let called_after = with(&slot, |_h| ran_after = true);
    assert!(!called_after);
    assert!(!ran_after);
    assert_eq!(current_ui(&slot), None);
}

#[test]
fn scenario_nested_begin_is_rejected_not_overwritten() {
    // begin_frame(h1) then begin_frame(h2) without an intervening
    // end_frame: the second begin is a detected usage violation and
    // the first handle stays published.
    let mut slot = FrameHandleSlot::new();
    let h1 = FrameHandle { frame: 1 };
    let h2 = FrameHandle { frame: 2 };
    assert_eq!(slot.begin_frame(h1), Ok(()));
    assert_eq!(slot.begin_frame(h2), Err(FrameError::AlreadyInFrame));
    assert_eq!(current_ui(&slot), Some(h1));
}

#[test]
fn end_without_begin_is_detected_and_leaves_slot_absent() {
    let mut slot = FrameHandleSlot::new();
    assert_eq!(slot.end_frame(), Err(FrameError::NotInFrame));
    assert_eq!(current_ui(&slot), None);
}

#[test]
fn slot_works_across_several_frames() {
    let mut slot = FrameHandleSlot::new();
    let mut invocations = 0;
    for frame in 1..4u64 {
        let h = FrameHandle { frame };
        assert!(slot.begin_frame(h).is_ok());
        with(&slot, |got| {
            assert_eq!(got.frame, frame);
            invocations += 1;
        });
        assert_eq!(slot.end_frame(), Ok(h));
    }
    assert_eq!(invocations, 3);
    let called = with(&slot, |_h| ());
    assert!(!called);
}

#[test]
fn slot_publishes_the_handle_of_the_open_context_frame() {
    let mut state = ImguiState::new(ConfigFlags::empty());
    let mut slot = FrameHandleSlot::new();
    for _ in 0..2 {
        let handle = state.begin_ui_frame().unwrap();
        slot.begin_frame(handle).unwrap();
        let mut seen = None;
        let called = with(&slot, |h| seen = Some(h));
        assert!(called);
        assert_eq!(seen, Some(handle));
        let draw = state.finalize_ui_frame().unwrap();
        assert_eq!(draw.frame, handle.frame);
        assert_eq!(slot.end_frame(), Ok(handle));
        assert_eq!(current_ui(&slot), None);
    }
}
