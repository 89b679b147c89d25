use amethyst_imgui::channel::EventChannel;
use amethyst_imgui::config::ConfigFlags;
use amethyst_imgui::frame::FrameError;
use amethyst_imgui::input::{CaptureFlags, InputEvent};
use amethyst_imgui::state::{ImguiState, SharedUiState, TextureHandle, ATLAS_SENTINEL};

#[test]
fn channel_reader_sees_only_events_after_registration_in_order() {
    let mut ch: EventChannel<InputEvent> = EventChannel::new();
    ch.single_write(InputEvent::Custom(0));
    let mut reader = ch.register_reader();
    ch.single_write(InputEvent::Custom(1));
    ch.single_write(InputEvent::Custom(2));
    let batch = ch.read(&mut reader);
    assert_eq!(batch, vec![InputEvent::Custom(1), InputEvent::Custom(2)]);
    // A second read drains nothing new, and the log is not truncated.
    assert!(ch.read(&mut reader).is_empty());
    assert_eq!(ch.len(), 3);
}

#[test]
fn two_readers_have_independent_cursors() {
    let mut ch: EventChannel<InputEvent> = EventChannel::new();
    let mut early = ch.register_reader();
    ch.single_write(InputEvent::Custom(5));
    let mut late = ch.register_reader();
    ch.single_write(InputEvent::Custom(6));
    assert_eq!(ch.read(&mut early), vec![InputEvent::Custom(5), InputEvent::Custom(6)]);
    assert_eq!(ch.read(&mut late), vec![InputEvent::Custom(6)]);
}

#[test]
fn textures_registered_before_setup_stay_present_in_order() {
    let mut state = ImguiState::new(ConfigFlags::empty());
    let t1 = TextureHandle { id: 11 };
    let t2 = TextureHandle { id: 22 };
    let t3 = TextureHandle { id: 33 };
    assert_eq!(state.register_texture(t1), 0);
    assert_eq!(state.register_texture(t2), 1);
    assert_eq!(state.register_texture(t3), 2);

    // Several frame cycles and input phases later, the list is
    // neither reordered nor truncated.
    for _ in 0..3 {
        state.set_capture_flags(CaptureFlags { wants_mouse: true, wants_keyboard: false });
        let h = state.begin_ui_frame().unwrap();
        let draw = state.finalize_ui_frame().unwrap();
        assert_eq!(draw.frame, h.frame);
    }
    assert_eq!(state.texture_count(), 3);
    assert_eq!(state.texture_at(0), t1);
    assert_eq!(state.texture_at(1), t2);
    assert_eq!(state.texture_at(2), t3);
}

#[test]
fn fresh_context_has_expected_setup_state() {
    let state = ImguiState::new(ConfigFlags::from_bits(0b100));
    assert_eq!(state.capture_flags(), CaptureFlags { wants_mouse: false, wants_keyboard: false });
    assert_eq!(state.texture_count(), 0);
    assert_eq!(state.frames_begun(), 0);
    assert!(!state.is_in_frame());
    let _ = ATLAS_SENTINEL;
}

#[test]
fn frame_cycle_is_strict_on_the_context() {
    let mut state = ImguiState::new(ConfigFlags::empty());
    assert_eq!(state.finalize_ui_frame(), Err(FrameError::NotInFrame));
    let h1 = state.begin_ui_frame().unwrap();
    assert_eq!(h1.frame, 1);
    // A nested begin on the context is detected.
    assert_eq!(state.begin_ui_frame(), Err(FrameError::AlreadyInFrame));
    let d1 = state.finalize_ui_frame().unwrap();
    assert_eq!(d1.frame, 1);
    let h2 = state.begin_ui_frame().unwrap();
    assert_eq!(h2.frame, 2);
    let d2 = state.finalize_ui_frame().unwrap();
    assert_eq!(d2.frame, 2);
}

#[test]
fn exclusive_lock_never_admits_two_holders() {
    let mut shared = SharedUiState::new(ImguiState::new(ConfigFlags::empty()));
    assert!(!shared.is_held());
    // First logical operation enters.
    assert!(shared.try_acquire());
    // A second operation cannot enter while the first holds access.
    assert!(!shared.try_acquire());
    assert!(shared.is_held());
    shared.release();
    assert!(!shared.is_held());
    // After the exit, the next operation enters again.
    assert!(shared.try_acquire());
    shared.release();
}

#[test]
fn lock_guards_reads_and_writes_of_the_wrapped_state() {
    let mut shared = SharedUiState::new(ImguiState::new(ConfigFlags::empty()));
    assert!(shared.try_acquire());
    let state = shared.state_mut();
    state.register_texture(TextureHandle { id: 9 });
    state.set_capture_flags(CaptureFlags { wants_mouse: true, wants_keyboard: true });
    assert_eq!(shared.state_ref().texture_count(), 1);
    assert_eq!(
        shared.state_ref().capture_flags(),
        CaptureFlags { wants_mouse: true, wants_keyboard: true }
    );
    shared.release();
    // The wrapped state survives the release untouched.
    assert!(shared.try_acquire());
    assert_eq!(shared.state_ref().texture_count(), 1);
    shared.release();
}

#[test]
fn callback_access_spans_exactly_one_operation() {
    let mut shared = SharedUiState::new(ImguiState::new(ConfigFlags::empty()));
    assert!(!shared.is_held());
    let count = shared.with_exclusive_access(|mut st| {
        st.register_texture(TextureHandle { id: 5 });
        let n = st.texture_count();
        (st, n)
    });
    assert_eq!(count, 1);
    // The lock is free again once the callback has returned, and the
    // operation's effect is in place.
    assert!(!shared.is_held());
    assert!(shared.try_acquire());
    assert_eq!(shared.state_ref().texture_at(0), TextureHandle { id: 5 });
    shared.release();
}
