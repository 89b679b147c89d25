use amethyst_imgui::input::{classify_batch, CaptureFlags, FilteredInputEvent, InputEvent};

fn flags(wants_mouse: bool, wants_keyboard: bool) -> CaptureFlags {
    CaptureFlags { wants_mouse, wants_keyboard }
}

fn payloads(out: &[FilteredInputEvent]) -> Vec<InputEvent> {
    out.iter().map(|f| f.0).collect()
}

#[test]
fn scenario_mouse_captured_keyboard_free() {
    // Batch [MouseMoved, KeyPressed('a'), Custom] with wants_mouse and
    // not wants_keyboard: filtered output is [KeyPressed('a'), Custom].
    let batch = vec![
        InputEvent::MouseMoved { x: 3, y: 4 },
        InputEvent::KeyPressed('a'),
        InputEvent::Custom(7),
    ];
    let out = classify_batch(flags(true, false), &batch);
    assert_eq!(payloads(&out), vec![InputEvent::KeyPressed('a'), InputEvent::Custom(7)]);
}

#[test]
fn mouse_events_all_dropped_when_captured() {
    let batch = vec![
        InputEvent::MouseMoved { x: 0, y: 0 },
        InputEvent::MouseButtonPressed(1),
        InputEvent::MouseButtonReleased(1),
        InputEvent::MouseWheelMoved(-2),
    ];
    let out = classify_batch(flags(true, false), &batch);
    assert!(out.is_empty());
}

#[test]
fn mouse_events_all_forwarded_in_order_when_free() {
    let batch = vec![
        InputEvent::MouseButtonPressed(2),
        InputEvent::MouseMoved { x: 1, y: 1 },
        InputEvent::MouseWheelMoved(5),
        InputEvent::MouseButtonReleased(2),
    ];
    let out = classify_batch(flags(false, true), &batch);
    assert_eq!(payloads(&out), batch);
}

#[test]
fn keyboard_events_dropped_only_when_captured() {
    let batch = vec![InputEvent::KeyPressed('q'), InputEvent::KeyReleased('q')];
    let captured = classify_batch(flags(false, true), &batch);
    assert!(captured.is_empty());
    let free = classify_batch(flags(false, false), &batch);
    assert_eq!(payloads(&free), batch);
}

#[test]
fn other_events_forwarded_even_when_everything_is_captured() {
    let batch = vec![
        InputEvent::Custom(1),
        InputEvent::MouseMoved { x: 9, y: 9 },
        InputEvent::Custom(2),
        InputEvent::KeyPressed('x'),
        InputEvent::Custom(3),
    ];
    let out = classify_batch(flags(true, true), &batch);
    assert_eq!(
        payloads(&out),
        vec![InputEvent::Custom(1), InputEvent::Custom(2), InputEvent::Custom(3)]
    );
}

#[test]
fn forwarding_preserves_relative_order_across_classes() {
    let batch = vec![
        InputEvent::Custom(10),
        InputEvent::KeyPressed('k'),
        InputEvent::MouseMoved { x: 1, y: 2 },
        InputEvent::Custom(11),
        InputEvent::KeyReleased('k'),
    ];
    let out = classify_batch(flags(true, false), &batch);
    assert_eq!(
        payloads(&out),
        vec![
            InputEvent::Custom(10),
            InputEvent::KeyPressed('k'),
            InputEvent::Custom(11),
            InputEvent::KeyReleased('k'),
        ]
    );
}

#[test]
fn empty_batch_yields_empty_output() {
    let out = classify_batch(flags(false, false), &Vec::new());
    assert!(out.is_empty());
}
