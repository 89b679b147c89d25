//! Input events, capture flags, and the per-event classification rule.
//!
//! The UI reports, once per frame, whether it wants to capture mouse and
//! keyboard input. Classification forwards to the application exactly the
//! events of the classes the UI did not claim, in their original order.

use vstd::prelude::*;

verus! {

/// An application-level input event, as the platform layer delivers it.
///
/// Mouse coordinates and wheel deltas are carried in device units; key
/// events carry the pressed character; `Custom` stands for every event
/// kind the UI never captures (actions, axes, and the like).
#[derive(Clone, Copy, Debug, PartialEq, Eq, Structural)]
pub enum InputEvent {
    MouseMoved { x: i64, y: i64 },
    MouseButtonPressed(u32),
    MouseButtonReleased(u32),
    MouseWheelMoved(i64),
    KeyPressed(char),
    KeyReleased(char),
    Custom(u64),
}

/// A forwarding envelope around an event the UI did not capture.
#[derive(Clone, Copy, Debug, PartialEq, Eq, Structural)]
pub struct FilteredInputEvent(pub InputEvent);

/// The UI's self-reported claim on mouse and keyboard input for the
/// current frame, snapshotted once per classification batch.
#[derive(Clone, Copy, Debug, PartialEq, Eq, Structural)]
pub struct CaptureFlags {
    pub wants_mouse: bool,
    pub wants_keyboard: bool,
}

/// The three classes the classification rule distinguishes.
#[derive(Clone, Copy, Debug, PartialEq, Eq, Structural)]
pub enum EventClass {
    MouseClass,
    KeyboardClass,
    OtherClass,
}

pub open spec fn is_mouse_event(e: InputEvent) -> bool {
    ||| e is MouseMoved
    ||| e is MouseButtonPressed
    ||| e is MouseButtonReleased
    ||| e is MouseWheelMoved
}

pub open spec fn is_keyboard_event(e: InputEvent) -> bool {
    e is KeyPressed || e is KeyReleased
}

pub open spec fn class_of(e: InputEvent) -> EventClass {
    if is_mouse_event(e) {
        EventClass::MouseClass
    } else if is_keyboard_event(e) {
        EventClass::KeyboardClass
    } else {
        EventClass::OtherClass
    }
}

/// Whether the UI claims a whole class of events under the given flags.
/// Classes other than mouse and keyboard are never claimed.
pub open spec fn class_captured(flags: CaptureFlags, c: EventClass) -> bool {
    match c {
        EventClass::MouseClass => flags.wants_mouse,
        EventClass::KeyboardClass => flags.wants_keyboard,
        EventClass::OtherClass => false,
    }
}

/// The classification rule for one event: forwarded exactly when its
/// class is not captured.
pub open spec fn forwards(flags: CaptureFlags, e: InputEvent) -> bool {
    !class_captured(flags, class_of(e))
}

/// The events of a batch that classification forwards, in their
/// original order.
pub open spec fn forwarded(flags: CaptureFlags, events: Seq<InputEvent>) -> Seq<InputEvent>
    decreases events.len(),
{
    if events.len() == 0 {
        Seq::empty()
    } else {
        let rest = forwarded(flags, events.drop_last());
        if forwards(flags, events.last()) {
            rest.push(events.last())
        } else {
            rest
        }
    }
}

/// The subsequence of a batch that belongs to one event class, in order.
pub open spec fn events_of_class(c: EventClass, events: Seq<InputEvent>) -> Seq<InputEvent>
    decreases events.len(),
{
    if events.len() == 0 {
        Seq::empty()
    } else {
        let rest = events_of_class(c, events.drop_last());
        if class_of(events.last()) == c {
            rest.push(events.last())
        } else {
            rest
        }
    }
}

pub proof fn lemma_forwarded_push(flags: CaptureFlags, events: Seq<InputEvent>, e: InputEvent)
    ensures
        forwarded(flags, events.push(e)) == if forwards(flags, e) {
            forwarded(flags, events).push(e)
        } else {
            forwarded(flags, events)
        },
{
    assert(events.push(e).drop_last() =~= events);
    assert(events.push(e).last() == e);
}

pub proof fn lemma_events_of_class_push(c: EventClass, events: Seq<InputEvent>, e: InputEvent)
    ensures
        events_of_class(c, events.push(e)) == if class_of(e) == c {
            events_of_class(c, events).push(e)
        } else {
            events_of_class(c, events)
        },
{
    assert(events.push(e).drop_last() =~= events);
    assert(events.push(e).last() == e);
}

/// Law: no event of a captured class is ever forwarded. In particular,
/// with `wants_mouse` (resp. `wants_keyboard`) set, the filtered stream
/// holds no mouse-class (resp. keyboard-class) event at all.
pub proof fn lemma_captured_class_not_forwarded(
    flags: CaptureFlags,
    events: Seq<InputEvent>,
    c: EventClass,
)
    requires
        class_captured(flags, c),
    ensures
        events_of_class(c, forwarded(flags, events)) == Seq::<InputEvent>::empty(),
    decreases events.len(),
{
    if events.len() > 0 {
        let prefix = events.drop_last();
        let e = events.last();
        lemma_captured_class_not_forwarded(flags, prefix, c);
        if forwards(flags, e) {
            lemma_events_of_class_push(c, forwarded(flags, prefix), e);
        }
    }
}

/// Law: every event of an uncaptured class is forwarded exactly once,
/// and the forwarded stream keeps such events in their original order:
/// the class's subsequence of the filtered stream equals the class's
/// subsequence of the raw batch. Event kinds the UI never captures
/// (`OtherClass`) satisfy the premise under every flag setting, so they
/// always pass through unconditionally.
pub proof fn lemma_uncaptured_class_preserved(
    flags: CaptureFlags,
    events: Seq<InputEvent>,
    c: EventClass,
)
    requires
        !class_captured(flags, c),
    ensures
        events_of_class(c, forwarded(flags, events)) == events_of_class(c, events),
    decreases events.len(),
{
    if events.len() > 0 {
        let prefix = events.drop_last();
        let e = events.last();
        lemma_uncaptured_class_preserved(flags, prefix, c);
        if forwards(flags, e) {
            lemma_events_of_class_push(c, forwarded(flags, prefix), e);
        }
    }
}

/// One event's classification, as executable code.
pub fn event_forwards(flags: CaptureFlags, e: &InputEvent) -> (r: bool)
    ensures
        r == forwards(flags, *e),
{
    match e {
        InputEvent::MouseMoved { .. }
        | InputEvent::MouseButtonPressed(_)
        | InputEvent::MouseButtonReleased(_)
        | InputEvent::MouseWheelMoved(_) => !flags.wants_mouse,
        InputEvent::KeyPressed(_) | InputEvent::KeyReleased(_) => !flags.wants_keyboard,
        InputEvent::Custom(_) => true,
    }
}

/// Classifies one frame's input batch against a capture-flag snapshot,
/// wrapping each forwarded event in its envelope. Flags are read once
/// per event from the same snapshot, so decisions are stable across the
/// batch.
pub fn classify_batch(flags: CaptureFlags, events: &Vec<InputEvent>) -> (out: Vec<
    FilteredInputEvent,
>)
    ensures
        payloads(out@) == forwarded(flags, events@),
{
    let mut out: Vec<FilteredInputEvent> = Vec::new();
    let mut i: usize = 0;
    while i < events.len()
        invariant
            i <= events.len(),
            payloads(out@) == forwarded(flags, events@.take(i as int)),
        decreases events.len() - i,
    {
        let e = events[i];
        proof {
            assert(events@.take(i + 1) =~= events@.take(i as int).push(events@[i as int]));
            lemma_forwarded_push(flags, events@.take(i as int), events@[i as int]);
        }
        if event_forwards(flags, &e) {
            proof {
                lemma_payloads_push(out@, FilteredInputEvent(e));
            }
            out.push(FilteredInputEvent(e));
        }
        i += 1;
    }
    proof {
        assert(events@.take(events@.len() as int) =~= events@);
    }
    out
}

/// The raw events inside a sequence of forwarding envelopes, in order.
pub open spec fn payloads(s: Seq<FilteredInputEvent>) -> Seq<InputEvent>
    decreases s.len(),
{
    if s.len() == 0 {
        Seq::empty()
    } else {
        payloads(s.drop_last()).push(s.last().0)
    }
}

pub proof fn lemma_payloads_push(s: Seq<FilteredInputEvent>, f: FilteredInputEvent)
    ensures
        payloads(s.push(f)) == payloads(s).push(f.0),
{
    assert(s.push(f).drop_last() =~= s);
    assert(s.push(f).last() == f);
}

} // verus!
