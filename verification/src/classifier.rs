//! The per-frame input-classification pass.
//!
//! One `InputClassifier` exists per configured input-binding scheme.
//! Each frame it drains the platform event stream and the
//! application input event stream through its own reader cursors,
//! consults the UI's capture flags once per event, and republishes on
//! its own filtered stream exactly the events the UI did not want, in
//! arrival order. Instances for different schemes own disjoint cursors
//! and disjoint output streams, so they cannot contaminate each other.

use crate::channel::EventChannel;
use crate::channel::ReaderId;
use crate::input::CaptureFlags;
use crate::input::FilteredInputEvent;
use crate::input::InputEvent;
use crate::input::event_forwards;
use crate::input::forwarded;
use crate::input::forwards;
use crate::input::lemma_forwarded_push;
use vstd::prelude::*;

verus! {

/// A raw window- or device-level event from the platform backend.
/// The classifier drains these so its cursor stays current; feeding
/// them into the context's platform-integration layer is a pending
/// extension point, so draining does not change the context.
#[derive(Clone, Copy, Debug, PartialEq, Eq, Structural)]
pub struct PlatformEvent {
    pub code: u64,
}

/// One binding scheme's classification pass: private cursors into the
/// raw streams, and a private filtered output stream.
pub struct InputClassifier {
    platform_reader: ReaderId,
    input_reader: ReaderId,
    filtered: EventChannel<FilteredInputEvent>,
}

impl InputClassifier {
    /// Everything this classifier has ever forwarded, in order.
    pub closed spec fn filtered_log(self) -> Seq<FilteredInputEvent> {
        self.filtered@
    }

    /// How far this classifier has read the platform stream.
    pub closed spec fn platform_position(self) -> int {
        self.platform_reader.position()
    }

    /// How far this classifier has read the application input stream.
    pub closed spec fn input_position(self) -> int {
        self.input_reader.position()
    }

    /// The classifier's cursors stay within the streams it reads.
    pub open spec fn wf(
        self,
        platform: EventChannel<PlatformEvent>,
        input: EventChannel<InputEvent>,
    ) -> bool {
        &&& 0 <= self.platform_position() <= platform@.len()
        &&& 0 <= self.input_position() <= input@.len()
    }

    /// Registers this scheme's cursors on the two raw streams; only
    /// events arriving after setup will be classified. The filtered
    /// stream starts empty.
    pub fn new(platform: &EventChannel<PlatformEvent>, input: &EventChannel<InputEvent>) -> (r:
        InputClassifier)
        ensures
            r.wf(*platform, *input),
            r.platform_position() == platform@.len(),
            r.input_position() == input@.len(),
            r.filtered_log() == Seq::<FilteredInputEvent>::empty(),
    {
        InputClassifier {
            platform_reader: platform.register_reader(),
            input_reader: input.register_reader(),
            filtered: EventChannel::new(),
        }
    }

    /// One frame's classification pass. Drains both streams up to
    /// their current ends and appends to the filtered stream exactly
    /// the envelopes of the pending input events the UI did not
    /// capture, in arrival order. The capture flags are read from the
    /// same snapshot for the whole batch, so decisions are stable
    /// within the frame; everything forwarded in earlier frames stays
    /// in place.
    pub fn run_frame(
        &mut self,
        flags: CaptureFlags,
        platform: &EventChannel<PlatformEvent>,
        input: &EventChannel<InputEvent>,
    )
        requires
            old(self).wf(*platform, *input),
        ensures
            final(self).wf(*platform, *input),
            final(self).platform_position() == platform@.len(),
            final(self).input_position() == input@.len(),
            final(self).filtered_log() == old(self).filtered_log() + envelopes(
                forwarded(flags, input@.skip(old(self).input_position())),
            ),
    {
        let _platform_batch = platform.read(&mut self.platform_reader);
        let batch = input.read(&mut self.input_reader);
        let ghost pre = self.filtered@;
        let mut i: usize = 0;
        while i < batch.len()
            invariant
                i <= batch.len(),
                self.filtered@ == pre + envelopes(forwarded(flags, batch@.take(i as int))),
                self.platform_reader.position() == platform@.len(),
                self.input_reader.position() == input@.len(),
            decreases batch.len() - i,
        {
            let e = batch[i];
            proof {
                assert(batch@.take(i + 1) =~= batch@.take(i as int).push(batch@[i as int]));
                lemma_forwarded_push(flags, batch@.take(i as int), batch@[i as int]);
                if forwards(flags, batch@[i as int]) {
                    lemma_envelopes_push(
                        forwarded(flags, batch@.take(i as int)),
                        batch@[i as int],
                    );
                    assert(pre + envelopes(forwarded(flags, batch@.take(i as int))).push(
                        FilteredInputEvent(batch@[i as int]),
                    ) =~= (pre + envelopes(forwarded(flags, batch@.take(i as int)))).push(
                        FilteredInputEvent(batch@[i as int]),
                    ));
                }
            }
            if event_forwards(flags, &e) {
                self.filtered.single_write(FilteredInputEvent(e));
            }
            i += 1;
        }
        proof {
            assert(batch@.take(batch@.len() as int) =~= batch@);
        }
    }

    /// Registers a downstream consumer on this scheme's filtered
    /// stream.
    pub fn register_filtered_reader(&self) -> (r: ReaderId)
        ensures
            r.position() == self.filtered_log().len(),
    {
        self.filtered.register_reader()
    }

    /// Drains, for one consumer, the filtered events it has not seen
    /// yet, exactly as it would read the raw stream.
    pub fn read_filtered(&self, reader: &mut ReaderId) -> (out: Vec<FilteredInputEvent>)
        requires
            old(reader).position() <= self.filtered_log().len(),
        ensures
            out@ == self.filtered_log().skip(old(reader).position()),
            final(reader).position() == self.filtered_log().len(),
    {
        self.filtered.read(reader)
    }

    /// How many events this classifier has forwarded in all.
    pub fn filtered_len(&self) -> (n: usize)
        ensures
            n == self.filtered_log().len(),
    {
        self.filtered.len()
    }
}

/// Each event of a batch wrapped in its forwarding envelope, in order.
pub open spec fn envelopes(events: Seq<InputEvent>) -> Seq<FilteredInputEvent>
    decreases events.len(),
{
    if events.len() == 0 {
        Seq::empty()
    } else {
        envelopes(events.drop_last()).push(FilteredInputEvent(events.last()))
    }
}

pub proof fn lemma_envelopes_push(events: Seq<InputEvent>, e: InputEvent)
    ensures
        envelopes(events.push(e)) == envelopes(events).push(FilteredInputEvent(e)),
{
    assert(events.push(e).drop_last() =~= events);
    assert(events.push(e).last() == e);
}

} // verus!
