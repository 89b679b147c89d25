//! The process-wide "current frame UI handle" slot.
//!
//! `begin_frame` publishes the active frame's UI-building handle,
//! `end_frame` withdraws it, and `with_current` lets arbitrary,
//! uncoordinated call sites build UI in between: the callback runs if
//! and only if a handle is currently published, and only on that
//! handle, which does not outlive the invocation. Nested or overlapping
//! frames are detected and rejected rather than overwritten.

use vstd::prelude::*;

verus! {

/// A non-owning, strictly frame-scoped token for the UI context's
/// build interface, tagged with the frame it belongs to.
#[derive(Clone, Copy, Debug, PartialEq, Eq, Structural)]
pub struct FrameHandle {
    pub frame: u64,
}

/// A detected violation of the one-begin-one-end-per-frame discipline.
#[derive(Clone, Copy, Debug, PartialEq, Eq, Structural)]
pub enum FrameError {
    /// A frame was begun while the previous one was still open.
    AlreadyInFrame,
    /// A frame was ended or finalized while none was open.
    NotInFrame,
}

/// Single-writer slot holding the active frame's handle, if any.
pub struct FrameHandleSlot {
    current: Option<FrameHandle>,
}

impl FrameHandleSlot {
    /// The handle published for the frame in progress, or `None`
    /// outside every frame window.
    pub closed spec fn current_handle(self) -> Option<FrameHandle> {
        self.current
    }

    /// The slot starts absent: before the first frame, building is a
    /// no-op.
    pub fn new() -> (r: FrameHandleSlot)
        ensures
            r.current_handle() is None,
    {
        FrameHandleSlot { current: None }
    }

    /// Publishes the frame's handle. Beginning a frame while another
    /// is open is rejected, and the already-published handle is kept:
    /// last-write-wins is not allowed.
    pub fn begin_frame(&mut self, h: FrameHandle) -> (r: Result<(), FrameError>)
        ensures
            r is Ok <==> old(self).current_handle() is None,
            r is Ok ==> final(self).current_handle() == Some(h),
            r is Err ==> r == Result::<(), FrameError>::Err(FrameError::AlreadyInFrame)
                && final(self).current_handle() == old(self).current_handle(),
    {
        match self.current {
            Option::None => {
                self.current = Some(h);
                Ok(())
            },
            Option::Some(_) => Err(FrameError::AlreadyInFrame),
        }
    }

    /// Withdraws the handle at the end of the build phase; ending with
    /// no frame open is reported. Either way the slot is left absent.
    pub fn end_frame(&mut self) -> (r: Result<FrameHandle, FrameError>)
        ensures
            final(self).current_handle() is None,
            r is Ok <==> old(self).current_handle() is Some,
            old(self).current_handle() matches Some(h) ==> r == Result::<
                FrameHandle,
                FrameError,
            >::Ok(h),
            r is Err ==> r == Result::<FrameHandle, FrameError>::Err(FrameError::NotInFrame),
    {
        match self.current {
            Option::Some(h) => {
                self.current = None;
                Ok(h)
            },
            Option::None => Err(FrameError::NotInFrame),
        }
    }

    /// Law: the callback runs if and only if the call lands between a
    /// frame's begin and its end — outside every frame window it is a
    /// silent no-op — and when it runs, it runs exactly on the
    /// published handle, which is not retained past the invocation.
    pub fn with_current<F: FnOnce(FrameHandle)>(&self, f: F) -> (called: bool)
        requires
            self.current_handle() matches Some(h) ==> call_requires(f, (h,)),
        ensures
            called <==> self.current_handle() is Some,
            self.current_handle() matches Some(h) ==> call_ensures(f, (h,), ()),
    {
        match self.current {
            Option::Some(h) => {
                f(h);
                true
            },
            Option::None => false,
        }
    }
}

/// Runs a UI-building callback against the currently published frame
/// handle, if one is published; a silent no-op otherwise, so callers
/// stay simple even when the UI is disabled.
pub fn with<F: FnOnce(FrameHandle)>(slot: &FrameHandleSlot, f: F) -> (called: bool)
    requires
        slot.current_handle() matches Some(h) ==> call_requires(f, (h,)),
    ensures
        called <==> slot.current_handle() is Some,
        slot.current_handle() matches Some(h) ==> call_ensures(f, (h,), ()),
{
    slot.with_current(f)
}

/// The currently published frame handle, if any: `Some` exactly
/// between a frame's begin and its end.
pub fn current_ui(slot: &FrameHandleSlot) -> (r: Option<FrameHandle>)
    ensures
        r == slot.current_handle(),
{
    slot.current
}

} // verus!
