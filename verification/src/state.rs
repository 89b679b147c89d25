//! The single shared UI context, its texture handle list, and the
//! exclusive-access discipline around them.
//!
//! `UiContext` models the UI library's per-frame observable state:
//! configuration flags, the capture flags recomputed during the input
//! phase, the font-atlas texture id, and the strict
//! input/build/finalize frame cycle. `ImguiState` owns the context
//! together with the session's append-only texture handle list, and
//! `SharedUiState` serializes access to it across pipeline phases.

use crate::config::ConfigFlags;
use crate::frame::FrameError;
use crate::frame::FrameHandle;
use crate::input::CaptureFlags;
use vstd::prelude::*;

verus! {

/// An opaque reference into the host's asset system.
#[derive(Clone, Copy, Debug, PartialEq, Eq, Structural)]
pub struct TextureHandle {
    pub id: u64,
}

/// Finalized, immutable draw output of one frame's build phase.
#[derive(Clone, Copy, Debug, PartialEq, Eq, Structural)]
pub struct DrawData {
    /// The frame whose build phase produced this output.
    pub frame: u64,
}

/// The observable state of the UI context.
pub ghost struct UiContextModel {
    pub config: ConfigFlags,
    pub capture: CaptureFlags,
    /// Asset id the font atlas was bound to at setup.
    pub atlas_texture_id: u64,
    /// How many frames have been begun so far.
    pub frames_begun: u64,
    /// Whether a build phase is currently open.
    pub in_frame: bool,
}

/// The UI library's mutable context: exactly one instance exists per
/// running application, created once at setup and advanced every frame
/// by the input phase, the build phase, and finalize, in that order.
pub struct UiContext {
    config: ConfigFlags,
    capture: CaptureFlags,
    atlas_texture_id: u64,
    frames_begun: u64,
    in_frame: bool,
}

impl View for UiContext {
    type V = UiContextModel;

    closed spec fn view(&self) -> UiContextModel {
        UiContextModel {
            config: self.config,
            capture: self.capture,
            atlas_texture_id: self.atlas_texture_id,
            frames_begun: self.frames_begun,
            in_frame: self.in_frame,
        }
    }
}

/// The sentinel asset id the font atlas is bound to at setup, before
/// the host's texture setup rebinds it.
pub const ATLAS_SENTINEL: u64 = 0xFFFF_FFFF_FFFF_FFFF;

impl UiContext {
    /// A fresh context: requested feature flags applied, nothing
    /// captured, the font atlas bound to the sentinel id, and no frame
    /// open.
    pub fn new(config: ConfigFlags) -> (r: UiContext)
        ensures
            r@ == (UiContextModel {
                config,
                capture: CaptureFlags { wants_mouse: false, wants_keyboard: false },
                atlas_texture_id: ATLAS_SENTINEL,
                frames_begun: 0,
                in_frame: false,
            }),
    {
        UiContext {
            config,
            capture: CaptureFlags { wants_mouse: false, wants_keyboard: false },
            atlas_texture_id: ATLAS_SENTINEL,
            frames_begun: 0,
            in_frame: false,
        }
    }

    /// The capture snapshot the classifier consults, one read per
    /// event, stable until the next input phase rewrites it.
    pub fn capture_flags(&self) -> (r: CaptureFlags)
        ensures
            r == self@.capture,
    {
        self.capture
    }

    /// The input phase's update of the context's input model: installs
    /// the capture flags recomputed from the accumulated raw input.
    /// Nothing else of the context changes.
    pub fn set_capture_flags(&mut self, flags: CaptureFlags)
        ensures
            final(self)@ == (UiContextModel { capture: flags, ..old(self)@ }),
    {
        self.capture = flags;
    }

    pub fn config_flags(&self) -> (r: ConfigFlags)
        ensures
            r == self@.config,
    {
        self.config
    }

    pub fn frames_begun(&self) -> (n: u64)
        ensures
            n == self@.frames_begun,
    {
        self.frames_begun
    }

    pub fn is_in_frame(&self) -> (b: bool)
        ensures
            b == self@.in_frame,
    {
        self.in_frame
    }

    /// Opens the build phase and hands out the frame's handle.
    /// Beginning a frame while one is open is detected and changes
    /// nothing.
    pub fn new_frame(&mut self) -> (r: Result<FrameHandle, FrameError>)
        requires
            old(self)@.frames_begun < u64::MAX,
        ensures
            r is Ok <==> !old(self)@.in_frame,
            r matches Ok(h) ==> h.frame == old(self)@.frames_begun + 1 && final(self)@ == (
            UiContextModel {
                frames_begun: (old(self)@.frames_begun + 1) as u64,
                in_frame: true,
                ..old(self)@
            }),
            r is Err ==> r == Result::<FrameHandle, FrameError>::Err(FrameError::AlreadyInFrame)
                && final(self)@ == old(self)@,
    {
        if self.in_frame {
            Err(FrameError::AlreadyInFrame)
        } else {
            self.frames_begun = self.frames_begun + 1;
            self.in_frame = true;
            Ok(FrameHandle { frame: self.frames_begun })
        }
    }

    /// Closes the build phase and produces the frame's immutable draw
    /// output; until the next `new_frame` the context only serves
    /// reads. Finalizing with no frame open is detected and changes
    /// nothing.
    pub fn finalize_frame(&mut self) -> (r: Result<DrawData, FrameError>)
        ensures
            r is Ok <==> old(self)@.in_frame,
            r matches Ok(d) ==> d.frame == old(self)@.frames_begun && final(self)@ == (
            UiContextModel { in_frame: false, ..old(self)@ }),
            r is Err ==> r == Result::<DrawData, FrameError>::Err(FrameError::NotInFrame) && final(self)@ == old(self)@,
    {
        if self.in_frame {
            self.in_frame = false;
            Ok(DrawData { frame: self.frames_begun })
        } else {
            Err(FrameError::NotInFrame)
        }
    }
}

/// The observable state of `ImguiState`.
pub ghost struct UiStateModel {
    pub context: UiContextModel,
    pub textures: Seq<TextureHandle>,
}

/// The single UI context instance together with the session's
/// registered texture handles, ordered and append-only.
pub struct ImguiState {
    context: UiContext,
    textures: Vec<TextureHandle>,
}

impl View for ImguiState {
    type V = UiStateModel;

    closed spec fn view(&self) -> UiStateModel {
        UiStateModel { context: self.context@, textures: self.textures@ }
    }
}

impl ImguiState {
    pub fn new(config: ConfigFlags) -> (r: ImguiState)
        ensures
            r@.context == (UiContextModel {
                config,
                capture: CaptureFlags { wants_mouse: false, wants_keyboard: false },
                atlas_texture_id: ATLAS_SENTINEL,
                frames_begun: 0,
                in_frame: false,
            }),
            r@.textures == Seq::<TextureHandle>::empty(),
    {
        ImguiState { context: UiContext::new(config), textures: Vec::new() }
    }

    /// Appends one externally-owned handle at the end of the list and
    /// reports its position. Registration never reorders or drops what
    /// was registered before, and leaves the context untouched.
    pub fn register_texture(&mut self, t: TextureHandle) -> (idx: usize)
        ensures
            final(self)@ == (UiStateModel {
                textures: old(self)@.textures.push(t),
                ..old(self)@
            }),
            idx == old(self)@.textures.len(),
    {
        let idx = self.textures.len();
        self.textures.push(t);
        idx
    }

    pub fn texture_count(&self) -> (n: usize)
        ensures
            n == self@.textures.len(),
    {
        self.textures.len()
    }

    pub fn texture_at(&self, i: usize) -> (t: TextureHandle)
        requires
            i < self@.textures.len(),
        ensures
            t == self@.textures[i as int],
    {
        self.textures[i]
    }

    pub fn capture_flags(&self) -> (r: CaptureFlags)
        ensures
            r == self@.context.capture,
    {
        self.context.capture_flags()
    }

    /// See [`UiContext::set_capture_flags`]; the texture list is kept
    /// as it was.
    pub fn set_capture_flags(&mut self, flags: CaptureFlags)
        ensures
            final(self)@ == (UiStateModel {
                context: (UiContextModel { capture: flags, ..old(self)@.context }),
                ..old(self)@
            }),
    {
        self.context.set_capture_flags(flags);
    }

    /// See [`UiContext::new_frame`]; the texture list is kept as it
    /// was.
    pub fn begin_ui_frame(&mut self) -> (r: Result<FrameHandle, FrameError>)
        requires
            old(self)@.context.frames_begun < u64::MAX,
        ensures
            final(self)@.textures == old(self)@.textures,
            r is Ok <==> !old(self)@.context.in_frame,
            r matches Ok(h) ==> h.frame == old(self)@.context.frames_begun + 1 && final(self)@.context == (UiContextModel {
                frames_begun: (old(self)@.context.frames_begun + 1) as u64,
                in_frame: true,
                ..old(self)@.context
            }),
            r is Err ==> r == Result::<FrameHandle, FrameError>::Err(FrameError::AlreadyInFrame)
                && final(self)@ == old(self)@,
    {
        self.context.new_frame()
    }

    /// See [`UiContext::finalize_frame`]; the texture list is kept as
    /// it was.
    pub fn finalize_ui_frame(&mut self) -> (r: Result<DrawData, FrameError>)
        ensures
            final(self)@.textures == old(self)@.textures,
            r is Ok <==> old(self)@.context.in_frame,
            r matches Ok(d) ==> d.frame == old(self)@.context.frames_begun && final(self)@.context == (UiContextModel { in_frame: false, ..old(self)@.context }),
            r is Err ==> r == Result::<DrawData, FrameError>::Err(FrameError::NotInFrame) && final(self)@ == old(self)@,
    {
        self.context.finalize_frame()
    }

    pub fn is_in_frame(&self) -> (b: bool)
        ensures
            b == self@.context.in_frame,
    {
        self.context.is_in_frame()
    }

    pub fn frames_begun(&self) -> (n: u64)
        ensures
            n == self@.context.frames_begun,
    {
        self.context.frames_begun()
    }
}

/// Registering a batch of handles one after another, as
/// [`ImguiState::register_texture`] does.
pub open spec fn register_all(
    initial: Seq<TextureHandle>,
    batch: Seq<TextureHandle>,
) -> Seq<TextureHandle>
    decreases batch.len(),
{
    if batch.len() == 0 {
        initial
    } else {
        register_all(initial, batch.drop_last()).push(batch.last())
    }
}

/// Law: handles registered one at a time are all present afterwards,
/// in registration order, after everything registered before them —
/// the list is never reordered or truncated by registration, and the
/// frame-cycle operations leave it untouched altogether.
pub proof fn lemma_registration_keeps_all_in_order(
    initial: Seq<TextureHandle>,
    batch: Seq<TextureHandle>,
)
    ensures
        register_all(initial, batch) == initial + batch,
    decreases batch.len(),
{
    if batch.len() == 0 {
        assert(register_all(initial, batch) =~= initial + batch);
    } else {
        lemma_registration_keeps_all_in_order(initial, batch.drop_last());
        assert((initial + batch.drop_last()).push(batch.last()) =~= initial + batch);
    }
}

/// The observable state of `SharedUiState`.
pub ghost struct SharedUiStateModel {
    pub state: UiStateModel,
    pub held: bool,
}

/// Serializes access to the one `ImguiState` instance across pipeline
/// phases: the input pass mutates it, the render pass reads it,
/// possibly from a different worker each frame, but never two holders
/// at once. Callers acquire, work through `state_mut` or `state_ref`,
/// and release; both of the latter demand the lock.
pub struct SharedUiState {
    inner: ImguiState,
    held: bool,
}

impl View for SharedUiState {
    type V = SharedUiStateModel;

    closed spec fn view(&self) -> SharedUiStateModel {
        SharedUiStateModel { state: self.inner@, held: self.held }
    }
}

impl SharedUiState {
    pub fn new(state: ImguiState) -> (r: SharedUiState)
        ensures
            r@ == (SharedUiStateModel { state: state@, held: false }),
    {
        SharedUiState { inner: state, held: false }
    }

    /// Takes the lock if and only if nobody holds it; the wrapped
    /// state itself is untouched either way. A caller refused here
    /// retries, mirroring a blocking lock without modelling the wait.
    pub fn try_acquire(&mut self) -> (ok: bool)
        ensures
            ok <==> !old(self)@.held,
            final(self)@.held == true,
            final(self)@.state == old(self)@.state,
    {
        if self.held {
            false
        } else {
            self.held = true;
            true
        }
    }

    /// Releases the lock; only the holder may.
    pub fn release(&mut self)
        requires
            old(self)@.held,
        ensures
            final(self)@ == (SharedUiStateModel { held: false, ..old(self)@ }),
    {
        self.held = false;
    }

    pub fn is_held(&self) -> (b: bool)
        ensures
            b == self@.held,
    {
        self.held
    }

    /// Mutable access for the holder, scoped to the borrow: no caller
    /// can retain it past its own turn.
    pub fn state_mut(&mut self) -> (r: &mut ImguiState)
        requires
            old(self)@.held,
        ensures            final(self)@.state == final(r)@,
            final(self)@.held == old(self)@.held,
            r@ == old(self)@.state,
    {
        &mut self.inner
    }

    /// Runs one logical operation against the wrapped state, as its
    /// exclusive holder for exactly the span of the callback: the
    /// state is handed in by value and cannot be retained past the
    /// call. Serialization is by contract: a caller may enter only
    /// while nobody holds access, so two operations never overlap.
    pub fn with_exclusive_access<R, F: FnOnce(ImguiState) -> (ImguiState, R)>(
        &mut self,
        f: F,
    ) -> (r: R)
        requires
            !old(self)@.held,
            forall|s: ImguiState| s@ == old(self)@.state ==> call_requires(f, (s,)),
        ensures
            !final(self)@.held,
            exists|s_in: ImguiState, out: (ImguiState, R)|
                s_in@ == old(self)@.state && (#[trigger] call_ensures(f, (s_in,), out)) && final(self)@.state == out.0@ && r == out.1,
    {
        let mut taken = ImguiState::new(ConfigFlags::empty());
        core::mem::swap(&mut taken, &mut self.inner);
        let (built, result) = f(taken);
        self.inner = built;
        result
    }

    /// Read access for the holder.
    pub fn state_ref(&self) -> (r: &ImguiState)
        requires
            self@.held,
        ensures
            r@ == self@.state,
    {
        &self.inner
    }
}

/// One boundary of a logical operation's exclusive-access span.
#[derive(Clone, Copy, Debug, PartialEq, Eq, Structural)]
pub enum AccessEvent {
    Enter,
    Exit,
}

/// Net number of holders after a log of enter/exit events.
pub open spec fn holders_after(log: Seq<AccessEvent>) -> int
    decreases log.len(),
{
    if log.len() == 0 {
        0
    } else {
        holders_after(log.drop_last()) + if log.last() is Enter {
            1int
        } else {
            -1int
        }
    }
}

/// A log as the lock's contracts admit it: an operation enters only
/// when nobody holds access (`try_acquire` succeeds only then), and
/// exits only while it is the holder (`release` demands the lock).
pub open spec fn serialized(log: Seq<AccessEvent>) -> bool
    decreases log.len(),
{
    if log.len() == 0 {
        true
    } else {
        &&& serialized(log.drop_last())
        &&& (log.last() is Enter ==> holders_after(log.drop_last()) == 0)
        &&& (log.last() is Exit ==> holders_after(log.drop_last()) == 1)
    }
}

/// Law: under the lock's contracts, exclusive access is never held by
/// two logical operations simultaneously — at every point of any
/// admissible enter/exit log there is at most one holder (and never a
/// negative count).
pub proof fn lemma_access_is_exclusive(log: Seq<AccessEvent>)
    requires
        serialized(log),
    ensures
        forall|i: int| 0 <= i <= log.len() ==> 0 <= holders_after(#[trigger] log.take(i)) <= 1,
    decreases log.len(),
{
    if log.len() > 0 {
        lemma_access_is_exclusive(log.drop_last());
        assert forall|i: int| 0 <= i <= log.len() implies 0 <= holders_after(
            #[trigger] log.take(i),
        ) <= 1 by {
            if i < log.len() {
                assert(log.take(i) =~= log.drop_last().take(i));
            } else {
                assert(log.take(i) =~= log);
            }
        }
    } else {
        assert(log.take(0) =~= log);
    }
}

} // verus!
