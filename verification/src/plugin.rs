//! The host-facing plugin adapter and its lifecycle decisions.
//!
//! The host drives the plugin through three callbacks: `on_build` at
//! setup registers the input pass at the pipeline's earliest stage and
//! moves the plugin to `Active`; `should_rebuild` reports that the
//! plugin's render-graph contribution is static; `on_plan` places the
//! UI's draw step on the configured target, ordered after all other
//! content. The outcome of each decision is returned as a plain
//! descriptor for the host layer to execute.

use crate::channel::EventChannel;
use crate::classifier::InputClassifier;
use crate::classifier::PlatformEvent;
use crate::config::ConfigFlags;
use crate::config::Target;
use crate::input::InputEvent;
use crate::state::ImguiState;
use crate::state::SharedUiState;
use crate::state::SharedUiStateModel;
use vstd::prelude::*;

verus! {

/// The host pipeline's stages, earliest first.
#[derive(Clone, Copy, Debug, PartialEq, Eq, Structural)]
pub enum Stage {
    Begin,
    Logic,
    Render,
}

/// Positions at which a draw step can be inserted for a target,
/// earliest first; `Overlay` is drawn after all other content.
#[derive(Clone, Copy, Debug, PartialEq, Eq, Structural)]
pub enum RenderOrder {
    BeforeOpaque,
    Opaque,
    Transparent,
    Overlay,
}

/// Where a render order stands in the target's draw sequence.
pub open spec fn order_rank(o: RenderOrder) -> int {
    match o {
        RenderOrder::BeforeOpaque => 0,
        RenderOrder::Opaque => 1,
        RenderOrder::Transparent => 2,
        RenderOrder::Overlay => 3,
    }
}

/// Law: the overlay position comes no earlier than any other render
/// order, so a step inserted there is drawn after all other content
/// of its target.
pub proof fn lemma_overlay_is_last(o: RenderOrder)
    ensures
        order_rank(o) <= order_rank(RenderOrder::Overlay),
{
}

/// The registration `on_build` asks the host to perform: one input
/// pass for this plugin's binding scheme, at the given stage, with the
/// given feature flags applied to the context it creates.
#[derive(Clone, Copy, Debug, PartialEq, Eq, Structural)]
pub struct SystemRegistration {
    pub stage: Stage,
    pub config: ConfigFlags,
}

/// The insertion `on_plan` asks the host to perform.
#[derive(Clone, Copy, Debug, PartialEq, Eq, Structural)]
pub struct DrawStep {
    pub target: Target,
    pub order: RenderOrder,
}

/// Where the plugin stands in its host-driven lifecycle.
#[derive(Clone, Copy, Debug, PartialEq, Eq, Structural)]
pub enum PluginLifecycle {
    Uninitialized,
    Active,
}

/// The UI render plugin: a target selector and feature flags fixed at
/// construction, and the lifecycle the host drives.
pub struct RenderImgui {
    target: Target,
    config_flags: ConfigFlags,
    lifecycle: PluginLifecycle,
}

impl RenderImgui {
    pub closed spec fn target_spec(self) -> Target {
        self.target
    }

    pub closed spec fn config_spec(self) -> ConfigFlags {
        self.config_flags
    }

    pub closed spec fn lifecycle_spec(self) -> PluginLifecycle {
        self.lifecycle
    }

    /// Replaces the feature flags handed to the context at setup.
    pub fn with_imgui_config(self, config_flags: ConfigFlags) -> (r: RenderImgui)
        ensures
            r.config_spec() == config_flags,
            r.target_spec() == self.target_spec(),
            r.lifecycle_spec() == self.lifecycle_spec(),
    {
        RenderImgui { config_flags, ..self }
    }

    /// Selects the render target on which the UI should be rendered.
    pub fn with_target(self, target: Target) -> (r: RenderImgui)
        ensures
            r.target_spec() == target,
            r.config_spec() == self.config_spec(),
            r.lifecycle_spec() == self.lifecycle_spec(),
    {
        RenderImgui { target, ..self }
    }

    /// Setup, called by the host exactly once before the first frame:
    /// moves the plugin to `Active` and asks for its input pass to be
    /// registered at the earliest stage, carrying the configured
    /// feature flags.
    pub fn on_build(&mut self) -> (r: SystemRegistration)
        requires
            old(self).lifecycle_spec() is Uninitialized,
        ensures
            final(self).lifecycle_spec() is Active,
            final(self).target_spec() == old(self).target_spec(),
            final(self).config_spec() == old(self).config_spec(),
            r == (SystemRegistration { stage: Stage::Begin, config: old(self).config_spec() }),
    {
        self.lifecycle = PluginLifecycle::Active;
        SystemRegistration { stage: Stage::Begin, config: self.config_flags }
    }

    /// The plugin's render-graph contribution is static once inserted:
    /// no rebuild is ever needed.
    pub fn should_rebuild(&self) -> (r: bool)
        ensures
            r == false,
    {
        false
    }

    /// Render-graph construction: the UI draws onto the configured
    /// target, after all other content for that target.
    pub fn on_plan(&self) -> (r: DrawStep)
        ensures
            r == (DrawStep { target: self.target_spec(), order: RenderOrder::Overlay }),
    {
        DrawStep { target: self.target, order: RenderOrder::Overlay }
    }
}

impl Default for RenderImgui {
    /// A plugin for the main target with no extra feature flags,
    /// awaiting setup.
    fn default() -> (r: RenderImgui)
        ensures
            r.target_spec() == (Target { id: 0 }),
            r.config_spec() == (ConfigFlags { bits: 0 }),
            r.lifecycle_spec() is Uninitialized,
    {
        RenderImgui {
            target: Target::default(),
            config_flags: ConfigFlags::empty(),
            lifecycle: PluginLifecycle::Uninitialized,
        }
    }
}

/// Builds the per-frame input pass that `on_build`'s registration
/// stands for: a fresh shared context carrying the requested feature
/// flags, nothing captured, an empty texture list and the lock free,
/// together with a classifier whose cursors start at the raw streams'
/// current ends and whose filtered stream starts empty.
pub fn build_imgui_input_system(
    config_flags: ConfigFlags,
    platform: &EventChannel<PlatformEvent>,
    input: &EventChannel<InputEvent>,
) -> (r: (SharedUiState, InputClassifier))
    ensures
        r.0@ == (SharedUiStateModel { state: spec_fresh_state(config_flags), held: false }),
        r.1.wf(*platform, *input),
        r.1.platform_position() == platform@.len(),
        r.1.input_position() == input@.len(),
        r.1.filtered_log() == Seq::<crate::input::FilteredInputEvent>::empty(),
{
    let state = ImguiState::new(config_flags);
    let shared = SharedUiState::new(state);
    let classifier = InputClassifier::new(platform, input);
    (shared, classifier)
}

/// The state `build_imgui_input_system` hands out: fresh context with
/// the given flags and an empty texture list.
pub open spec fn spec_fresh_state(config: ConfigFlags) -> crate::state::UiStateModel {
    crate::state::UiStateModel {
        context: crate::state::UiContextModel {
            config,
            capture: crate::input::CaptureFlags { wants_mouse: false, wants_keyboard: false },
            atlas_texture_id: crate::state::ATLAS_SENTINEL,
            frames_begun: 0,
            in_frame: false,
        },
        textures: Seq::<crate::state::TextureHandle>::empty(),
    }
}

} // verus!
