//! The bootstrap plan: the exact, ordered list of actions that launches the
//! application.

use vstd::prelude::*;
use crate::options::{StartOptions, StartOptionsView};

verus! {

/// Numerator of the fixed-timestep interval, in seconds.
pub const FIXED_TIMESTEP_NUMER: u32 = 1;

/// Denominator of the fixed-timestep interval, in seconds.
pub const FIXED_TIMESTEP_DENOM: u32 = 60;

/// One action of the bootstrap. A host shell performs the actions in plan
/// order against the engine.
#[derive(Clone, Debug, PartialEq, Eq)]
pub enum BootstrapStep {
    /// Register the engine's default subsystems, overriding the primary
    /// window to fit its embedding container and the asset loader's root
    /// directory.
    EngineDefaults {
        /// Whether the primary surface auto-fits its host container.
        fit_canvas_to_parent: bool,
        /// Root path for asset resolution.
        asset_folder: String,
    },
    /// Register the physics engine plugin, with no custom user data.
    PhysicsPlugin,
    /// Register the physics debug-render overlay.
    PhysicsDebugRenderPlugin,
    /// Register the avatar feature plugin.
    AvatarPlugin,
    /// Register the world feature plugin.
    WorldPlugin,
    /// Register the settings feature plugin.
    SettingsPlugin,
    /// Register the player feature plugin.
    PlayerPlugin,
    /// Insert the fixed-timestep resource of `numer / denom` seconds.
    FixedTimestep {
        /// Numerator of the interval in seconds.
        numer: u32,
        /// Denominator of the interval in seconds.
        denom: u32,
    },
    /// Invoke the host's one-shot callback with exclusive access to the
    /// application.
    InvokeCallback,
    /// Hand control to the engine's run loop; the last action of every plan.
    RunLoop,
}

/// Mathematical content of a [`BootstrapStep`].
pub enum StepView {
    /// Engine defaults with the two overrides.
    EngineDefaults {
        /// Whether the primary surface auto-fits its host container.
        fit_canvas_to_parent: bool,
        /// The asset root as a sequence of characters.
        asset_folder: Seq<char>,
    },
    /// The physics plugin registration.
    PhysicsPlugin,
    /// The physics debug-render overlay registration.
    PhysicsDebugRenderPlugin,
    /// The avatar plugin registration.
    AvatarPlugin,
    /// The world plugin registration.
    WorldPlugin,
    /// The settings plugin registration.
    SettingsPlugin,
    /// The player plugin registration.
    PlayerPlugin,
    /// The fixed-timestep resource insertion.
    FixedTimestep {
        /// Numerator of the interval in seconds.
        numer: u32,
        /// Denominator of the interval in seconds.
        denom: u32,
    },
    /// The one-shot callback invocation.
    InvokeCallback,
    /// The hand-off to the run loop.
    RunLoop,
}

impl View for BootstrapStep {
    type V = StepView;

    open spec fn view(&self) -> StepView {
        match self {
            BootstrapStep::EngineDefaults { fit_canvas_to_parent, asset_folder } => (
                StepView::EngineDefaults {
                    fit_canvas_to_parent: *fit_canvas_to_parent,
                    asset_folder: asset_folder@,
                }
            ),
            BootstrapStep::PhysicsPlugin => StepView::PhysicsPlugin,
            BootstrapStep::PhysicsDebugRenderPlugin => StepView::PhysicsDebugRenderPlugin,
            BootstrapStep::AvatarPlugin => StepView::AvatarPlugin,
            BootstrapStep::WorldPlugin => StepView::WorldPlugin,
            BootstrapStep::SettingsPlugin => StepView::SettingsPlugin,
            BootstrapStep::PlayerPlugin => StepView::PlayerPlugin,
            BootstrapStep::FixedTimestep { numer, denom } => (
                StepView::FixedTimestep { numer: *numer, denom: *denom }
            ),
            BootstrapStep::InvokeCallback => StepView::InvokeCallback,
            BootstrapStep::RunLoop => StepView::RunLoop,
        }
    }
}

/// The registrations every plan opens with, in their fixed order: engine
/// defaults, physics, physics debug-render, then avatar, world, settings and
/// player, then the fixed-timestep resource.
pub open spec fn registration_steps(asset_folder: Seq<char>) -> Seq<StepView> {
    seq![
        StepView::EngineDefaults { fit_canvas_to_parent: true, asset_folder },
        StepView::PhysicsPlugin,
        StepView::PhysicsDebugRenderPlugin,
        StepView::AvatarPlugin,
        StepView::WorldPlugin,
        StepView::SettingsPlugin,
        StepView::PlayerPlugin,
        StepView::FixedTimestep { numer: FIXED_TIMESTEP_NUMER, denom: FIXED_TIMESTEP_DENOM },
    ]
}

/// The whole plan for a given configuration: the registrations, the callback
/// invocation exactly when one was supplied, and the run-loop hand-off last.
pub open spec fn plan_spec(options: StartOptionsView) -> Seq<StepView> {
    registration_steps(options.asset_folder) + (if options.has_callback {
        seq![StepView::InvokeCallback]
    } else {
        Seq::<StepView>::empty()
    }) + seq![StepView::RunLoop]
}

/// Mathematical content of an executable plan.
pub open spec fn plan_view(plan: Seq<BootstrapStep>) -> Seq<StepView> {
    plan.map_values(|s: BootstrapStep| s@)
}

/// Builds the bootstrap plan for `options`: the plan is exactly
/// [`plan_spec`] of the configuration.
pub fn bootstrap_plan(options: StartOptions) -> (plan: Vec<BootstrapStep>)
    ensures
        plan_view(plan@) == plan_spec(options@),
{
    let StartOptions { asset_folder, has_callback } = options;
    let mut plan: Vec<BootstrapStep> = Vec::new();
    plan.push(BootstrapStep::EngineDefaults { fit_canvas_to_parent: true, asset_folder });
    plan.push(BootstrapStep::PhysicsPlugin);
    plan.push(BootstrapStep::PhysicsDebugRenderPlugin);
    plan.push(BootstrapStep::AvatarPlugin);
    plan.push(BootstrapStep::WorldPlugin);
    plan.push(BootstrapStep::SettingsPlugin);
    plan.push(BootstrapStep::PlayerPlugin);
    plan.push(BootstrapStep::FixedTimestep {
        numer: FIXED_TIMESTEP_NUMER,
        denom: FIXED_TIMESTEP_DENOM,
    });
    if has_callback {
        plan.push(BootstrapStep::InvokeCallback);
    }
    plan.push(BootstrapStep::RunLoop);
    proof {
        assert(plan_view(plan@) =~= plan_spec(options@));
    }
    plan
}

/// Law: the plan's order is fixed — engine defaults (with the window-fit and
/// asset-root overrides) first, then the physics plugin, its debug-render
/// overlay, the avatar, world, settings and player plugins in that order,
/// then the fixed-timestep resource; the callback, when one was supplied,
/// follows them all, and the run-loop hand-off is always last.
pub proof fn lemma_plan_order(options: StartOptionsView)
    ensures
        plan_spec(options).len() == if options.has_callback { 10nat } else { 9nat },
        plan_spec(options)[0] == (StepView::EngineDefaults {
            fit_canvas_to_parent: true,
            asset_folder: options.asset_folder,
        }),
        plan_spec(options)[1] == StepView::PhysicsPlugin,
        plan_spec(options)[2] == StepView::PhysicsDebugRenderPlugin,
        plan_spec(options)[3] == StepView::AvatarPlugin,
        plan_spec(options)[4] == StepView::WorldPlugin,
        plan_spec(options)[5] == StepView::SettingsPlugin,
        plan_spec(options)[6] == StepView::PlayerPlugin,
        plan_spec(options)[7] == (StepView::FixedTimestep {
            numer: FIXED_TIMESTEP_NUMER,
            denom: FIXED_TIMESTEP_DENOM,
        }),
        options.has_callback ==> plan_spec(options)[8] == StepView::InvokeCallback,
        plan_spec(options).last() == StepView::RunLoop,
{
}

/// Law: the asset-resolution root recorded in the plan is exactly the
/// supplied asset folder, and the primary window is always asked to fit its
/// embedding container.
pub proof fn lemma_asset_root(options: StartOptionsView)
    ensures
        plan_spec(options)[0] matches StepView::EngineDefaults { fit_canvas_to_parent, asset_folder }
            && asset_folder == options.asset_folder && fit_canvas_to_parent,
{
}

/// Law: every plan inserts the fixed-timestep resource exactly once, with the
/// interval of exactly `1 / 60` second, whatever the configuration holds.
pub proof fn lemma_fixed_timestep(options: StartOptionsView)
    ensures
        plan_spec(options)[7] == (StepView::FixedTimestep { numer: 1u32, denom: 60u32 }),
        forall|i: int|
            0 <= i < plan_spec(options).len() && plan_spec(options)[i] is FixedTimestep ==> i
                == 7,
{
}

/// Law: with no callback supplied, the plan is the fixed registrations
/// followed directly by the run-loop hand-off — no callback step, and no
/// other addition.
pub proof fn lemma_without_callback(options: StartOptionsView)
    requires
        !options.has_callback,
    ensures
        plan_spec(options) == registration_steps(options.asset_folder) + seq![StepView::RunLoop],
        forall|i: int|
            0 <= i < plan_spec(options).len() ==> !(plan_spec(options)[i] is InvokeCallback),
{
    assert(plan_spec(options) =~= registration_steps(options.asset_folder) + seq![
        StepView::RunLoop,
    ]);
}

/// Law: with a callback supplied, the plan invokes it exactly once — at the
/// single step after every registration and resource insertion, and
/// immediately before the run-loop hand-off.
pub proof fn lemma_with_callback_once(options: StartOptionsView)
    requires
        options.has_callback,
    ensures
        plan_spec(options).len() == 10,
        plan_spec(options)[8] is InvokeCallback,
        forall|i: int|
            0 <= i < plan_spec(options).len() && plan_spec(options)[i] is InvokeCallback ==> i
                == 8,
        plan_spec(options)[9] is RunLoop,
{
}

} // verus!
