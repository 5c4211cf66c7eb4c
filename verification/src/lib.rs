//! Bootstrap planning for a windowed, physics-backed 3D application.
//!
//! The library turns a start configuration into an explicit bootstrap plan:
//! the ordered list of engine registrations (engine defaults with window-fit
//! and asset-root overrides, the physics plugin and its debug-render overlay,
//! the four feature plugins), the fixed-timestep resource of exactly 1/60
//! second, the optional one-shot host callback, and the final hand-off to the
//! run loop. A host shell executes the plan against the engine; the plan
//! itself — the order, the asset root and the timestep value — is verified
//! here.

pub mod options;
pub mod plan;
