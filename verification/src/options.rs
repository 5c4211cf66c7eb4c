//! Start configuration a host passes once when launching the application.

use vstd::prelude::*;

verus! {

/// Configuration consumed by the bootstrap.
///
/// `asset_folder` is the root path the engine resolves asset references
/// against. `has_callback` records whether the host supplied a one-shot
/// customization callback; the callback itself mutates the engine
/// application directly and stays with the host shell — the plan only fixes
/// the single point at which it must run.
pub struct StartOptions {
    /// Root path for asset resolution.
    pub asset_folder: String,
    /// Whether a last-mile customization callback was supplied.
    pub has_callback: bool,
}

/// Mathematical content of a [`StartOptions`] value.
pub struct StartOptionsView {
    /// The asset root as a sequence of characters.
    pub asset_folder: Seq<char>,
    /// Whether a callback was supplied.
    pub has_callback: bool,
}

impl View for StartOptions {
    type V = StartOptionsView;

    open spec fn view(&self) -> StartOptionsView {
        StartOptionsView { asset_folder: self.asset_folder@, has_callback: self.has_callback }
    }
}

impl Default for StartOptions {
    /// The default configuration: assets resolved under `"assets"`, no
    /// callback.
    fn default() -> (d: Self)
        ensures
            d.asset_folder@ == "assets"@,
            !d.has_callback,
    {
        StartOptions { asset_folder: "assets".to_owned(), has_callback: false }
    }
}

} // verus!
