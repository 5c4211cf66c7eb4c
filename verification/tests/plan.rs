use bootstrap::options::StartOptions;
use bootstrap::plan::{
    bootstrap_plan, BootstrapStep, FIXED_TIMESTEP_DENOM, FIXED_TIMESTEP_NUMER,
};

fn options(folder: &str, has_callback: bool) -> StartOptions {
    StartOptions { asset_folder: folder.to_string(), has_callback }
}

#[test]
fn default_options_resolve_assets_folder() {
    let d = StartOptions::default();
    assert_eq!(d.asset_folder, "assets");
    assert!(!d.has_callback);
}

#[test]
fn default_plan_layout() {
    let plan = bootstrap_plan(StartOptions::default());
    let expected = vec![
        BootstrapStep::EngineDefaults {
            fit_canvas_to_parent: true,
            asset_folder: "assets".to_string(),
        },
        BootstrapStep::PhysicsPlugin,
        BootstrapStep::PhysicsDebugRenderPlugin,
        BootstrapStep::AvatarPlugin,
        BootstrapStep::WorldPlugin,
        BootstrapStep::SettingsPlugin,
        BootstrapStep::PlayerPlugin,
        BootstrapStep::FixedTimestep { numer: 1, denom: 60 },
        BootstrapStep::RunLoop,
    ];
    assert_eq!(plan, expected);
}

#[test]
fn asset_folder_is_recorded() {
    let plan = bootstrap_plan(options("content/packs", false));
    assert_eq!(
        plan[0],
        BootstrapStep::EngineDefaults {
            fit_canvas_to_parent: true,
            asset_folder: "content/packs".to_string(),
        }
    );
}

#[test]
fn empty_asset_folder_is_recorded_unchanged() {
    let plan = bootstrap_plan(options("", true));
    assert_eq!(
        plan[0],
        BootstrapStep::EngineDefaults {
            fit_canvas_to_parent: true,
            asset_folder: String::new(),
        }
    );
}

#[test]
fn fixed_timestep_is_one_sixtieth_regardless_of_options() {
    assert_eq!(FIXED_TIMESTEP_NUMER, 1);
    assert_eq!(FIXED_TIMESTEP_DENOM, 60);
    for (folder, has_callback) in [("assets", false), ("elsewhere", true), ("", false)] {
        let plan = bootstrap_plan(options(folder, has_callback));
        match &plan[7] {
            BootstrapStep::FixedTimestep { numer, denom } => {
                assert_eq!(*numer, 1);
                assert_eq!(*denom, 60);
                assert_eq!(*numer as f64 / *denom as f64, 1.0 / 60.0);
            }
            other => panic!("expected the fixed-timestep step, got {:?}", other),
        }
    }
}

#[test]
fn registration_order_is_fixed() {
    let plan = bootstrap_plan(options("a", true));
    assert!(matches!(plan[0], BootstrapStep::EngineDefaults { .. }));
    assert!(matches!(plan[1], BootstrapStep::PhysicsPlugin));
    assert!(matches!(plan[2], BootstrapStep::PhysicsDebugRenderPlugin));
    assert!(matches!(plan[3], BootstrapStep::AvatarPlugin));
    assert!(matches!(plan[4], BootstrapStep::WorldPlugin));
    assert!(matches!(plan[5], BootstrapStep::SettingsPlugin));
    assert!(matches!(plan[6], BootstrapStep::PlayerPlugin));
    assert!(matches!(plan[7], BootstrapStep::FixedTimestep { .. }));
}

#[test]
fn no_callback_means_no_callback_step() {
    let plan = bootstrap_plan(options("assets", false));
    assert_eq!(plan.len(), 9);
    assert!(plan.iter().all(|s| !matches!(s, BootstrapStep::InvokeCallback)));
    assert_eq!(plan[8], BootstrapStep::RunLoop);
}

#[test]
fn callback_runs_once_after_registrations_before_run_loop() {
    let plan = bootstrap_plan(options("assets", true));
    assert_eq!(plan.len(), 10);
    let positions: Vec<usize> = plan
        .iter()
        .enumerate()
        .filter(|(_, s)| matches!(s, BootstrapStep::InvokeCallback))
        .map(|(i, _)| i)
        .collect();
    assert_eq!(positions, vec![8]);
    assert_eq!(plan[9], BootstrapStep::RunLoop);
}

#[test]
fn run_loop_is_always_last() {
    for (folder, has_callback) in [("assets", false), ("assets", true), ("packs", true)] {
        let plan = bootstrap_plan(options(folder, has_callback));
        assert_eq!(plan.last(), Some(&BootstrapStep::RunLoop));
        let earlier = &plan[..plan.len() - 1];
        assert!(earlier.iter().all(|s| !matches!(s, BootstrapStep::RunLoop)));
    }
}
