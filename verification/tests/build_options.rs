use crepuscularity_cli::build_options::{
    BuildMode, BuildOptions, BuildOptionsArgs, OptLevelArg, OptimizationLevel,
};

#[test]
fn defaults_to_debug_with_no_post_optimization() {
    let opts = BuildOptionsArgs::new().into_options().expect("parse");
    assert_eq!(opts.mode, BuildMode::Debug);
    assert_eq!(opts.optimization, OptimizationLevel::NoOptimization);
    assert!(!opts.release());
    assert!(!opts.optimize_artifacts());
}

#[test]
fn release_defaults_to_fast_optimization() {
    let opts = BuildOptionsArgs {
        release: true,
        ..BuildOptionsArgs::new()
    }
    .into_options()
    .expect("parse");
    assert_eq!(opts.mode, BuildMode::Release);
    assert_eq!(opts.optimization, OptimizationLevel::Fast);
    assert!(opts.release());
    assert!(opts.optimize_artifacts());
}

#[test]
fn explicit_optimization_overrides_mode_default() {
    let opts = BuildOptionsArgs {
        release: true,
        opt_level: Some(OptLevelArg::Size),
        ..BuildOptionsArgs::new()
    }
    .into_options()
    .expect("parse");
    assert_eq!(opts.mode, BuildMode::Release);
    assert_eq!(opts.optimization, OptimizationLevel::Size);
}

#[test]
fn dev_mode_without_level_has_no_optimization() {
    let opts = BuildOptionsArgs {
        dev: true,
        ..BuildOptionsArgs::new()
    }
    .into_options_or_exit();
    assert_eq!(opts.mode, BuildMode::Dev);
    assert_eq!(opts.optimization, OptimizationLevel::NoOptimization);
    assert_eq!(opts.cargo_profile(), "debug");
}

#[test]
fn release_wins_over_dev_flag() {
    let opts = BuildOptionsArgs {
        dev: true,
        release: true,
        ..BuildOptionsArgs::new()
    }
    .into_options_or_exit();
    assert_eq!(opts.mode, BuildMode::Release);
    assert_eq!(opts.cargo_profile(), "release");
}

#[test]
fn debug_options_and_wasm_opt_flags() {
    let d = BuildOptions::debug();
    assert_eq!(d.mode, BuildMode::Debug);
    assert!(!d.optimize_artifacts());
    assert_eq!(OptimizationLevel::NoOptimization.wasm_opt_flag(), None);
    assert_eq!(OptimizationLevel::Fast.wasm_opt_flag(), Some("-O2"));
    assert_eq!(OptimizationLevel::Size.wasm_opt_flag(), Some("-Oz"));
    assert_eq!(OptimizationLevel::Aggressive.wasm_opt_flag(), Some("-O3"));
    assert_eq!(OptLevelArg::Aggressive.into_level(), OptimizationLevel::Aggressive);
    assert_eq!(BuildMode::Release.default_optimization(), OptimizationLevel::Fast);
}
