use crepuscularity_cli::build_options::{BuildMode, BuildOptions, OptimizationLevel};
use crepuscularity_cli::capabilities::ios_info_plist_keys;
use crepuscularity_cli::cli::{InspectMode, NativeIosTargetArg};
use crepuscularity_cli::crepus_toml::{default_ios_destination, default_robots_enabled, default_web_site, default_xcodegen_spec};
use crepuscularity_cli::dispatch::native_ios_target;
use crepuscularity_cli::events::CompilerEvent;
use crepuscularity_cli::native_build::IosBuildTarget;
use crepuscularity_cli::native_ir::CodegenPlatform;
use crepuscularity_cli::native_mobile::{
    app_renames, parse_dir_arg, parse_platform_arg, platform_to_cli_args, reject_mobile_release_flag, renamed_android_package_dir,
    renamed_ios_app_file, request_path, rewrite_content, scaffold_rewrite_paths, strip_mobile_only_args, sync_outputs,
    MobilePlatform,
};
use crepuscularity_cli::wasm_bundle::{wasm_opt_decision, wasm_profile_dirs, WasmOptStatus};

fn strings(xs: &[&str]) -> Vec<String> {
    xs.iter().map(|s| s.to_string()).collect()
}

#[test]
fn mobile_flags_are_read_from_pairs_then_equals_forms() {
    assert_eq!(parse_dir_arg(&strings(&["--dir", "app", "--dir=other"])), "app");
    assert_eq!(parse_dir_arg(&strings(&["--dir=other"])), "other");
    assert_eq!(parse_dir_arg(&strings(&["--dir"])), ".");
    assert_eq!(parse_platform_arg(&strings(&["--platform", "android"])), Some(MobilePlatform::Android));
    assert_eq!(parse_platform_arg(&strings(&["--platform=ios"])), Some(MobilePlatform::Ios));
    assert_eq!(parse_platform_arg(&strings(&["--platform", "web"])), None);
    assert_eq!(parse_platform_arg(&strings(&[])), None);
}

#[test]
fn mobile_only_flags_are_stripped_and_release_is_refused() {
    assert_eq!(
        strip_mobile_only_args(&strings(&["--platform", "ios", "--dir", "a", "--platform=android", "x"])),
        strings(&["--dir", "a", "x"])
    );
    assert_eq!(strip_mobile_only_args(&strings(&["x", "--platform"])), strings(&["x"]));
    assert_eq!(reject_mobile_release_flag(&strings(&["--dir", "a"])), Ok(()));
    assert_eq!(
        reject_mobile_release_flag(&strings(&["--release"])),
        Err("crepus mobile build does not use --release; use --configuration Release for iOS or --flavor Release for Android".to_string())
    );
    assert_eq!(platform_to_cli_args(MobilePlatform::All), strings(&["--platform", "all"]));
    assert_eq!(platform_to_cli_args(MobilePlatform::Ios), strings(&["--platform", "ios"]));
}

#[test]
fn mobile_sync_plans_one_codegen_job_per_platform() {
    let plan = sync_outputs("/app", "/app/views/main.crepus", MobilePlatform::All);
    assert_eq!(plan.sync.template, "views/main.crepus");
    assert_eq!(plan.sync.dir, "/app");
    assert!(plan.sync.pretty);
    assert_eq!(plan.codegen.len(), 2);
    assert_eq!(plan.codegen[0].args.platform, Some(CodegenPlatform::SwiftUi));
    assert_eq!(plan.codegen[1].args.platform, Some(CodegenPlatform::Compose));
    let ios = sync_outputs("/app", "/elsewhere/x.crepus", MobilePlatform::Ios);
    assert_eq!(ios.sync.template, "/elsewhere/x.crepus");
    assert_eq!(ios.codegen.len(), 1);
}

#[test]
fn mobile_scaffolds_are_renamed_after_the_app() {
    let r = app_renames("my-cool app");
    assert_eq!(r.snake, "my_cool_app");
    assert_eq!(r.pascal, "MyCoolApp");
    assert_eq!(r.replacements[0], ("crepus_mobile_actions".to_string(), "my_cool_app_actions".to_string()));
    assert_eq!(r.replacements[4], ("CrepusMobileApp".to_string(), "MyCoolAppApp".to_string()));
    assert_eq!(
        rewrite_content("package dev.crepuscularity.nativeshell\nclass CrepusMobileApp", &r.replacements),
        Some("package dev.crepuscularity.my_cool_app\nclass MyCoolAppApp".to_string())
    );
    assert_eq!(rewrite_content("nothing to do", &r.replacements), None);
    assert_eq!(renamed_ios_app_file("/p", "MyCoolApp"), "/p/ios/App/MyCoolAppApp.swift");
    assert_eq!(renamed_android_package_dir("/p", "my_cool_app"), "/p/android/app/src/main/java/dev/crepuscularity/my_cool_app");
    let paths = scaffold_rewrite_paths();
    assert_eq!(paths.len(), 11);
    assert_eq!(paths[0], "crepus.toml");
    assert_eq!(paths[10], "android/app/src/main/java/dev/crepuscularity/nativeshell/generated/CrepusGeneratedView.kt");
}

#[test]
fn dev_server_requests_are_routed_by_path() {
    assert_eq!(request_path("GET /ir HTTP/1.1\r\nHost: x\r\n\r\n"), "/ir");
    assert_eq!(request_path("GET"), "/");
    assert_eq!(request_path(""), "/");
}

#[test]
fn wasm_artifacts_and_optimisation() {
    let release = BuildOptions { mode: BuildMode::Release, optimization: OptimizationLevel::Size };
    assert_eq!(
        wasm_profile_dirs("/site", "/rt", release),
        ("/site/target/wasm32-unknown-unknown/release".to_string(), "/rt/target/wasm32-unknown-unknown/release".to_string())
    );
    assert_eq!(wasm_opt_decision(OptimizationLevel::Size, true), Ok("-Oz"));
    assert_eq!(wasm_opt_decision(OptimizationLevel::Aggressive, true), Ok("-O3"));
    assert_eq!(wasm_opt_decision(OptimizationLevel::Fast, false), Err(WasmOptStatus::NotInstalled));
    assert_eq!(wasm_opt_decision(OptimizationLevel::NoOptimization, false), Err(WasmOptStatus::Optimized));
}

#[test]
fn defaults_and_small_conversions() {
    assert_eq!(InspectMode::default_mode(), InspectMode::Preview);
    assert_eq!(native_ios_target(NativeIosTargetArg::Device), IosBuildTarget::Device);
    assert_eq!(native_ios_target(NativeIosTargetArg::Simulator), IosBuildTarget::Simulator);
    assert_eq!(default_xcodegen_spec(), "project.yml");
    assert_eq!(default_ios_destination(), "platform=iOS Simulator,name=iPhone 16,OS=latest");
    assert_eq!(default_web_site(), ".");
    assert!(default_robots_enabled());
}

#[test]
fn info_plist_entries_come_from_project_settings() {
    let project = "settings:\n  INFOPLIST_KEY_NSCameraUsageDescription: \"Scan codes\"\n  OTHER: x\n  INFOPLIST_KEY_NSMicrophoneUsageDescription: Talk\n";
    assert_eq!(
        ios_info_plist_keys(project),
        "    <key>NSCameraUsageDescription</key>\n    <string>Scan codes</string>\n    <key>NSMicrophoneUsageDescription</key>\n    <string>Talk</string>\n"
    );
    assert_eq!(ios_info_plist_keys("name: App\n"), "");
}

#[test]
fn events_carry_what_they_report() {
    let started = CompilerEvent::compilation_started(vec!["src/main.rs".to_string()], Some("file_change".to_string()));
    match started {
        CompilerEvent::CompilationStarted { files, trigger, .. } => {
            assert_eq!(files, vec!["src/main.rs".to_string()]);
            assert_eq!(trigger, Some("file_change".to_string()));
        }
        other => panic!("unexpected event {other:?}"),
    }
    match CompilerEvent::compilation_success(12, "target/debug/app".to_string()) {
        CompilerEvent::CompilationSuccess { duration_ms, output, timestamp_ms } => {
            assert_eq!((duration_ms, output.as_str()), (12, "target/debug/app"));
            assert!(timestamp_ms > 0);
        }
        other => panic!("unexpected event {other:?}"),
    }
    match CompilerEvent::file_changed("src/lib.rs".to_string()) {
        CompilerEvent::FileChanged { path, .. } => assert_eq!(path, "src/lib.rs"),
        other => panic!("unexpected event {other:?}"),
    }
    match CompilerEvent::dev_server_started("demo".to_string(), vec!["src".to_string()]) {
        CompilerEvent::DevServerStarted { project, watch_paths, .. } => {
            assert_eq!(project, "demo");
            assert_eq!(watch_paths, vec!["src".to_string()]);
        }
        other => panic!("unexpected event {other:?}"),
    }
    match CompilerEvent::process_launched(7, "bin".to_string()) {
        CompilerEvent::ProcessLaunched { pid, binary, .. } => assert_eq!((pid, binary.as_str()), (7, "bin")),
        other => panic!("unexpected event {other:?}"),
    }
}
