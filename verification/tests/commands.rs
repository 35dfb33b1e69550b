use crepuscularity_cli::doctor::{doctor_checks, java_major_in, java_version_at_least, parse_java_major, rust_target_installed, DoctorCheck};
use crepuscularity_cli::native_mobile::MobilePlatform;
use crepuscularity_cli::apple_project::{apple_build_args, parse_platform, project_paths, Platform};
use crepuscularity_cli::dispatch::{build_flags_select_manifest, init_kind, InitKind};
use crepuscularity_cli::error::CrepusCliError;
use crepuscularity_cli::events::{BuildError, CompilerDiagnostic, CompilerEvent};
use crepuscularity_cli::ios::{build_target, crepus_toml_text, legacy_scheme, xcodebuild_args, IosSigning};
use crepuscularity_cli::native_ir::{
    default_fixture_output_paths, explicit_fixture_output_paths, is_native_shell_android_generated_dir,
    join_path, parse_kv_vars, plan_codegen, split_kv, with_trailing_newline, CodegenArgs, CodegenPlatform,
};
use crepuscularity_cli::tui::{run, tui_cargo_toml, TuiAction};

fn strings(v: &[&str]) -> Vec<String> {
    v.iter().map(|s| s.to_string()).collect()
}

#[test]
fn init_kinds_and_their_errors() {
    assert_eq!(init_kind("browser-extension"), Ok(InitKind::Webext));
    assert_eq!(init_kind("ios"), Ok(InitKind::Ios));
    assert_eq!(
        init_kind("desktop"),
        Err("GPUI scaffold not compiled in. Rebuild crepus with --features desktop.".to_string())
    );
    assert_eq!(
        init_kind("rocket"),
        Err("unknown init kind \"rocket\"; expected web, webext, tui, native, ios, mobile, app".to_string())
    );
    assert_eq!(
        init_kind("q\"t"),
        Err("unknown init kind \"q\\\"t\"; expected web, webext, tui, native, ios, mobile, app".to_string())
    );
    assert!(build_flags_select_manifest(&None, &None, true, &None));
    assert!(!build_flags_select_manifest(&None, &None, false, &None));
}

#[test]
fn tui_subcommands() {
    assert_eq!(run(&strings(&["new", "app"])), Ok(TuiAction::New("app".to_string())));
    assert_eq!(run(&strings(&["new"])), Err("Usage: crepus tui new <name>".to_string()));
    assert_eq!(run(&strings(&["build", "-x", "--release"])), Ok(TuiAction::Build { release: true }));
    assert_eq!(run(&strings(&["build"])), Ok(TuiAction::Build { release: false }));
    assert_eq!(run(&strings(&["run"])), Ok(TuiAction::Run));
    assert_eq!(run(&strings(&["preview", "a.crepus"])), Ok(TuiAction::Preview("a.crepus".to_string())));
    assert_eq!(run(&strings(&["preview"])), Err("Usage: crepus tui preview <file.crepus>".to_string()));
    assert_eq!(run(&strings(&[])), Ok(TuiAction::Usage));
    assert_eq!(run(&strings(&["help"])), Ok(TuiAction::Usage));
}

#[test]
fn error_messages() {
    assert_eq!(CrepusCliError::context("bad".to_string()).message(), "bad");
    assert_eq!(CrepusCliError::command(Some(-2), "failed".to_string()).message(), "failed (exit code -2)");
    assert_eq!(CrepusCliError::command(None, "failed".to_string()).message(), "failed");
    let e = std::io::Error::new(std::io::ErrorKind::NotFound, "gone");
    assert_eq!(CrepusCliError::io(e, Some("a.txt".to_string())).message(), "gone (a.txt)");
    let e = std::io::Error::new(std::io::ErrorKind::Other, "disk full");
    assert_eq!(CrepusCliError::from_io(e).message(), "disk full");
    assert_eq!(CrepusCliError::from("ctx".to_string()).message(), "ctx");
    assert_eq!(
        CrepusCliError::io_with_message("gone".to_string(), Some("a.txt".to_string())),
        CrepusCliError::Io { path: Some("a.txt".to_string()), message: "gone".to_string() }
    );
    assert_eq!(CrepusCliError::io_with_message("gone".to_string(), None).message(), "gone");
}

#[test]
fn compiler_events_carry_their_fields() {
    let err = BuildError {
        level: "error".to_string(),
        message: "mismatched types".to_string(),
        file: "src/main.rs".to_string(),
        line: 4,
        rendered: Some("error[E0308]".to_string()),
    };
    let diag = CompilerDiagnostic::from(err.clone());
    assert_eq!(diag.column, None);
    assert_eq!(diag.line, 4);
    match CompilerEvent::compilation_error(12, vec![err.clone(), err]) {
        CompilerEvent::CompilationError { duration_ms, errors, .. } => {
            assert_eq!(duration_ms, 12);
            assert_eq!(errors, vec![diag.clone(), diag]);
        }
        other => panic!("unexpected {other:?}"),
    }
    match CompilerEvent::process_exited(7, Some(1)) {
        CompilerEvent::ProcessExited { pid, code, timestamp_ms } => {
            assert_eq!((pid, code), (7, Some(1)));
            assert!(timestamp_ms > 0);
        }
        other => panic!("unexpected {other:?}"),
    }
}

#[test]
fn ios_commands() {
    assert!(crepus_toml_text("AcmeApp").contains("scheme = \"AcmeApp\"\n"));
    assert_eq!(legacy_scheme("name: Acme Thing\ntargets:\n"), Some("Acme".to_string()));
    assert_eq!(legacy_scheme("  PRODUCT_BUNDLE_IDENTIFIER: x\n"), None);
    let signing = IosSigning {
        bundle_id: Some("hk.tsc.acme".to_string()),
        development_team: None,
        code_sign_style: Some("Automatic".to_string()),
        allow_provisioning_updates: true,
    };
    assert_eq!(
        xcodebuild_args("A.xcodeproj", "A", "platform=iOS Simulator", true, &signing),
        strings(&[
            "-project", "A.xcodeproj", "-scheme", "A", "-destination", "platform=iOS Simulator",
            "-configuration", "Release", "-allowProvisioningUpdates",
            "PRODUCT_BUNDLE_IDENTIFIER=hk.tsc.acme", "CODE_SIGN_STYLE=Automatic", "build"
        ])
    );
    assert_eq!(
        build_target(None, Some("d".to_string()), "S".to_string(), "D".to_string()),
        ("S".to_string(), "d".to_string())
    );
}

#[test]
fn apple_projects() {
    assert_eq!(parse_platform("macos"), Ok(Platform::Macos));
    assert_eq!(parse_platform("tvos"), Err("apple platform must be ios or macos, got \"tvos\"".to_string()));
    assert_eq!(
        apple_build_args("P.xcodeproj", "P", Platform::Ios, false, &None),
        strings(&[
            "-project", "P.xcodeproj", "-scheme", "P", "-sdk", "iphonesimulator", "-configuration",
            "Debug", "CODE_SIGNING_ALLOWED=NO", "build", "-destination", "generic/platform=iOS Simulator"
        ])
    );
    assert_eq!(apple_build_args("P.xcodeproj", "P", Platform::Macos, true, &None).len(), 10);
    let (dir, pbx, scheme) = project_paths("/app", "Acme");
    assert_eq!(dir, "/app/Acme.xcodeproj");
    assert_eq!(pbx, "/app/Acme.xcodeproj/project.pbxproj");
    assert_eq!(scheme, "/app/Acme.xcodeproj/xcshareddata/xcschemes/Acme.xcscheme");
}

#[test]
fn native_ir_arguments_and_paths() {
    assert_eq!(split_kv("a=b=c"), Some(("a".to_string(), "b=c".to_string())));
    assert_eq!(split_kv("novalue"), None);
    assert!(parse_kv_vars(&strings(&["x=1", "y="])).is_ok());
    assert_eq!(
        parse_kv_vars(&strings(&["x=1", "oops"])).unwrap_err(),
        "--var expects key=value, got: oops"
    );
    assert_eq!(join_path("a/", "b"), "a/b");
    assert_eq!(join_path("", "b"), "b");
    assert_eq!(default_fixture_output_paths("/r")[3], "/r/android/app/src/main/assets/fixture.json");
    assert_eq!(
        explicit_fixture_output_paths("/r", &strings(&["x.json", "/abs.json"])),
        strings(&["/r/x.json", "/abs.json"])
    );
    assert!(is_native_shell_android_generated_dir(
        "/p/android/app/src/main/java/dev/crepuscularity/nativeshell/generated"
    ));
    assert!(!is_native_shell_android_generated_dir("/p/android/app/src/main/java"));
    assert!(is_native_shell_android_generated_dir(
        "./android//app/src/main/java/dev/crepuscularity/./nativeshell/generated/"
    ));
    assert!(!is_native_shell_android_generated_dir(
        "/p/myandroid/app/src/main/java/dev/crepuscularity/nativeshell/generated"
    ));
    assert_eq!(with_trailing_newline("x".to_string()), "x\n");
    assert_eq!(with_trailing_newline("x\n".to_string()), "x\n");
    assert_eq!(CodegenPlatform::from_name("kotlin"), Some(CodegenPlatform::Compose));
    assert_eq!(CodegenPlatform::from_name("flutter"), None);
}

#[test]
fn codegen_needs_its_arguments() {
    let mut args = CodegenArgs {
        template: Some("v.crepus".to_string()),
        platform: Some(CodegenPlatform::SwiftUi),
        out: Some("out".to_string()),
        view_name: Some("Home".to_string()),
        component: None,
        ctx: None,
        vars: Vec::new(),
    };
    assert_eq!(plan_codegen(&args).unwrap().output_file, "out/Home.swift");
    args.view_name = None;
    assert_eq!(plan_codegen(&args).unwrap_err(), "--view-name NAME is required");
    args.platform = None;
    assert_eq!(plan_codegen(&args).unwrap_err(), "--platform swiftui|compose is required");
    args.template = None;
    assert_eq!(
        plan_codegen(&args).unwrap_err(),
        "Usage: crepus native codegen <file.crepus> --platform swiftui|compose --out DIR --view-name NAME"
    );
}

#[test]
fn tui_app_manifest_names_the_app() {
    let toml = tui_cargo_toml("demo");
    assert!(toml.starts_with("[package]\nname = \"demo\"\nversion = \"0.1.0\"\n"));
    assert!(toml.contains("ratatui = { version = \"0.29\""));
}

#[test]
fn doctor_checks_per_platform() {
    assert_eq!(doctor_checks(MobilePlatform::Ios).len(), 5);
    assert_eq!(doctor_checks(MobilePlatform::Android).len(), 8);
    let all = doctor_checks(MobilePlatform::All);
    assert_eq!(all.len(), 12);
    assert_eq!(all[0], DoctorCheck::Command { program: "cargo".to_string(), args: vec!["--version".to_string()] });
    assert_eq!(all[1], DoctorCheck::RustTarget("aarch64-apple-ios".to_string()));
    assert_eq!(all[5], DoctorCheck::RustTarget("aarch64-linux-android".to_string()));
    assert_eq!(all[11], DoctorCheck::AndroidNdk);
}

#[test]
fn java_versions_and_rust_targets() {
    let jdk17 = "openjdk version \"17.0.2\" 2022-01-18\nOpenJDK Runtime Environment";
    assert_eq!(java_major_in(jdk17), Some(17));
    assert!(java_version_at_least(jdk17, 17));
    assert!(!java_version_at_least(jdk17, 21));
    assert_eq!(java_major_in("java version \"1.8.0_292\""), Some(1));
    assert_eq!(java_major_in("no digits here"), None);
    assert_eq!(parse_java_major(""), None);
    assert_eq!(parse_java_major("11"), Some(11));
    assert_eq!(parse_java_major(".5"), None);
    let listing = "aarch64-apple-ios\n  x86_64-unknown-linux-gnu \n";
    assert!(rust_target_installed(listing, "x86_64-unknown-linux-gnu"));
    assert!(!rust_target_installed(listing, "aarch64-linux-android"));
}

#[test]
fn the_newest_ndk_is_the_greatest_name() {
    let names: Vec<String> = ["25.1.8937393", "26.0.10792818", "21.4.7075529"].iter().map(|s| s.to_string()).collect();
    assert_eq!(crepuscularity_cli::doctor::latest_ndk(&names), Some("26.0.10792818".to_string()));
    assert_eq!(crepuscularity_cli::doctor::latest_ndk(&Vec::new()), None);
}

#[test]
fn oversized_templates_are_refused() {
    assert_eq!(crepuscularity_cli::native_ir::check_template_size(10_000_000), Ok(()));
    assert_eq!(
        crepuscularity_cli::native_ir::check_template_size(10_000_001),
        Err("template too large (10000001 bytes, max 10000000)".to_string())
    );
}

#[test]
fn ios_projects_default_their_bundle_id() {
    let c = crepuscularity_cli::ios::ios_project_config("Demo", &None);
    assert_eq!(c.name, "Demo");
    assert_eq!(c.bundle_id, "dev.crepuscularity.app");
    assert_eq!(c.platform, Platform::Ios);
    assert_eq!((c.deployment_target.as_str(), c.package_path.as_str(), c.package_product.as_str()), ("17.0", "NativeShell", "NativeShell"));
    let c = crepuscularity_cli::ios::ios_project_config("Demo", &Some("com.x.demo".to_string()));
    assert_eq!(c.bundle_id, "com.x.demo");
}
