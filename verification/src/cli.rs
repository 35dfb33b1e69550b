//! The typed command surface of `crepus`: every subcommand with its
//! arguments, as plain values (paths as strings). The argument parser that
//! fills them lives with the executable.
use vstd::prelude::*;
use crate::build_options::BuildOptionsArgs;
use crate::native_build::IosBuildTarget;
use crate::native_ir::{CodegenArgs, IrArgs, SyncArgs};

verus! {

/// What `crepus inspect` shows.
#[derive(Clone, Copy, Debug, PartialEq, Eq, Structural)]
pub enum InspectMode {
    Ast,
    Render,
    Ir,
    Ctx,
    Preview,
}

impl InspectMode {
    /// The mode used when none is given.
    pub fn default_mode() -> (r: Self)
        ensures
            r == InspectMode::Preview,
    {
        InspectMode::Preview
    }
}

#[derive(Clone, Debug, PartialEq, Eq)]
pub enum FlutterCommands {
    /// Print the pubspec dependency spec for the Flutter renderer.
    Dep { version: Option<String>, git_ref: String },
    /// Add the Flutter renderer dependency to a Flutter app's pubspec.yaml.
    Add { dir: Option<String>, version: Option<String>, git_ref: String },
}

#[derive(Clone, Debug, PartialEq, Eq)]
pub enum ComponentsCommands {
    List,
    Add { id: String, target: Option<ComponentTarget> },
    Themes,
}

#[derive(Clone, Copy, Debug, PartialEq, Eq, Structural)]
pub enum ComponentTarget {
    Flutter,
    Svelte,
    Moonshine,
    Gpui,
}

#[derive(Clone, Debug, PartialEq, Eq)]
pub enum MoonshineCommands {
    New { name: String, js: bool },
    Dep,
    Build { dir: Option<String> },
}

/// Output target for `crepus web build --emit`.
#[derive(Clone, Copy, Debug, PartialEq, Eq, Structural)]
pub enum WebEmitTarget {
    Html,
    Moonshine,
}

#[derive(Clone, Debug, PartialEq, Eq)]
pub enum WebCommands {
    New { name: String },
    Build {
        build: BuildOptionsArgs,
        site: Option<String>,
        out_dir: Option<String>,
        output: Option<String>,
        entry: Option<String>,
        target_id: Option<String>,
        manifest: Option<String>,
        emit: WebEmitTarget,
    },
    Dev {
        site: Option<String>,
        port: u16,
        entry: String,
        target_id: Option<String>,
        manifest: Option<String>,
        emit: WebEmitTarget,
    },
    BuildFull { site: Option<String>, wasm: bool, server: bool, emit: WebEmitTarget },
}

#[derive(Clone, Debug, PartialEq, Eq)]
pub enum WebextCommands {
    New { name: String },
    Build { build: BuildOptionsArgs, app: Option<String>, browser: Option<BrowserArg> },
    Dev { build: BuildOptionsArgs, app: Option<String>, browser: Option<BrowserArg> },
    Manifest { app: Option<String>, browser: Option<BrowserArg> },
}

#[derive(Clone, Copy, Debug, PartialEq, Eq, Structural)]
pub enum BrowserArg {
    Chromium,
    Firefox,
    Safari,
}

#[derive(Clone, Debug, PartialEq, Eq)]
pub enum IosCommands {
    New { name: String },
    Generate { dir: Option<String>, spec: Option<String> },
    Build {
        build: BuildOptionsArgs,
        dir: Option<String>,
        spec: Option<String>,
        scheme: Option<String>,
        destination: Option<String>,
    },
}

#[derive(Clone, Debug, PartialEq, Eq)]
pub enum AppleCommands {
    Generate { dir: Option<String> },
    Build { build: BuildOptionsArgs, dir: Option<String> },
}

#[derive(Clone, Debug, PartialEq, Eq)]
pub enum TuiCommands {
    New { name: String },
    Build { build: BuildOptionsArgs, extra: Vec<String> },
    Run { build: BuildOptionsArgs, extra: Vec<String> },
    Preview { file: String },
}

#[derive(Clone, Debug, PartialEq, Eq)]
pub enum NativeCommands {
    New { name: String },
    Add { capability: String, dir: String },
    Extension { extension: NativeExtensionCommands },
    Ir { args: IrArgs },
    Sync { args: SyncArgs },
    Codegen { args: CodegenArgs },
    Build { platform: NativeBuildCommands },
    Run { platform: NativeRunCommands },
}

#[derive(Clone, Debug, PartialEq, Eq)]
pub enum NativeExtensionCommands {
    IosShare { dir: String, name: String },
    MacosShare { dir: String, name: String },
}

#[derive(Clone, Debug, PartialEq, Eq)]
pub enum NativeBuildCommands {
    Ios { dir: Option<String>, target: IosBuildTarget, configuration: String },
    Android { dir: Option<String>, flavor: String },
}

#[derive(Clone, Debug, PartialEq, Eq)]
pub enum NativeRunCommands {
    Ios { dir: Option<String> },
    Android { dir: Option<String>, flavor: String },
}

#[derive(Clone, Debug, PartialEq, Eq)]
pub enum MobileCommands {
    New { name: String },
    Dev {
        dir: String,
        port: u16,
        platform: MobilePlatformArg,
        template: String,
        ctx: Option<String>,
        vars: Vec<String>,
    },
    Build {
        platform: MobilePlatformArg,
        dir: Option<String>,
        target: IosBuildTarget,
        configuration: String,
        flavor: String,
    },
    Run { platform: MobilePlatformArg, dir: Option<String>, flavor: String },
    Doctor { platform: MobilePlatformArg },
    Sync { template: String, dir: String, vars: Vec<String>, pretty: bool },
    Codegen {
        template: Option<String>,
        dir: String,
        platform: Option<MobileCodegenPlatformArg>,
        out: Option<String>,
        view_name: Option<String>,
        vars: Vec<String>,
    },
}

#[derive(Clone, Debug, PartialEq, Eq)]
pub enum TauriCommands {
    Audit { dir: String },
    Convert { dir: String, out: String, target: TauriTargetArg },
}

#[derive(Clone, Copy, Debug, PartialEq, Eq, Structural)]
pub enum TauriTargetArg {
    All,
    Desktop,
    Mobile,
}

/// `ios` (also `swift`, `swiftui`), `android` (also `compose`, `kotlin`) or `all`.
#[derive(Clone, Copy, Debug, PartialEq, Eq, Structural)]
pub enum MobilePlatformArg {
    Ios,
    Android,
    All,
}

/// `--target simulator|device` of the native iOS commands.
#[derive(Clone, Copy, Debug, PartialEq, Eq, Structural)]
pub enum NativeIosTargetArg {
    Simulator,
    Device,
}

#[derive(Clone, Copy, Debug, PartialEq, Eq, Structural)]
pub enum MobileCodegenPlatformArg {
    Ios,
    Android,
}

#[derive(Clone, Debug, PartialEq, Eq)]
pub enum EmbeddedCommands {
    Check { file: String, component: Option<String> },
    Snapshot {
        file: String,
        width: u16,
        height: u16,
        out: String,
        ctx: Option<String>,
        vars: Vec<String>,
        component: Option<String>,
    },
}

#[derive(Clone, Debug, PartialEq, Eq)]
pub enum BenchmarkCommands {
    All { args: BenchmarkRunArgs },
    Run { args: BenchmarkRunArgs },
    Check { args: BenchmarkCheckArgs },
}

/// Flags shared by `crepus benchmark` subcommands.
#[derive(Clone, Debug, PartialEq, Eq)]
pub struct BenchmarkCommonArgs {
    pub config: Option<String>,
    pub suite: Option<String>,
    pub only: Option<String>,
    pub repo: Option<String>,
}

#[derive(Clone, Debug, PartialEq, Eq)]
pub struct BenchmarkRunArgs {
    pub common: BenchmarkCommonArgs,
    pub json: bool,
    pub dry_run: bool,
    pub verbose: bool,
    pub quiet: bool,
    pub clean: bool,
    pub work_root: Option<String>,
    pub memory: bool,
    pub no_memory: bool,
    pub no_tui: bool,
}

#[derive(Clone, Debug, PartialEq, Eq)]
pub struct BenchmarkCheckArgs {
    pub common: BenchmarkCommonArgs,
    pub json: bool,
}

#[derive(Clone, Debug, PartialEq, Eq)]
pub enum PluginsCommands {
    Bindgen { manifest: Option<String>, abi_header: Option<String>, out_dir: Option<String> },
    Test { manifest: Option<String> },
}

} // verus!
