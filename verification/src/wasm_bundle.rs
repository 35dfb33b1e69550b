//! Where the `wasm32-unknown-unknown` builds of web and webext targets put
//! their artifacts, and what the `wasm-opt` pass reports.
use vstd::prelude::*;
use crate::build_options::{BuildOptions, OptimizationLevel};
use crate::native_ir::{join_path, path_join};

verus! {

/// The outcome of the `wasm-opt` pass.
#[derive(Debug, Clone, Copy, PartialEq, Eq, Structural)]
pub enum WasmOptStatus {
    /// Optimised, or no pass was asked for.
    Optimized,
    /// `wasm-opt` is not on `PATH`; the artifact stays as built.
    NotInstalled,
}

/// The release directories of a wasm build, in the app's workspace target
/// and in the runtime crate's own target:
/// `<dir>/target/wasm32-unknown-unknown/<debug|release>`.
pub fn wasm_profile_dirs(app_path: &str, runtime_dir: &str, options: BuildOptions) -> (r: (String, String))
    ensures
        ({
            let profile = if options.spec_release() { "release"@ } else { "debug"@ };
            &&& r.0@ == path_join(path_join(app_path@, "target/wasm32-unknown-unknown"@), profile)
            &&& r.1@ == path_join(path_join(runtime_dir@, "target/wasm32-unknown-unknown"@), profile)
        }),
{
    let profile = options.cargo_profile();
    let app_target = join_path(app_path, "target/wasm32-unknown-unknown");
    let workspace_target = join_path(app_target.as_str(), profile);
    let runtime_target = join_path(runtime_dir, "target/wasm32-unknown-unknown");
    let local_target = join_path(runtime_target.as_str(), profile);
    (workspace_target, local_target)
}

/// The status of the `wasm-opt` pass before it runs: no flag for the level
/// means nothing to do (`Optimized`); a missing `wasm-opt` means
/// `NotInstalled`; otherwise the pass runs with the flag.
pub fn wasm_opt_decision(optimization: OptimizationLevel, wasm_opt_available: bool) -> (r: Result<&'static str, WasmOptStatus>)
    ensures
        optimization == OptimizationLevel::NoOptimization ==> r == Err::<&'static str, WasmOptStatus>(WasmOptStatus::Optimized),
        optimization != OptimizationLevel::NoOptimization && !wasm_opt_available
            ==> r == Err::<&'static str, WasmOptStatus>(WasmOptStatus::NotInstalled),
        optimization != OptimizationLevel::NoOptimization && wasm_opt_available ==> (r matches Ok(flag)
            && flag@ == match optimization {
                OptimizationLevel::Fast => "-O2"@,
                OptimizationLevel::Size => "-Oz"@,
                _ => "-O3"@,
            }),
{
    match optimization.wasm_opt_flag() {
        None => Err(WasmOptStatus::Optimized),
        Some(flag) => if wasm_opt_available {
            Ok(flag)
        } else {
            Err(WasmOptStatus::NotInstalled)
        },
    }
}

} // verus!
