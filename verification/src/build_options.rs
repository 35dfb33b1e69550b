use vstd::prelude::*;

verus! {

/// How a build is configured: which cargo profile and which post-build
/// optimisation level applies.
#[derive(Debug, Clone, Copy, PartialEq, Eq, Structural)]
pub enum BuildMode {
    Debug,
    Dev,
    Release,
}

#[derive(Debug, Clone, Copy, PartialEq, Eq, Structural)]
pub enum OptimizationLevel {
    NoOptimization,
    Fast,
    Size,
    Aggressive,
}

impl BuildMode {
    /// The optimisation level a mode implies when none is given explicitly.
    pub open spec fn spec_default_optimization(self) -> OptimizationLevel {
        match self {
            BuildMode::Debug | BuildMode::Dev => OptimizationLevel::NoOptimization,
            BuildMode::Release => OptimizationLevel::Fast,
        }
    }

    pub fn default_optimization(self) -> (r: OptimizationLevel)
        ensures
            r == self.spec_default_optimization(),
    {
        match self {
            BuildMode::Debug | BuildMode::Dev => OptimizationLevel::NoOptimization,
            BuildMode::Release => OptimizationLevel::Fast,
        }
    }
}


/// The optimisation level named on the command line (`--opt-level`).
#[derive(Clone, Copy, Debug, PartialEq, Eq, Structural)]
pub enum OptLevelArg {
    NoOptimization,
    Fast,
    Size,
    Aggressive,
}

/// The build flags shared by the build commands: at most one of `--debug`,
/// `--dev`, `--release`, and an optional `--opt-level`.
#[derive(Debug, Clone, Copy, PartialEq, Eq)]
pub struct BuildOptionsArgs {
    pub debug: bool,
    pub dev: bool,
    pub release: bool,
    pub opt_level: Option<OptLevelArg>,
}

/// The resolved build configuration.
#[derive(Debug, Clone, Copy, PartialEq, Eq, Structural)]
pub struct BuildOptions {
    pub mode: BuildMode,
    pub optimization: OptimizationLevel,
}

impl OptLevelArg {
    pub open spec fn spec_into_level(self) -> OptimizationLevel {
        match self {
            OptLevelArg::NoOptimization => OptimizationLevel::NoOptimization,
            OptLevelArg::Fast => OptimizationLevel::Fast,
            OptLevelArg::Size => OptimizationLevel::Size,
            OptLevelArg::Aggressive => OptimizationLevel::Aggressive,
        }
    }

    pub fn into_level(self) -> (r: OptimizationLevel)
        ensures
            r == self.spec_into_level(),
    {
        match self {
            OptLevelArg::NoOptimization => OptimizationLevel::NoOptimization,
            OptLevelArg::Fast => OptimizationLevel::Fast,
            OptLevelArg::Size => OptimizationLevel::Size,
            OptLevelArg::Aggressive => OptimizationLevel::Aggressive,
        }
    }
}

impl BuildOptionsArgs {
    /// The arguments with no flag given.
    pub fn new() -> (r: Self)
        ensures
            !r.debug && !r.dev && !r.release && r.opt_level is None,
    {
        BuildOptionsArgs { debug: false, dev: false, release: false, opt_level: None }
    }

    /// The mode the flags select: `--release` wins over `--dev`, and debug is
    /// the default.
    pub open spec fn spec_mode(self) -> BuildMode {
        if self.release {
            BuildMode::Release
        } else if self.dev {
            BuildMode::Dev
        } else {
            BuildMode::Debug
        }
    }

    /// The options the flags select: the explicit level if one was given,
    /// else the mode's default level.
    pub open spec fn spec_options(self) -> BuildOptions {
        BuildOptions {
            mode: self.spec_mode(),
            optimization: match self.opt_level {
                Some(level) => level.spec_into_level(),
                None => self.spec_mode().spec_default_optimization(),
            },
        }
    }

    /// Resolves the flags; this never fails (the flags are mutually exclusive
    /// at parse time).
    pub fn into_options(self) -> (r: Result<BuildOptions, String>)
        ensures
            r == Ok::<BuildOptions, String>(self.spec_options()),
    {
        let mode = if self.release {
            BuildMode::Release
        } else if self.dev {
            BuildMode::Dev
        } else {
            BuildMode::Debug
        };
        let optimization = match self.opt_level {
            Some(level) => level.into_level(),
            None => mode.default_optimization(),
        };
        Ok(BuildOptions { mode, optimization })
    }

    /// As [`Self::into_options`], for callers that stop on an error.
    pub fn into_options_or_exit(self) -> (r: BuildOptions)
        ensures
            r == self.spec_options(),
    {
        match self.into_options() {
            Ok(options) => options,
            Err(_) => BuildOptions::debug(),
        }
    }
}

impl BuildOptions {
    /// Debug mode without post-build optimisation.
    pub fn debug() -> (r: Self)
        ensures
            r.mode == BuildMode::Debug,
            r.optimization == OptimizationLevel::NoOptimization,
    {
        BuildOptions { mode: BuildMode::Debug, optimization: OptimizationLevel::NoOptimization }
    }

    pub open spec fn spec_release(self) -> bool {
        self.mode == BuildMode::Release
    }

    /// Whether the options build in release mode.
    pub fn release(self) -> (r: bool)
        ensures
            r == self.spec_release(),
    {
        self.mode == BuildMode::Release
    }

    /// The cargo profile directory name: `release` or `debug`.
    pub fn cargo_profile(self) -> (r: &'static str)
        ensures
            r@ == (if self.spec_release() {
                "release"@
            } else {
                "debug"@
            }),
    {
        if self.release() {
            "release"
        } else {
            "debug"
        }
    }

    /// Whether build artifacts get a post-build optimisation pass.
    pub fn optimize_artifacts(self) -> (r: bool)
        ensures
            r == (self.optimization != OptimizationLevel::NoOptimization),
    {
        self.optimization != OptimizationLevel::NoOptimization
    }
}

impl OptimizationLevel {
    /// The `wasm-opt` flag for a level; no pass for `NoOptimization`.
    pub fn wasm_opt_flag(self) -> (r: Option<&'static str>)
        ensures
            match self {
                OptimizationLevel::NoOptimization => r is None,
                OptimizationLevel::Fast => r matches Some(f) && f@ == "-O2"@,
                OptimizationLevel::Size => r matches Some(f) && f@ == "-Oz"@,
                OptimizationLevel::Aggressive => r matches Some(f) && f@ == "-O3"@,
            },
    {
        match self {
            OptimizationLevel::NoOptimization => None,
            OptimizationLevel::Fast => Some("-O2"),
            OptimizationLevel::Size => Some("-Oz"),
            OptimizationLevel::Aggressive => Some("-O3"),
        }
    }
}


/// An explicit optimization level wins over whatever the mode flags say,
/// and without one the level is the mode's default.
pub proof fn law_explicit_level_wins(args: BuildOptionsArgs)
    ensures
        args.opt_level matches Some(l) ==> args.spec_options().optimization == l.spec_into_level(),
        args.opt_level is None ==> args.spec_options().optimization == args.spec_mode().spec_default_optimization(),
        args.spec_options().mode == args.spec_mode(),
{
}

} // verus!
