//! Xcode projects for the Apple targets of a manifest: the `project.pbxproj`
//! and shared scheme that `crepus apple generate` writes, the platform named
//! in `[apple]`, and the `xcodebuild` invocation of `crepus apple build`.
use vstd::prelude::*;
use crate::text::{sviews};
use crate::native_ir::{join_path, path_join};
use crate::text::{push_str, str_eq, to_owned_string};

verus! {

/// The Apple platform of an app target.
#[derive(Clone, Copy, Debug, PartialEq, Eq, Structural)]
pub enum Platform {
    Ios,
    Macos,
}

impl Platform {
    pub open spec fn spec_sdk(self) -> Seq<char> {
        match self {
            Platform::Ios => "iphoneos"@,
            Platform::Macos => "macosx"@,
        }
    }

    /// The SDK the project builds against.
    pub fn sdk(self) -> (r: &'static str)
        ensures
            r@ == self.spec_sdk(),
    {
        match self {
            Platform::Ios => "iphoneos",
            Platform::Macos => "macosx",
        }
    }

    pub open spec fn spec_deployment_key(self) -> Seq<char> {
        match self {
            Platform::Ios => "IPHONEOS_DEPLOYMENT_TARGET"@,
            Platform::Macos => "MACOSX_DEPLOYMENT_TARGET"@,
        }
    }

    /// The build setting that holds the deployment target.
    pub fn deployment_key(self) -> (r: &'static str)
        ensures
            r@ == self.spec_deployment_key(),
    {
        match self {
            Platform::Ios => "IPHONEOS_DEPLOYMENT_TARGET",
            Platform::Macos => "MACOSX_DEPLOYMENT_TARGET",
        }
    }

    /// The product type of the app target.
    pub fn product_type(self) -> (r: &'static str)
        ensures
            r@ == "com.apple.product-type.application"@,
    {
        "com.apple.product-type.application"
    }
}

/// What the generated project is made of.
#[derive(Clone, Debug, PartialEq, Eq)]
pub struct AppleConfig {
    pub name: String,
    pub bundle_id: String,
    pub platform: Platform,
    pub deployment_target: String,
    pub package_path: String,
    pub package_product: String,
}

pub open spec fn spec_device_family(p: Platform) -> Seq<char> {
    match p {
        Platform::Ios => "\n                TARGETED_DEVICE_FAMILY = \"1,2\";"@,
        Platform::Macos => Seq::empty(),
    }
}

fn device_family(p: Platform) -> (r: &'static str)
    ensures
        r@ == spec_device_family(p),
{
    proof {
        reveal_strlit("");
    }
    match p {
        Platform::Ios => "\n                TARGETED_DEVICE_FAMILY = \"1,2\";",
        Platform::Macos => "",
    }
}

/// The `project.pbxproj` of an app: one app target built from `App.swift`
/// and `ContentView.swift`, linked against a local Swift package, with the
/// bundle identifier, SDK and deployment target of the configuration. The
/// object identifiers are fixed, so regenerating gives the same file.
pub open spec fn spec_project_file(c: AppleConfig) -> Seq<char> {
    "// !$*UTF8*$!\n{\n    archiveVersion = 1;\n    classes = {};\n    objectVersion = 77;\n    objects = {\n        000000000000000000000001 = {isa = PBXBuildFile; fileRef = 000000000000000000000011; };\n        000000000000000000000002 = {isa = PBXBuildFile; fileRef = 000000000000000000000012; };\n        000000000000000000000003 = {isa = PBXBuildFile; productRef = 000000000000000000000021; };\n        000000000000000000000011 = {isa = PBXFileReference; lastKnownFileType = sourcecode.swift; path = App.swift; sourceTree = \"<group>\"; };\n        000000000000000000000012 = {isa = PBXFileReference; lastKnownFileType = sourcecode.swift; path = ContentView.swift; sourceTree = \"<group>\"; };\n        000000000000000000000013 = {isa = PBXFileReference; lastKnownFileType = wrapper.application; path = "@
        + (c.name@ + ".app"@)
        + "; sourceTree = BUILT_PRODUCTS_DIR; };\n        000000000000000000000014 = {isa = PBXFileReference; lastKnownFileType = folder; path = "@
        + c.package_path@
        + "; sourceTree = SOURCE_ROOT; };\n        000000000000000000000031 = {isa = PBXFrameworksBuildPhase; buildActionMask = 2147483647; files = (000000000000000000000003,); runOnlyForDeploymentPostprocessing = 0; };\n        000000000000000000000032 = {isa = PBXSourcesBuildPhase; buildActionMask = 2147483647; files = (000000000000000000000001,000000000000000000000002,); runOnlyForDeploymentPostprocessing = 0; };\n        000000000000000000000041 = {isa = PBXGroup; children = (000000000000000000000011,000000000000000000000012,); path = App; sourceTree = \"<group>\"; };\n        000000000000000000000042 = {isa = PBXGroup; children = (000000000000000000000014,); name = Packages; sourceTree = \"<group>\"; };\n        000000000000000000000043 = {isa = PBXGroup; children = (000000000000000000000013,); name = Products; sourceTree = \"<group>\"; };\n        000000000000000000000044 = {isa = PBXGroup; children = (000000000000000000000041,000000000000000000000042,000000000000000000000043,); sourceTree = \"<group>\"; };\n        000000000000000000000051 = {isa = PBXNativeTarget; buildConfigurationList = 000000000000000000000061; buildPhases = (000000000000000000000032,000000000000000000000031,); buildRules = (); dependencies = (); name = "@
        + c.name@
        + "; packageProductDependencies = (000000000000000000000021,); productName = "@
        + c.name@
        + "; productReference = 000000000000000000000013; productType = \""@
        + "com.apple.product-type.application"@
        + "\"; };\n        000000000000000000000071 = {isa = XCBuildConfiguration; buildSettings = { GENERATE_INFOPLIST_FILE = YES; PRODUCT_BUNDLE_IDENTIFIER = "@
        + c.bundle_id@
        + "; PRODUCT_NAME = \"$(TARGET_NAME)\"; SDKROOT = "@
        + c.platform.spec_sdk()
        + "; SWIFT_VERSION = 5.9; "@
        + c.platform.spec_deployment_key()
        + " = "@
        + c.deployment_target@
        + ";"@
        + spec_device_family(c.platform)
        + " }; name = Debug; };\n        000000000000000000000072 = {isa = XCBuildConfiguration; buildSettings = { GENERATE_INFOPLIST_FILE = YES; PRODUCT_BUNDLE_IDENTIFIER = "@
        + c.bundle_id@
        + "; PRODUCT_NAME = \"$(TARGET_NAME)\"; SDKROOT = "@
        + c.platform.spec_sdk()
        + "; SWIFT_VERSION = 5.9; "@
        + c.platform.spec_deployment_key()
        + " = "@
        + c.deployment_target@
        + ";"@
        + spec_device_family(c.platform)
        + " }; name = Release; };\n        000000000000000000000073 = {isa = XCBuildConfiguration; buildSettings = { SDKROOT = "@
        + c.platform.spec_sdk()
        + "; "@
        + c.platform.spec_deployment_key()
        + " = "@
        + c.deployment_target@
        + "; }; name = Debug; };\n        000000000000000000000074 = {isa = XCBuildConfiguration; buildSettings = { SDKROOT = "@
        + c.platform.spec_sdk()
        + "; "@
        + c.platform.spec_deployment_key()
        + " = "@
        + c.deployment_target@
        + "; }; name = Release; };\n        000000000000000000000061 = {isa = XCConfigurationList; buildConfigurations = (000000000000000000000071,000000000000000000000072,); defaultConfigurationIsVisible = 0; defaultConfigurationName = Debug; };\n        000000000000000000000062 = {isa = XCConfigurationList; buildConfigurations = (000000000000000000000073,000000000000000000000074,); defaultConfigurationIsVisible = 0; defaultConfigurationName = Debug; };\n        000000000000000000000081 = {isa = XCLocalSwiftPackageReference; relativePath = "@
        + c.package_path@
        + "; };\n        000000000000000000000021 = {isa = XCSwiftPackageProductDependency; productName = "@
        + c.package_product@
        + "; };\n        000000000000000000000091 = {isa = PBXProject; buildConfigurationList = 000000000000000000000062; compatibilityVersion = \"Xcode 16.0\"; developmentRegion = en; hasScannedForEncodings = 0; knownRegions = (Base,en,); mainGroup = 000000000000000000000044; packageReferences = (000000000000000000000081,); productRefGroup = 000000000000000000000043; projectDirPath = \"\"; projectRoot = \"\"; targets = (000000000000000000000051,); };\n    };\n    rootObject = 000000000000000000000091;\n}\n"@
}

pub fn project_file(c: &AppleConfig) -> (r: String)
    ensures
        r@ == spec_project_file(*c),
{
    let mut product = to_owned_string(c.name.as_str());
    push_str(&mut product, ".app");
    let mut r = String::new();
    push_str(&mut r, "// !$*UTF8*$!\n{\n    archiveVersion = 1;\n    classes = {};\n    objectVersion = 77;\n    objects = {\n        000000000000000000000001 = {isa = PBXBuildFile; fileRef = 000000000000000000000011; };\n        000000000000000000000002 = {isa = PBXBuildFile; fileRef = 000000000000000000000012; };\n        000000000000000000000003 = {isa = PBXBuildFile; productRef = 000000000000000000000021; };\n        000000000000000000000011 = {isa = PBXFileReference; lastKnownFileType = sourcecode.swift; path = App.swift; sourceTree = \"<group>\"; };\n        000000000000000000000012 = {isa = PBXFileReference; lastKnownFileType = sourcecode.swift; path = ContentView.swift; sourceTree = \"<group>\"; };\n        000000000000000000000013 = {isa = PBXFileReference; lastKnownFileType = wrapper.application; path = ");
    push_str(&mut r, product.as_str());
    push_str(&mut r, "; sourceTree = BUILT_PRODUCTS_DIR; };\n        000000000000000000000014 = {isa = PBXFileReference; lastKnownFileType = folder; path = ");
    push_str(&mut r, c.package_path.as_str());
    push_str(&mut r, "; sourceTree = SOURCE_ROOT; };\n        000000000000000000000031 = {isa = PBXFrameworksBuildPhase; buildActionMask = 2147483647; files = (000000000000000000000003,); runOnlyForDeploymentPostprocessing = 0; };\n        000000000000000000000032 = {isa = PBXSourcesBuildPhase; buildActionMask = 2147483647; files = (000000000000000000000001,000000000000000000000002,); runOnlyForDeploymentPostprocessing = 0; };\n        000000000000000000000041 = {isa = PBXGroup; children = (000000000000000000000011,000000000000000000000012,); path = App; sourceTree = \"<group>\"; };\n        000000000000000000000042 = {isa = PBXGroup; children = (000000000000000000000014,); name = Packages; sourceTree = \"<group>\"; };\n        000000000000000000000043 = {isa = PBXGroup; children = (000000000000000000000013,); name = Products; sourceTree = \"<group>\"; };\n        000000000000000000000044 = {isa = PBXGroup; children = (000000000000000000000041,000000000000000000000042,000000000000000000000043,); sourceTree = \"<group>\"; };\n        000000000000000000000051 = {isa = PBXNativeTarget; buildConfigurationList = 000000000000000000000061; buildPhases = (000000000000000000000032,000000000000000000000031,); buildRules = (); dependencies = (); name = ");
    push_str(&mut r, c.name.as_str());
    push_str(&mut r, "; packageProductDependencies = (000000000000000000000021,); productName = ");
    push_str(&mut r, c.name.as_str());
    push_str(&mut r, "; productReference = 000000000000000000000013; productType = \"");
    push_str(&mut r, c.platform.product_type());
    push_str(&mut r, "\"; };\n        000000000000000000000071 = {isa = XCBuildConfiguration; buildSettings = { GENERATE_INFOPLIST_FILE = YES; PRODUCT_BUNDLE_IDENTIFIER = ");
    push_str(&mut r, c.bundle_id.as_str());
    push_str(&mut r, "; PRODUCT_NAME = \"$(TARGET_NAME)\"; SDKROOT = ");
    push_str(&mut r, c.platform.sdk());
    push_str(&mut r, "; SWIFT_VERSION = 5.9; ");
    push_str(&mut r, c.platform.deployment_key());
    push_str(&mut r, " = ");
    push_str(&mut r, c.deployment_target.as_str());
    push_str(&mut r, ";");
    push_str(&mut r, device_family(c.platform));
    push_str(&mut r, " }; name = Debug; };\n        000000000000000000000072 = {isa = XCBuildConfiguration; buildSettings = { GENERATE_INFOPLIST_FILE = YES; PRODUCT_BUNDLE_IDENTIFIER = ");
    push_str(&mut r, c.bundle_id.as_str());
    push_str(&mut r, "; PRODUCT_NAME = \"$(TARGET_NAME)\"; SDKROOT = ");
    push_str(&mut r, c.platform.sdk());
    push_str(&mut r, "; SWIFT_VERSION = 5.9; ");
    push_str(&mut r, c.platform.deployment_key());
    push_str(&mut r, " = ");
    push_str(&mut r, c.deployment_target.as_str());
    push_str(&mut r, ";");
    push_str(&mut r, device_family(c.platform));
    push_str(&mut r, " }; name = Release; };\n        000000000000000000000073 = {isa = XCBuildConfiguration; buildSettings = { SDKROOT = ");
    push_str(&mut r, c.platform.sdk());
    push_str(&mut r, "; ");
    push_str(&mut r, c.platform.deployment_key());
    push_str(&mut r, " = ");
    push_str(&mut r, c.deployment_target.as_str());
    push_str(&mut r, "; }; name = Debug; };\n        000000000000000000000074 = {isa = XCBuildConfiguration; buildSettings = { SDKROOT = ");
    push_str(&mut r, c.platform.sdk());
    push_str(&mut r, "; ");
    push_str(&mut r, c.platform.deployment_key());
    push_str(&mut r, " = ");
    push_str(&mut r, c.deployment_target.as_str());
    push_str(&mut r, "; }; name = Release; };\n        000000000000000000000061 = {isa = XCConfigurationList; buildConfigurations = (000000000000000000000071,000000000000000000000072,); defaultConfigurationIsVisible = 0; defaultConfigurationName = Debug; };\n        000000000000000000000062 = {isa = XCConfigurationList; buildConfigurations = (000000000000000000000073,000000000000000000000074,); defaultConfigurationIsVisible = 0; defaultConfigurationName = Debug; };\n        000000000000000000000081 = {isa = XCLocalSwiftPackageReference; relativePath = ");
    push_str(&mut r, c.package_path.as_str());
    push_str(&mut r, "; };\n        000000000000000000000021 = {isa = XCSwiftPackageProductDependency; productName = ");
    push_str(&mut r, c.package_product.as_str());
    push_str(&mut r, "; };\n        000000000000000000000091 = {isa = PBXProject; buildConfigurationList = 000000000000000000000062; compatibilityVersion = \"Xcode 16.0\"; developmentRegion = en; hasScannedForEncodings = 0; knownRegions = (Base,en,); mainGroup = 000000000000000000000044; packageReferences = (000000000000000000000081,); productRefGroup = 000000000000000000000043; projectDirPath = \"\"; projectRoot = \"\"; targets = (000000000000000000000051,); };\n    };\n    rootObject = 000000000000000000000091;\n}\n");
    assert(r@ =~= spec_project_file(*c));
    r
}

/// The shared scheme of an app target named `name`.
pub open spec fn spec_scheme_file(name: Seq<char>) -> Seq<char> {
    "<?xml version=\"1.0\" encoding=\"UTF-8\"?>\n<Scheme LastUpgradeVersion=\"2700\" version=\"1.7\">\n  <BuildAction parallelizeBuildables=\"YES\" buildImplicitDependencies=\"YES\"><BuildActionEntries><BuildActionEntry buildForTesting=\"YES\" buildForRunning=\"YES\" buildForProfiling=\"YES\" buildForArchiving=\"YES\" buildForAnalyzing=\"YES\"><BuildableReference BuildableIdentifier=\"primary\" BlueprintIdentifier=\"000000000000000000000051\" BuildableName=\""@
        + name
        + ".app\" BlueprintName=\""@
        + name
        + "\" ReferencedContainer=\"container:"@
        + name
        + ".xcodeproj\"/></BuildActionEntry></BuildActionEntries></BuildAction>\n  <LaunchAction buildConfiguration=\"Debug\" selectedDebuggerIdentifier=\"Xcode.DebuggerFoundation.Debugger.LLDB\" selectedLauncherIdentifier=\"Xcode.DebuggerFoundation.Launcher.LLDB\" launchStyle=\"0\" useCustomWorkingDirectory=\"NO\" ignoresPersistentStateOnLaunch=\"NO\" debugDocumentVersioning=\"YES\" debugServiceExtension=\"internal\" allowLocationSimulation=\"YES\"><BuildableProductRunnable runnableDebuggingMode=\"0\"><BuildableReference BuildableIdentifier=\"primary\" BlueprintIdentifier=\"000000000000000000000051\" BuildableName=\""@
        + name
        + ".app\" BlueprintName=\""@
        + name
        + "\" ReferencedContainer=\"container:"@
        + name
        + ".xcodeproj\"/></BuildableProductRunnable></LaunchAction>\n</Scheme>\n"@
}

pub fn scheme_file(name: &str) -> (r: String)
    ensures
        r@ == spec_scheme_file(name@),
{
    let mut r = String::new();
    push_str(&mut r, "<?xml version=\"1.0\" encoding=\"UTF-8\"?>\n<Scheme LastUpgradeVersion=\"2700\" version=\"1.7\">\n  <BuildAction parallelizeBuildables=\"YES\" buildImplicitDependencies=\"YES\"><BuildActionEntries><BuildActionEntry buildForTesting=\"YES\" buildForRunning=\"YES\" buildForProfiling=\"YES\" buildForArchiving=\"YES\" buildForAnalyzing=\"YES\"><BuildableReference BuildableIdentifier=\"primary\" BlueprintIdentifier=\"000000000000000000000051\" BuildableName=\"");
    push_str(&mut r, name);
    push_str(&mut r, ".app\" BlueprintName=\"");
    push_str(&mut r, name);
    push_str(&mut r, "\" ReferencedContainer=\"container:");
    push_str(&mut r, name);
    push_str(&mut r, ".xcodeproj\"/></BuildActionEntry></BuildActionEntries></BuildAction>\n  <LaunchAction buildConfiguration=\"Debug\" selectedDebuggerIdentifier=\"Xcode.DebuggerFoundation.Debugger.LLDB\" selectedLauncherIdentifier=\"Xcode.DebuggerFoundation.Launcher.LLDB\" launchStyle=\"0\" useCustomWorkingDirectory=\"NO\" ignoresPersistentStateOnLaunch=\"NO\" debugDocumentVersioning=\"YES\" debugServiceExtension=\"internal\" allowLocationSimulation=\"YES\"><BuildableProductRunnable runnableDebuggingMode=\"0\"><BuildableReference BuildableIdentifier=\"primary\" BlueprintIdentifier=\"000000000000000000000051\" BuildableName=\"");
    push_str(&mut r, name);
    push_str(&mut r, ".app\" BlueprintName=\"");
    push_str(&mut r, name);
    push_str(&mut r, "\" ReferencedContainer=\"container:");
    push_str(&mut r, name);
    push_str(&mut r, ".xcodeproj\"/></BuildableProductRunnable></LaunchAction>\n</Scheme>\n");
    assert(r@ =~= spec_scheme_file(name@));
    r
}

/// Where `crepus apple generate` writes: the project directory, its
/// `project.pbxproj`, and the scheme file.
pub fn project_paths(root: &str, name: &str) -> (r: (String, String, String))
    ensures
        r.0@ == path_join(root@, name@ + ".xcodeproj"@),
        r.1@ == path_join(r.0@, "project.pbxproj"@),
        r.2@ == path_join(path_join(r.0@, "xcshareddata/xcschemes"@), name@ + ".xcscheme"@),
{
    let mut dir = to_owned_string(name);
    push_str(&mut dir, ".xcodeproj");
    let project = join_path(root, dir.as_str());
    let pbx = join_path(project.as_str(), "project.pbxproj");
    let schemes = join_path(project.as_str(), "xcshareddata/xcschemes");
    let mut file = to_owned_string(name);
    push_str(&mut file, ".xcscheme");
    let scheme = join_path(schemes.as_str(), file.as_str());
    (project, pbx, scheme)
}

/// The platform named in `[apple]`: `ios` or `macos`.
pub fn parse_platform(name: &str) -> (r: Result<Platform, String>)
    ensures
        name@ == "ios"@ ==> r == Ok::<Platform, String>(Platform::Ios),
        name@ == "macos"@ ==> r == Ok::<Platform, String>(Platform::Macos),
        name@ != "ios"@ && name@ != "macos"@ ==> (r matches Err(m)
            && m@ == "apple platform must be ios or macos, got "@ + crate::dispatch::debug_quoted(name@)),
{
    proof {
        reveal_strlit("ios");
        reveal_strlit("macos");
        assert("ios"@.len() == 3 && "macos"@.len() == 5);
    }
    if str_eq(name, "ios") {
        Ok(Platform::Ios)
    } else if str_eq(name, "macos") {
        Ok(Platform::Macos)
    } else {
        proof {
            reveal_strlit("apple platform must be ios or macos, got ");
        }
        let mut m = to_owned_string("apple platform must be ios or macos, got ");
        let q = crate::dispatch::quote_debug(name);
        push_str(&mut m, q.as_str());
        Err(m)
    }
}

/// The `xcodebuild` arguments of `crepus apple build`: unsigned, for the
/// simulator SDK on iOS (with a destination, `generic/platform=iOS
/// Simulator` unless one is set) and the macOS SDK on macOS.
pub open spec fn spec_apple_build_args(project: Seq<char>, scheme: Seq<char>, platform: Platform, release: bool, destination: Option<Seq<char>>) -> Seq<Seq<char>> {
    seq!["-project"@, project, "-scheme"@, scheme, "-sdk"@, match platform {
        Platform::Ios => "iphonesimulator"@,
        Platform::Macos => "macosx"@,
    }, "-configuration"@, if release { "Release"@ } else { "Debug"@ }, "CODE_SIGNING_ALLOWED=NO"@, "build"@]
        + match platform {
        Platform::Ios => seq!["-destination"@, match destination {
            Some(d) => d,
            None => "generic/platform=iOS Simulator"@,
        }],
        Platform::Macos => Seq::empty(),
    }
}

pub fn apple_build_args(project: &str, scheme: &str, platform: Platform, release: bool, destination: &Option<String>) -> (r: Vec<String>)
    ensures
        sviews(r@) == spec_apple_build_args(project@, scheme@, platform, release, match destination {
            Some(d) => Some(d@),
            None => None,
        }),
{
    let mut args: Vec<String> = Vec::new();
    args.push(to_owned_string("-project"));
    args.push(to_owned_string(project));
    args.push(to_owned_string("-scheme"));
    args.push(to_owned_string(scheme));
    args.push(to_owned_string("-sdk"));
    args.push(to_owned_string(match platform {
        Platform::Ios => "iphonesimulator",
        Platform::Macos => "macosx",
    }));
    args.push(to_owned_string("-configuration"));
    args.push(to_owned_string(if release { "Release" } else { "Debug" }));
    args.push(to_owned_string("CODE_SIGNING_ALLOWED=NO"));
    args.push(to_owned_string("build"));
    if platform == Platform::Ios {
        args.push(to_owned_string("-destination"));
        match destination {
            Some(d) => args.push(to_owned_string(d.as_str())),
            None => args.push(to_owned_string("generic/platform=iOS Simulator")),
        }
    }
    assert(sviews(args@) =~= spec_apple_build_args(project@, scheme@, platform, release, match destination {
        Some(d) => Some(d@),
        None => None,
    }));
    args
}

} // verus!
