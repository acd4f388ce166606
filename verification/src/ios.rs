use std::collections::VecDeque;
use vstd::prelude::*;
use crate::context::{Context, ContextView, summary_stages_of};
use crate::effect::{Next, Request, RequestView};
use crate::macos_console::{link, link_stage};
use crate::paths::{join, joined, quoted, quoted_path};
use crate::platform::Platform;
use crate::recipe::{
    Recipe, Stage, StageView, join2, join3, joined2, joined3, recipe_start,
    run_script, run_script_in, run_stage, run_stage_in, stages_of, then, then_all, then_do,
};

verus! {

/// The Rust target for iPhones.
pub const ARCHITECTURE_ARM64_IPHONE: &'static str = "aarch64-apple-ios";

/// The Rust target for the simulator on Macs with Apple processors.
pub const ARCHITECTURE_ARM64_SIMULATOR: &'static str = "aarch64-apple-ios-sim";

/// The Rust target for the simulator on Macs with Intel processors.
pub const ARCHITECTURE_X86_64_SIMULATOR: &'static str = "x86_64-apple-ios";

/// Where the sources of SDL2 are published.
pub const SDL2_URL: &'static str = "https://www.libsdl.org/release/SDL2-2.0.14.zip";

/// The name under which the sources of SDL2 are kept in the working directory.
pub const SDL2_DIR: &'static str = "SDL";

/// The name of the framework of SDL2.
pub const SDL2_FRAMEWORK_NAME: &'static str = "SDL2.xcframework";

/// Where the sources of SDL2_image are published.
pub const SDL2_IMAGE_URL: &'static str =
    "https://www.libsdl.org/projects/SDL_image/release/SDL2_image-2.0.5.zip";

/// The name under which the sources of SDL2_image are kept in the working directory.
pub const SDL2_IMAGE_DIR: &'static str = "SDL2_image";

/// The name of the framework of SDL2_image.
pub const SDL2_IMAGE_FRAMEWORK_NAME: &'static str = "SDL2_image.xcframework";

/// The name of the static library of the application.
pub const LIBRARY_NAME: &'static str = "libcrustlib.a";

/// The command that installs the Rust targets.
pub const INSTALL_COMMAND: &'static str =
    "rustup target add aarch64-apple-ios aarch64-apple-ios-sim x86_64-apple-ios";

/// The command that builds the static library of SDL2 for the simulators.
pub const SDL2_SIMULATOR_COMMAND: &'static str =
    r#"xcodebuild -project "SDL.xcodeproj" -scheme "Static Library-iOS" -configuration Release -sdk iphonesimulator -derivedDataPath "build_iphonesimulator" -arch arm64 -arch x86_64 only_active_arch=no"#;

/// The command that builds the static library of SDL2 for the phone.
pub const SDL2_PHONE_COMMAND: &'static str =
    r#"xcodebuild -project "SDL.xcodeproj" -scheme "Static Library-iOS" -configuration Release -sdk iphoneos -derivedDataPath "build_iphoneos" -arch arm64 only_active_arch=no"#;

/// The command that builds the static library of SDL2_image for the simulators.
pub const SDL2_IMAGE_SIMULATOR_COMMAND: &'static str =
    r#"xcodebuild -project "SDL_image.xcodeproj" -scheme "libSDL_image-iOS" -configuration Release -sdk iphonesimulator -derivedDataPath "build_iphonesimulator" -arch arm64 -arch x86_64 only_active_arch=no"#;

/// The command that builds the static library of SDL2_image for the phone.
pub const SDL2_IMAGE_PHONE_COMMAND: &'static str =
    r#"xcodebuild -project "SDL_image.xcodeproj" -scheme "libSDL_image-iOS" -configuration Release -sdk iphoneos -derivedDataPath "build_iphoneos" -arch arm64 only_active_arch=no"#;

/// The directory that holds the frameworks of the build.
pub open spec fn frameworks_dir_of(context: ContextView) -> Seq<char> {
    joined(context.working_dir, "Frameworks"@)
}

/// The stages that create the directory of frameworks and link it into the Xcode
/// project.
pub open spec fn frameworks_stages(platform: Platform, context: ContextView) -> Seq<StageView> {
    seq![
        StageView::Do { request: RequestView::CreateDirAll { path: frameworks_dir_of(context) } },
        link_stage(
            platform,
            frameworks_dir_of(context),
            joined2(context.target_home_dir, "crust"@, "Frameworks"@),
            context.working_dir,
        ),
    ]
}

/// The stage that fetches the artifact `name` from `url` into the working directory.
pub open spec fn fetch_stage(
    platform: Platform,
    context: ContextView,
    url: Seq<char>,
    name: Seq<char>,
) -> StageView {
    StageView::Do {
        request: RequestView::Fetch { platform, url, name, parent_dir: context.working_dir },
    }
}

/// The command that joins the static libraries of SDL2 for the simulators and for the
/// phone into the framework `output`, with the headers in `headers`.
pub open spec fn sdl2_framework_command(headers: Seq<char>, output: Seq<char>) -> Seq<char> {
    "xcodebuild -create-xcframework -library build_iphonesimulator/Build/Products/Release-iphonesimulator/libSDL2.a -headers "@
        + quoted_path(headers)
        + " -library build_iphoneos/Build/Products/Release-iphoneos/libSDL2.a -headers "@
        + quoted_path(headers) + " -output "@ + quoted_path(output)
}

/// The command that joins the static libraries of SDL2_image into the framework
/// `output`.
pub open spec fn sdl2_image_framework_command(output: Seq<char>) -> Seq<char> {
    "xcodebuild -create-xcframework -library build_iphonesimulator/Build/Products/Release-iphonesimulator/libSDL2_image.a -library build_iphoneos/Build/Products/Release-iphoneos/libSDL2_image.a -output "@
        + quoted_path(output)
}

/// The stages that provide the framework of SDL2 in `frameworks`, unless it is there:
/// its sources are fetched, its static libraries are built for the simulators and for
/// the phone, and they are joined into the framework.
pub open spec fn sdl2_stages(
    platform: Platform,
    context: ContextView,
    frameworks: Seq<char>,
) -> Seq<StageView> {
    let output = joined(frameworks, SDL2_FRAMEWORK_NAME@);
    let project_dir = joined3(context.working_dir, SDL2_DIR@, "Xcode"@, "SDL"@);
    let headers = joined2(context.working_dir, SDL2_DIR@, "include"@);
    seq![
        StageView::Unless { path: output, count: 4 },
        fetch_stage(platform, context, SDL2_URL@, SDL2_DIR@),
        run_stage_in(platform, SDL2_SIMULATOR_COMMAND@, project_dir),
        run_stage_in(platform, SDL2_PHONE_COMMAND@, project_dir),
        run_stage_in(platform, sdl2_framework_command(headers, output), project_dir),
    ]
}

/// The stages that provide the framework of SDL2_image in `frameworks`, unless it is
/// there.
pub open spec fn sdl2_image_stages(
    platform: Platform,
    context: ContextView,
    frameworks: Seq<char>,
) -> Seq<StageView> {
    let output = joined(frameworks, SDL2_IMAGE_FRAMEWORK_NAME@);
    let project_dir = joined2(context.working_dir, SDL2_IMAGE_DIR@, "Xcode-iOS"@);
    seq![
        StageView::Unless { path: output, count: 4 },
        fetch_stage(platform, context, SDL2_IMAGE_URL@, SDL2_IMAGE_DIR@),
        run_stage_in(platform, SDL2_IMAGE_SIMULATOR_COMMAND@, project_dir),
        run_stage_in(platform, SDL2_IMAGE_PHONE_COMMAND@, project_dir),
        run_stage_in(platform, sdl2_image_framework_command(output), project_dir),
    ]
}

/// The command that compiles the library of the application for `architecture`.
pub open spec fn compile_command(context: ContextView, architecture: Seq<char>) -> Seq<char> {
    "cargo rustc "@ + context.variant.flag_text() + " --target-dir "@ + quoted_path(
        context.rust_build_dir,
    ) + " --lib --target "@ + architecture
}

/// The stages that compile the library of the application for the phone and for the
/// two simulators.
pub open spec fn compile_stages(platform: Platform, context: ContextView) -> Seq<StageView> {
    seq![
        run_stage_in(
            platform,
            compile_command(context, ARCHITECTURE_ARM64_IPHONE@),
            context.working_dir,
        ),
        run_stage_in(
            platform,
            compile_command(context, ARCHITECTURE_ARM64_SIMULATOR@),
            context.working_dir,
        ),
        run_stage_in(
            platform,
            compile_command(context, ARCHITECTURE_X86_64_SIMULATOR@),
            context.working_dir,
        ),
    ]
}

/// The library of the application that was compiled for `architecture`.
pub open spec fn library_of(context: ContextView, architecture: Seq<char>) -> Seq<char> {
    joined3(context.rust_build_dir, architecture, context.variant.id_text(), LIBRARY_NAME@)
}

/// The directory of the library that serves both simulators.
pub open spec fn simulator_dir_of(context: ContextView) -> Seq<char> {
    joined2(
        context.rust_build_dir,
        ARCHITECTURE_ARM64_SIMULATOR@ + "-"@ + ARCHITECTURE_X86_64_SIMULATOR@,
        context.variant.id_text(),
    )
}

/// The command that joins the libraries for the two simulators into one.
pub open spec fn lipo_command(context: ContextView) -> Seq<char> {
    "lipo -create -output "@ + quoted_path(joined(simulator_dir_of(context), LIBRARY_NAME@))
        + " "@ + quoted_path(library_of(context, ARCHITECTURE_ARM64_SIMULATOR@)) + " "@
        + quoted_path(library_of(context, ARCHITECTURE_X86_64_SIMULATOR@))
}

/// The command that joins the library for the phone and the library for the
/// simulators into the framework `output`.
pub open spec fn framework_command(context: ContextView, output: Seq<char>) -> Seq<char> {
    "xcodebuild -create-xcframework -library "@ + quoted_path(
        library_of(context, ARCHITECTURE_ARM64_IPHONE@),
    ) + " -library "@ + quoted_path(joined(simulator_dir_of(context), LIBRARY_NAME@))
        + " -output "@ + quoted_path(output)
}

/// The stages that make the product, the framework of the application in
/// `frameworks`: the libraries for the simulators are joined, the framework of an
/// earlier build is deleted, and the framework is made of the library for the phone
/// and the library for the simulators.
pub open spec fn output_stages(
    platform: Platform,
    context: ContextView,
    frameworks: Seq<char>,
) -> Seq<StageView> {
    let output = joined(frameworks, "crust.xcframework"@);
    seq![
        StageView::Do { request: RequestView::CreateDirAll { path: simulator_dir_of(context) } },
        run_stage_in(platform, lipo_command(context), context.working_dir),
        StageView::Do { request: RequestView::Delete { path: output } },
        run_stage_in(platform, framework_command(context, output), context.working_dir),
    ]
}

/// The stage that writes the Cargo manifest for a library of the kind `crate_type`.
pub open spec fn manifest_stage(context: ContextView, crate_type: Seq<char>) -> StageView {
    StageView::Do {
        request: RequestView::CreateManifest {
            source_dir: context.source_dir,
            working_dir: context.working_dir,
            crate_type,
        },
    }
}

/// The stages of the build for iOS.
pub open spec fn build_stages(platform: Platform, context: ContextView) -> Seq<StageView> {
    let frameworks = frameworks_dir_of(context);
    summary_stages_of(context) + seq![run_stage(platform, INSTALL_COMMAND@)]
        + frameworks_stages(platform, context)
        + sdl2_stages(platform, context, frameworks) + sdl2_image_stages(
        platform,
        context,
        frameworks,
    ) + seq![manifest_stage(context, "staticlib"@)] + compile_stages(platform, context)
        + output_stages(platform, context, frameworks)
}

/// The stage that installs the Rust targets.
pub fn install_rust_dependencies(platform: Platform) -> (r: Stage)
    ensures
        r@ == run_stage(platform, INSTALL_COMMAND@),
{
    run_script(platform, INSTALL_COMMAND)
}

/// The stages that create the directory of frameworks and link it into the Xcode
/// project, and that directory.
pub fn setup_frameworks_dir(platform: Platform, context: &Context) -> (r: (VecDeque<Stage>, String))
    ensures
        stages_of(r.0@) == frameworks_stages(platform, context@),
        r.1@ == frameworks_dir_of(context@),
{
    let frameworks = join(context.working_dir.as_str(), "Frameworks");
    let mut stages: VecDeque<Stage> = VecDeque::new();
    then_do(&mut stages, Request::CreateDirAll { path: frameworks.clone() });
    then(
        &mut stages,
        link(
            platform,
            frameworks.as_str(),
            join2(context.target_home_dir.as_str(), "crust", "Frameworks").as_str(),
            context.working_dir.as_str(),
        ),
    );
    assert(stages_of(stages@) =~= frameworks_stages(platform, context@));
    (stages, frameworks)
}

/// The stage that fetches the artifact `name` from `url` into the working directory.
pub fn fetch_sources(platform: Platform, context: &Context, url: &str, name: &str) -> (r: Stage)
    ensures
        r@ == fetch_stage(platform, context@, url@, name@),
{
    Stage::Do {
        request: Request::Fetch {
            platform,
            url: String::from_str(url),
            name: String::from_str(name),
            parent_dir: context.working_dir.clone(),
        },
    }
}

/// The stages that provide the framework of SDL2 in `frameworks_dir`.
pub fn setup_sdl2(platform: Platform, context: &Context, frameworks_dir: &str) -> (r: VecDeque<Stage>)
    ensures
        stages_of(r@) == sdl2_stages(platform, context@, frameworks_dir@),
{
    let output = join(frameworks_dir, SDL2_FRAMEWORK_NAME);
    let project_dir = join3(context.working_dir.as_str(), SDL2_DIR, "Xcode", "SDL");
    let headers = join2(context.working_dir.as_str(), SDL2_DIR, "include");
    let mut command = String::from_str(
        "xcodebuild -create-xcframework -library build_iphonesimulator/Build/Products/Release-iphonesimulator/libSDL2.a -headers ",
    );
    command.append(quoted(headers.as_str()).as_str());
    command.append(" -library build_iphoneos/Build/Products/Release-iphoneos/libSDL2.a -headers ");
    command.append(quoted(headers.as_str()).as_str());
    command.append(" -output ");
    command.append(quoted(output.as_str()).as_str());
    let mut stages: VecDeque<Stage> = VecDeque::new();
    then(&mut stages, Stage::Unless { path: output, count: 4 });
    then(&mut stages, fetch_sources(platform, context, SDL2_URL, SDL2_DIR));
    then(&mut stages, run_script_in(platform, SDL2_SIMULATOR_COMMAND, project_dir.as_str()));
    then(&mut stages, run_script_in(platform, SDL2_PHONE_COMMAND, project_dir.as_str()));
    then(&mut stages, run_script_in(platform, command.as_str(), project_dir.as_str()));
    assert(stages_of(stages@) =~= sdl2_stages(platform, context@, frameworks_dir@));
    stages
}

/// The stages that provide the framework of SDL2_image in `frameworks_dir`.
pub fn setup_sdl2_image(platform: Platform, context: &Context, frameworks_dir: &str) -> (r:
    VecDeque<Stage>)
    ensures
        stages_of(r@) == sdl2_image_stages(platform, context@, frameworks_dir@),
{
    let output = join(frameworks_dir, SDL2_IMAGE_FRAMEWORK_NAME);
    let project_dir = join2(context.working_dir.as_str(), SDL2_IMAGE_DIR, "Xcode-iOS");
    let mut command = String::from_str(
        "xcodebuild -create-xcframework -library build_iphonesimulator/Build/Products/Release-iphonesimulator/libSDL2_image.a -library build_iphoneos/Build/Products/Release-iphoneos/libSDL2_image.a -output ",
    );
    command.append(quoted(output.as_str()).as_str());
    let mut stages: VecDeque<Stage> = VecDeque::new();
    then(&mut stages, Stage::Unless { path: output, count: 4 });
    then(&mut stages, fetch_sources(platform, context, SDL2_IMAGE_URL, SDL2_IMAGE_DIR));
    then(
        &mut stages,
        run_script_in(platform, SDL2_IMAGE_SIMULATOR_COMMAND, project_dir.as_str()),
    );
    then(&mut stages, run_script_in(platform, SDL2_IMAGE_PHONE_COMMAND, project_dir.as_str()));
    then(&mut stages, run_script_in(platform, command.as_str(), project_dir.as_str()));
    assert(stages_of(stages@) =~= sdl2_image_stages(platform, context@, frameworks_dir@));
    stages
}

/// The stage that compiles the library of the application for `architecture`.
pub fn compile_for(platform: Platform, context: &Context, architecture: &str) -> (r: Stage)
    ensures
        r@ == run_stage_in(platform, compile_command(context@, architecture@), context@.working_dir),
{
    let mut command = String::from_str("cargo rustc ");
    command.append(context.variant.rust_compiler_flag());
    command.append(" --target-dir ");
    command.append(quoted(context.rust_build_dir.as_str()).as_str());
    command.append(" --lib --target ");
    command.append(architecture);
    run_script_in(platform, command.as_str(), context.working_dir.as_str())
}

/// The stages that compile the library of the application for the phone and for the
/// two simulators.
pub fn compile(platform: Platform, context: &Context) -> (r: VecDeque<Stage>)
    ensures
        stages_of(r@) == compile_stages(platform, context@),
{
    let mut stages: VecDeque<Stage> = VecDeque::new();
    then(&mut stages, compile_for(platform, context, ARCHITECTURE_ARM64_IPHONE));
    then(&mut stages, compile_for(platform, context, ARCHITECTURE_ARM64_SIMULATOR));
    then(&mut stages, compile_for(platform, context, ARCHITECTURE_X86_64_SIMULATOR));
    assert(stages_of(stages@) =~= compile_stages(platform, context@));
    stages
}

/// The library of the application that was compiled for `architecture`.
pub fn library(context: &Context, architecture: &str) -> (r: String)
    ensures
        r@ == library_of(context@, architecture@),
{
    join3(context.rust_build_dir.as_str(), architecture, context.variant.id(), LIBRARY_NAME)
}

/// The directory of the library that serves both simulators.
pub fn simulator_dir(context: &Context) -> (r: String)
    ensures
        r@ == simulator_dir_of(context@),
{
    let mut name = String::from_str(ARCHITECTURE_ARM64_SIMULATOR);
    name.append("-");
    name.append(ARCHITECTURE_X86_64_SIMULATOR);
    join2(context.rust_build_dir.as_str(), name.as_str(), context.variant.id())
}

/// The stages that make the framework of the application in `frameworks_dir`.
pub fn create_output(platform: Platform, context: &Context, frameworks_dir: &str) -> (r: VecDeque<
    Stage,
>)
    ensures
        stages_of(r@) == output_stages(platform, context@, frameworks_dir@),
{
    let simulators = simulator_dir(context);
    let simulator_library = join(simulators.as_str(), LIBRARY_NAME);
    let output = join(frameworks_dir, "crust.xcframework");
    let mut lipo = String::from_str("lipo -create -output ");
    lipo.append(quoted(simulator_library.as_str()).as_str());
    lipo.append(" ");
    lipo.append(quoted(library(context, ARCHITECTURE_ARM64_SIMULATOR).as_str()).as_str());
    lipo.append(" ");
    lipo.append(quoted(library(context, ARCHITECTURE_X86_64_SIMULATOR).as_str()).as_str());
    let mut framework = String::from_str("xcodebuild -create-xcframework -library ");
    framework.append(quoted(library(context, ARCHITECTURE_ARM64_IPHONE).as_str()).as_str());
    framework.append(" -library ");
    framework.append(quoted(simulator_library.as_str()).as_str());
    framework.append(" -output ");
    framework.append(quoted(output.as_str()).as_str());
    let mut stages: VecDeque<Stage> = VecDeque::new();
    then_do(&mut stages, Request::CreateDirAll { path: simulators });
    then(&mut stages, run_script_in(platform, lipo.as_str(), context.working_dir.as_str()));
    then_do(&mut stages, Request::Delete { path: output });
    then(&mut stages, run_script_in(platform, framework.as_str(), context.working_dir.as_str()));
    assert(stages_of(stages@) =~= output_stages(platform, context@, frameworks_dir@));
    stages
}

/// The stage that writes the Cargo manifest for a library of the kind `crate_type`.
pub fn create_manifest(context: &Context, crate_type: &str) -> (r: Stage)
    ensures
        r@ == manifest_stage(context@, crate_type@),
{
    Stage::Do {
        request: Request::CreateManifest {
            source_dir: context.source_dir.clone(),
            working_dir: context.working_dir.clone(),
            crate_type: String::from_str(crate_type),
        },
    }
}

/// Builds the application for iOS.
pub fn build(platform: Platform, context: &Context) -> (next: Next<Recipe>)
    ensures
        next@ == recipe_start(build_stages(platform, context@)),
{
    let mut stages = context.summary_stages();
    then(&mut stages, install_rust_dependencies(platform));
    let (frameworks_stages, frameworks) = setup_frameworks_dir(platform, context);
    then_all(&mut stages, frameworks_stages);
    then_all(&mut stages, setup_sdl2(platform, context, frameworks.as_str()));
    then_all(&mut stages, setup_sdl2_image(platform, context, frameworks.as_str()));
    then(&mut stages, create_manifest(context, "staticlib"));
    then_all(&mut stages, compile(platform, context));
    then_all(&mut stages, create_output(platform, context, frameworks.as_str()));
    assert(stages_of(stages@) =~= build_stages(platform, context@));
    Recipe::start(stages)
}

} // verus!
