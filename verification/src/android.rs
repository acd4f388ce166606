use std::collections::VecDeque;
use vstd::prelude::*;
use vstd::utf8::encode_utf8;
use crate::context::{Context, ContextView, summary_stages_of};
use crate::effect::{Next, Request, RequestView};
use crate::io::script_of;
use crate::ios::{create_manifest, manifest_stage};
use crate::macos_console::{link, link_stage};
use crate::paths::{join, joined, quoted, quoted_path};
use crate::platform::Platform;
use crate::recipe::{
    Recipe, Stage, StageView, descend, descended, join2, join3, joined2, joined3,
    parts_of, recipe_start, run_script, run_script_in, run_stage, run_stage_in, running,
    stages_of, then, then_all, then_do,
};
use crate::script::{Environment, Script, ScriptView};
use crate::variant::Variant;

verus! {

/// Where the sources of SDL2 are published.
pub const SDL2_SOURCE_URL: &'static str = "https://www.libsdl.org/release/SDL2-2.0.14.zip";

/// The name under which the sources of SDL2 are kept in the NDK project.
pub const SDL2_SOURCE_DIR: &'static str = "SDL";

/// Where the sources of SDL2_image are published.
pub const SDL2_IMAGE_SOURCE_URL: &'static str =
    "https://www.libsdl.org/projects/SDL_image/release/SDL2_image-2.0.5.zip";

/// The name under which the sources of SDL2_image are kept in the NDK project.
pub const SDL2_IMAGE_SOURCE_DIR: &'static str = "SDL2_image";

/// The name of the shared library of the application.
pub const CRUST_SO_FILE_NAME: &'static str = "libcrustlib.so";

/// The command that installs the Rust targets.
pub const INSTALL_COMMAND: &'static str =
    "rustup target add aarch64-linux-android armv7-linux-androideabi i686-linux-android x86_64-linux-android";

/// The make file that lets the NDK build every project below it.
pub const ANDROID_MK: &'static str = "include $(call all-subdir-makefiles)";

/// A processor architecture of Android devices.
#[derive(Debug, Clone, Copy, PartialEq, Eq, Structural)]
pub enum Architecture {
    ARMv8A,
    ARMv7A,
    X86,
    X86_64,
}

impl Architecture {
    /// The name of the directory of the architecture among the libraries of an app.
    pub open spec fn jni_text(self) -> Seq<char> {
        match self {
            Architecture::ARMv8A => "arm64-v8a"@,
            Architecture::ARMv7A => "armeabi-v7a"@,
            Architecture::X86 => "x86"@,
            Architecture::X86_64 => "x86_64"@,
        }
    }

    /// The beginning of the names of the NDK's compilers for the architecture.
    pub open spec fn ndk_text(self) -> Seq<char> {
        match self {
            Architecture::ARMv8A => "aarch64-linux-android"@,
            Architecture::ARMv7A => "armv7a-linux-androideabi"@,
            Architecture::X86 => "i686-linux-android"@,
            Architecture::X86_64 => "x86_64-linux-android"@,
        }
    }

    /// The name of the Rust target for the architecture.
    pub open spec fn rust_text(self) -> Seq<char> {
        match self {
            Architecture::ARMv8A => "aarch64-linux-android"@,
            Architecture::ARMv7A => "armv7-linux-androideabi"@,
            Architecture::X86 => "i686-linux-android"@,
            Architecture::X86_64 => "x86_64-linux-android"@,
        }
    }

    /// The beginning of the name of the NDK's strip tool for the architecture.
    pub open spec fn strip_text(self) -> Seq<char> {
        match self {
            Architecture::ARMv8A => "aarch64-linux-android"@,
            Architecture::ARMv7A => "arm-linux-androideabi"@,
            Architecture::X86 => "i686-linux-android"@,
            Architecture::X86_64 => "x86_64-linux-android"@,
        }
    }

    /// The name of the Rust target as it stands in the names of Cargo's environment
    /// variables: in upper case, with underscores for hyphens.
    pub open spec fn cargo_text(self) -> Seq<char> {
        match self {
            Architecture::ARMv8A => "AARCH64_LINUX_ANDROID"@,
            Architecture::ARMv7A => "ARMV7_LINUX_ANDROIDEABI"@,
            Architecture::X86 => "I686_LINUX_ANDROID"@,
            Architecture::X86_64 => "X86_64_LINUX_ANDROID"@,
        }
    }

    /// The name of the directory of the architecture among the libraries of an app.
    pub fn jni_name(&self) -> (r: String)
        ensures
            r@ == self.jni_text(),
    {
        String::from_str(
            match self {
                Architecture::ARMv8A => "arm64-v8a",
                Architecture::ARMv7A => "armeabi-v7a",
                Architecture::X86 => "x86",
                Architecture::X86_64 => "x86_64",
            },
        )
    }

    /// The beginning of the names of the NDK's compilers for the architecture.
    pub fn ndk_triple(&self) -> (r: String)
        ensures
            r@ == self.ndk_text(),
    {
        String::from_str(
            match self {
                Architecture::ARMv8A => "aarch64-linux-android",
                Architecture::ARMv7A => "armv7a-linux-androideabi",
                Architecture::X86 => "i686-linux-android",
                Architecture::X86_64 => "x86_64-linux-android",
            },
        )
    }

    /// The name of the Rust target for the architecture.
    pub fn rust_triple(&self) -> (r: String)
        ensures
            r@ == self.rust_text(),
    {
        String::from_str(
            match self {
                Architecture::ARMv8A => "aarch64-linux-android",
                Architecture::ARMv7A => "armv7-linux-androideabi",
                Architecture::X86 => "i686-linux-android",
                Architecture::X86_64 => "x86_64-linux-android",
            },
        )
    }

    /// The beginning of the name of the NDK's strip tool for the architecture.
    pub fn strip_triple(&self) -> (r: String)
        ensures
            r@ == self.strip_text(),
    {
        String::from_str(
            match self {
                Architecture::ARMv8A => "aarch64-linux-android",
                Architecture::ARMv7A => "arm-linux-androideabi",
                Architecture::X86 => "i686-linux-android",
                Architecture::X86_64 => "x86_64-linux-android",
            },
        )
    }

    /// The name of the Rust target as it stands in the names of Cargo's environment
    /// variables.
    pub fn cargo_triple(&self) -> (r: String)
        ensures
            r@ == self.cargo_text(),
    {
        String::from_str(
            match self {
                Architecture::ARMv8A => "AARCH64_LINUX_ANDROID",
                Architecture::ARMv7A => "ARMV7_LINUX_ANDROIDEABI",
                Architecture::X86 => "I686_LINUX_ANDROID",
                Architecture::X86_64 => "X86_64_LINUX_ANDROID",
            },
        )
    }
}

/// The directory of the NDK project.
pub open spec fn ndk_project_dir_of(context: ContextView) -> Seq<char> {
    joined(context.working_dir, "ndk"@)
}

/// The directory of the libraries that the NDK project builds.
pub open spec fn compiled_libs_dir_of(context: ContextView) -> Seq<char> {
    joined(ndk_project_dir_of(context), "libs"@)
}

/// The directory `name` of the main sources of the Android app.
pub open spec fn app_main_dir_of(context: ContextView, name: Seq<char>) -> Seq<char> {
    joined(descended(context.target_home_dir, seq!["app"@, "src"@, "main"@]), name)
}

/// The command that lets the NDK build the libraries of the NDK project.
pub open spec fn ndk_build_command(context: ContextView, ndk_dir: Seq<char>) -> Seq<char> {
    let project = ndk_project_dir_of(context);
    quoted_path(joined(ndk_dir, "ndk-build"@)) + " NDK_PROJECT_PATH="@ + quoted_path(project)
        + " APP_BUILD_SCRIPT="@ + quoted_path(joined(project, "Android.mk"@))
        + " APP_PLATFORM=android-21 APP_STL=c++_shared APP_ABI=all"@
}

/// The stages that provide the libraries of SDL2 and SDL2_image: the NDK project gets
/// their sources, the Java sources of SDL are linked into the app, and the NDK builds
/// the libraries afresh.
pub open spec fn sdl2_stages(
    platform: Platform,
    context: ContextView,
    ndk_dir: Seq<char>,
) -> Seq<StageView> {
    let project = ndk_project_dir_of(context);
    seq![
        StageView::Do { request: RequestView::CreateDirAll { path: project } },
        StageView::Do {
            request: RequestView::Fetch {
                platform,
                url: SDL2_SOURCE_URL@,
                name: SDL2_SOURCE_DIR@,
                parent_dir: project,
            },
        },
        StageView::Do {
            request: RequestView::Fetch {
                platform,
                url: SDL2_IMAGE_SOURCE_URL@,
                name: SDL2_IMAGE_SOURCE_DIR@,
                parent_dir: project,
            },
        },
        link_stage(
            platform,
            descended(
                project,
                seq![
                    SDL2_SOURCE_DIR@,
                    "android-project"@,
                    "app"@,
                    "src"@,
                    "main"@,
                    "java"@,
                    "org"@,
                ],
            ),
            joined(app_main_dir_of(context, "java"@), "org"@),
            context.target_home_dir,
        ),
        StageView::Do {
            request: RequestView::WriteBytes {
                path: joined(project, "Android.mk"@),
                content: encode_utf8(ANDROID_MK@),
            },
        },
        StageView::Do { request: RequestView::Delete { path: compiled_libs_dir_of(context) } },
        run_stage_in(platform, ndk_build_command(context, ndk_dir), project),
    ]
}

/// The stages that link the assets into the app.
pub open spec fn assets_stages(platform: Platform, context: ContextView) -> Seq<StageView> {
    let app_assets = app_main_dir_of(context, "assets"@);
    seq![
        StageView::Do { request: RequestView::CreateDirAll { path: app_assets } },
        link_stage(
            platform,
            context.assets_dir,
            joined(app_assets, "assets"@),
            context.target_home_dir,
        ),
    ]
}

/// The name of the directory of the NDK's tools for the host.
pub open spec fn host_tag(platform: Platform) -> Seq<char> {
    match platform {
        Platform::Windows => "windows-x86_64"@,
        Platform::Posix => "darwin-x86_64"@,
    }
}

/// The directory of the NDK's tools.
pub open spec fn toolchain_dir_of(platform: Platform, ndk_dir: Seq<char>) -> Seq<char> {
    joined(
        joined(descended(ndk_dir, seq!["toolchains"@, "llvm"@, "prebuilt"@]), host_tag(platform)),
        "bin"@,
    )
}

/// What the name of a tool of the NDK ends with, the tool being named `posix` on a
/// POSIX-like host and `windows` on a Windows-like one.
pub open spec fn tool_suffix(platform: Platform, posix: Seq<char>, windows: Seq<char>) -> Seq<char> {
    match platform {
        Platform::Windows => windows,
        Platform::Posix => posix,
    }
}

/// The environment in which Cargo compiles for `architecture`: the archiver and the
/// linker of the NDK, and the libraries to link against.
pub open spec fn cargo_environment(
    platform: Platform,
    context: ContextView,
    ndk_dir: Seq<char>,
    architecture: Architecture,
) -> Map<Seq<char>, Seq<char>> {
    let tools = toolchain_dir_of(platform, ndk_dir);
    let target = "CARGO_TARGET_"@ + architecture.cargo_text();
    Map::empty().insert(
        target + "_AR"@,
        joined(tools, architecture.ndk_text() + tool_suffix(platform, "-ar"@, "-ar.exe"@)),
    ).insert(
        target + "_LINKER"@,
        joined(
            tools,
            architecture.ndk_text() + tool_suffix(platform, "30-clang"@, "30-clang.cmd"@),
        ),
    ).insert(
        target + "_RUSTFLAGS"@,
        "-Clink-arg=-L"@ + joined(compiled_libs_dir_of(context), architecture.jni_text())
            + " -lc++_shared -lhidapi -lSDL2 -lSDL2_image"@,
    )
}

/// The command that compiles the library of the application for `architecture`.
pub open spec fn compile_command(context: ContextView, architecture: Architecture) -> Seq<char> {
    "cargo rustc "@ + context.variant.flag_text() + " --target-dir "@ + quoted_path(
        context.rust_build_dir,
    ) + " --lib --target "@ + architecture.rust_text()
}

/// The library of the application that was compiled for `architecture`.
pub open spec fn library_of(context: ContextView, architecture: Architecture) -> Seq<char> {
    joined3(
        context.rust_build_dir,
        architecture.rust_text(),
        context.variant.id_text(),
        CRUST_SO_FILE_NAME@,
    )
}

/// The command that strips the library of the application for `architecture`.
pub open spec fn strip_command(
    platform: Platform,
    context: ContextView,
    ndk_dir: Seq<char>,
    architecture: Architecture,
) -> Seq<char> {
    quoted_path(
        joined(
            toolchain_dir_of(platform, ndk_dir),
            architecture.strip_text() + tool_suffix(platform, "-strip"@, "-strip.exe"@),
        ),
    ) + " "@ + quoted_path(library_of(context, architecture))
}

/// The stages that provide the library of the application for `architecture`: it is
/// compiled, stripped in a build for release, and copied to the libraries of the NDK
/// project.
pub open spec fn architecture_stages(
    platform: Platform,
    context: ContextView,
    ndk_dir: Seq<char>,
    architecture: Architecture,
) -> Seq<StageView> {
    let compile = running(
        platform,
        ScriptView {
            content: script_of(compile_command(context, architecture)).content,
            working_dir: Some(context.working_dir),
            environment: cargo_environment(platform, context, ndk_dir, architecture),
        },
    );
    let strip = match context.variant {
        Variant::Release => seq![
            run_stage_in(
                platform,
                strip_command(platform, context, ndk_dir, architecture),
                context.working_dir,
            ),
        ],
        Variant::Debug => Seq::empty(),
    };
    seq![compile] + strip + seq![
        StageView::Do {
            request: RequestView::Copy {
                platform,
                source: library_of(context, architecture),
                destination: joined2(
                    compiled_libs_dir_of(context),
                    architecture.jni_text(),
                    CRUST_SO_FILE_NAME@,
                ),
            },
        },
    ]
}

/// The stages that provide the library of the application for every architecture.
pub open spec fn compile_stages(
    platform: Platform,
    context: ContextView,
    ndk_dir: Seq<char>,
) -> Seq<StageView> {
    architecture_stages(platform, context, ndk_dir, Architecture::ARMv8A) + architecture_stages(
        platform,
        context,
        ndk_dir,
        Architecture::ARMv7A,
    ) + architecture_stages(platform, context, ndk_dir, Architecture::X86) + architecture_stages(
        platform,
        context,
        ndk_dir,
        Architecture::X86_64,
    )
}

/// The stage that links the libraries of the NDK project into the app.
pub open spec fn jni_link(platform: Platform, context: ContextView) -> StageView {
    link_stage(
        platform,
        compiled_libs_dir_of(context),
        app_main_dir_of(context, "jniLibs"@),
        context.target_home_dir,
    )
}

/// The stages of the build for Android with the NDK in `ndk_dir`.
pub open spec fn build_stages(
    platform: Platform,
    context: ContextView,
    ndk_dir: Seq<char>,
) -> Seq<StageView> {
    summary_stages_of(context) + seq![run_stage(platform, INSTALL_COMMAND@)] + sdl2_stages(
        platform,
        context,
        ndk_dir,
    )
        + assets_stages(platform, context) + seq![manifest_stage(context, "cdylib"@)]
        + compile_stages(platform, context, ndk_dir) + seq![jni_link(platform, context)]
}

/// The stage that installs the Rust targets.
pub fn install_rust_dependencies(platform: Platform) -> (r: Stage)
    ensures
        r@ == run_stage(platform, INSTALL_COMMAND@),
{
    run_script(platform, INSTALL_COMMAND)
}

/// The directory of the NDK project.
pub fn ndk_project_dir(context: &Context) -> (r: String)
    ensures
        r@ == ndk_project_dir_of(context@),
{
    join(context.working_dir.as_str(), "ndk")
}

/// The directory of the libraries that the NDK project builds.
pub fn compiled_libs_dir(context: &Context) -> (r: String)
    ensures
        r@ == compiled_libs_dir_of(context@),
{
    join(ndk_project_dir(context).as_str(), "libs")
}

/// The directory `name` of the main sources of the Android app.
pub fn app_main_dir(context: &Context, name: &str) -> (r: String)
    ensures
        r@ == app_main_dir_of(context@, name@),
{
    let mut parts: Vec<&'static str> = Vec::new();
    parts.push("app");
    parts.push("src");
    parts.push("main");
    assert(parts_of(parts@) =~= seq!["app"@, "src"@, "main"@]);
    join(descend(context.target_home_dir.as_str(), parts).as_str(), name)
}

/// The stages that provide the libraries of SDL2 and SDL2_image.
pub fn setup_sdl2(platform: Platform, context: &Context, ndk_dir: &str) -> (r: VecDeque<Stage>)
    ensures
        stages_of(r@) == sdl2_stages(platform, context@, ndk_dir@),
{
    let project = ndk_project_dir(context);
    let mut parts: Vec<&'static str> = Vec::new();
    parts.push(SDL2_SOURCE_DIR);
    parts.push("android-project");
    parts.push("app");
    parts.push("src");
    parts.push("main");
    parts.push("java");
    parts.push("org");
    assert(parts_of(parts@) =~= seq![
        SDL2_SOURCE_DIR@,
        "android-project"@,
        "app"@,
        "src"@,
        "main"@,
        "java"@,
        "org"@,
    ]);
    let java_sources = descend(project.as_str(), parts);
    let make_file = join(project.as_str(), "Android.mk");
    let mut command = quoted(join(ndk_dir, "ndk-build").as_str());
    command.append(" NDK_PROJECT_PATH=");
    command.append(quoted(project.as_str()).as_str());
    command.append(" APP_BUILD_SCRIPT=");
    command.append(quoted(make_file.as_str()).as_str());
    command.append(" APP_PLATFORM=android-21 APP_STL=c++_shared APP_ABI=all");
    let mut stages: VecDeque<Stage> = VecDeque::new();
    then_do(&mut stages, Request::CreateDirAll { path: project.clone() });
    then_do(
        &mut stages,
        Request::Fetch {
            platform,
            url: String::from_str(SDL2_SOURCE_URL),
            name: String::from_str(SDL2_SOURCE_DIR),
            parent_dir: project.clone(),
        },
    );
    then_do(
        &mut stages,
        Request::Fetch {
            platform,
            url: String::from_str(SDL2_IMAGE_SOURCE_URL),
            name: String::from_str(SDL2_IMAGE_SOURCE_DIR),
            parent_dir: project.clone(),
        },
    );
    then(
        &mut stages,
        link(
            platform,
            java_sources.as_str(),
            join(app_main_dir(context, "java").as_str(), "org").as_str(),
            context.target_home_dir.as_str(),
        ),
    );
    then_do(
        &mut stages,
        Request::WriteBytes { path: make_file, content: ANDROID_MK.as_bytes_vec() },
    );
    then_do(&mut stages, Request::Delete { path: compiled_libs_dir(context) });
    then(&mut stages, run_script_in(platform, command.as_str(), project.as_str()));
    assert(stages_of(stages@) =~= sdl2_stages(platform, context@, ndk_dir@));
    stages
}

/// The stages that link the assets into the app.
pub fn setup_assets(platform: Platform, context: &Context) -> (r: VecDeque<Stage>)
    ensures
        stages_of(r@) == assets_stages(platform, context@),
{
    let app_assets = app_main_dir(context, "assets");
    let mut stages: VecDeque<Stage> = VecDeque::new();
    then_do(&mut stages, Request::CreateDirAll { path: app_assets.clone() });
    then(
        &mut stages,
        link(
            platform,
            context.assets_dir.as_str(),
            join(app_assets.as_str(), "assets").as_str(),
            context.target_home_dir.as_str(),
        ),
    );
    assert(stages_of(stages@) =~= assets_stages(platform, context@));
    stages
}

/// The stage that writes the Cargo manifest for the shared library of the app.
pub fn setup_cargo_manifest(context: &Context) -> (r: Stage)
    ensures
        r@ == manifest_stage(context@, "cdylib"@),
{
    create_manifest(context, "cdylib")
}

/// The directory of the NDK's tools.
pub fn toolchain_dir(platform: Platform, ndk_dir: &str) -> (r: String)
    ensures
        r@ == toolchain_dir_of(platform, ndk_dir@),
{
    let mut parts: Vec<&'static str> = Vec::new();
    parts.push("toolchains");
    parts.push("llvm");
    parts.push("prebuilt");
    assert(parts_of(parts@) =~= seq!["toolchains"@, "llvm"@, "prebuilt"@]);
    let prebuilt = descend(ndk_dir, parts);
    let host = join(
        prebuilt.as_str(),
        match platform {
            Platform::Windows => "windows-x86_64",
            Platform::Posix => "darwin-x86_64",
        },
    );
    join(host.as_str(), "bin")
}

/// The tool of the NDK in `tools` whose name begins with `stem` and ends with `posix`
/// on a POSIX-like host and with `windows` on a Windows-like one.
pub fn tool(platform: Platform, tools: &str, stem: &str, posix: &str, windows: &str) -> (r: String)
    ensures
        r@ == joined(tools@, stem@ + tool_suffix(platform, posix@, windows@)),
{
    let mut name = String::from_str(stem);
    match platform {
        Platform::Windows => name.append(windows),
        Platform::Posix => name.append(posix),
    }
    join(tools, name.as_str())
}

/// The name of the environment variable that tells Cargo about `what` for
/// `architecture`.
pub fn cargo_variable(architecture: Architecture, what: &str) -> (r: String)
    ensures
        r@ == "CARGO_TARGET_"@ + architecture.cargo_text() + what@,
{
    let mut name = String::from_str("CARGO_TARGET_");
    name.append(architecture.cargo_triple().as_str());
    name.append(what);
    name
}

/// The library of the application that was compiled for `architecture`.
pub fn library(context: &Context, architecture: Architecture) -> (r: String)
    ensures
        r@ == library_of(context@, architecture),
{
    join3(
        context.rust_build_dir.as_str(),
        architecture.rust_triple().as_str(),
        context.variant.id(),
        CRUST_SO_FILE_NAME,
    )
}

/// The stages that provide the library of the application for `architecture`.
pub fn compile_architecture(
    platform: Platform,
    context: &Context,
    ndk_dir: &str,
    architecture: Architecture,
) -> (r: VecDeque<Stage>)
    ensures
        stages_of(r@) == architecture_stages(platform, context@, ndk_dir@, architecture),
{
    let tools = toolchain_dir(platform, ndk_dir);
    let ndk_triple = architecture.ndk_triple();
    let mut flags = String::from_str("-Clink-arg=-L");
    flags.append(
        join(compiled_libs_dir(context).as_str(), architecture.jni_name().as_str()).as_str(),
    );
    flags.append(" -lc++_shared -lhidapi -lSDL2 -lSDL2_image");
    let mut environment = Environment::new();
    environment.insert(
        cargo_variable(architecture, "_AR").as_str(),
        tool(platform, tools.as_str(), ndk_triple.as_str(), "-ar", "-ar.exe").as_str(),
    );
    environment.insert(
        cargo_variable(architecture, "_LINKER").as_str(),
        tool(platform, tools.as_str(), ndk_triple.as_str(), "30-clang", "30-clang.cmd").as_str(),
    );
    environment.insert(cargo_variable(architecture, "_RUSTFLAGS").as_str(), flags.as_str());
    let mut command = String::from_str("cargo rustc ");
    command.append(context.variant.rust_compiler_flag());
    command.append(" --target-dir ");
    command.append(quoted(context.rust_build_dir.as_str()).as_str());
    command.append(" --lib --target ");
    command.append(architecture.rust_triple().as_str());
    let script = Script::new(command.as_str()).environment(&environment).working_dir(
        context.working_dir.as_str(),
    );
    let compiled = library(context, architecture);
    let mut stages: VecDeque<Stage> = VecDeque::new();
    then_do(&mut stages, Request::Run { platform, script });
    match context.variant {
        Variant::Release => {
            let strip_tool = tool(
                platform,
                tools.as_str(),
                architecture.strip_triple().as_str(),
                "-strip",
                "-strip.exe",
            );
            let mut strip = quoted(strip_tool.as_str());
            strip.append(" ");
            strip.append(quoted(compiled.as_str()).as_str());
            then(
                &mut stages,
                run_script_in(platform, strip.as_str(), context.working_dir.as_str()),
            );
        },
        Variant::Debug => {},
    }
    let destination = join2(
        compiled_libs_dir(context).as_str(),
        architecture.jni_name().as_str(),
        CRUST_SO_FILE_NAME,
    );
    then_do(&mut stages, Request::Copy { platform, source: compiled, destination });
    assert(stages_of(stages@) =~= architecture_stages(platform, context@, ndk_dir@, architecture));
    stages
}

/// The stages that provide the library of the application for every architecture.
pub fn compile_rust_code(platform: Platform, context: &Context, ndk_dir: &str) -> (r: VecDeque<
    Stage,
>)
    ensures
        stages_of(r@) == compile_stages(platform, context@, ndk_dir@),
{
    let mut stages = compile_architecture(platform, context, ndk_dir, Architecture::ARMv8A);
    then_all(
        &mut stages,
        compile_architecture(platform, context, ndk_dir, Architecture::ARMv7A),
    );
    then_all(&mut stages, compile_architecture(platform, context, ndk_dir, Architecture::X86));
    then_all(
        &mut stages,
        compile_architecture(platform, context, ndk_dir, Architecture::X86_64),
    );
    stages
}

/// The stage that links the libraries of the NDK project into the app.
pub fn link_jni_libs(platform: Platform, context: &Context) -> (r: Stage)
    ensures
        r@ == jni_link(platform, context@),
{
    link(
        platform,
        compiled_libs_dir(context).as_str(),
        app_main_dir(context, "jniLibs").as_str(),
        context.target_home_dir.as_str(),
    )
}

/// Builds the application for Android with the NDK in `ndk_dir`.
pub fn build(platform: Platform, context: &Context, ndk_dir: &str) -> (next: Next<Recipe>)
    ensures
        next@ == recipe_start(build_stages(platform, context@, ndk_dir@)),
{
    let mut stages = context.summary_stages();
    then(&mut stages, install_rust_dependencies(platform));
    then_all(&mut stages, setup_sdl2(platform, context, ndk_dir));
    then_all(&mut stages, setup_assets(platform, context));
    then(&mut stages, setup_cargo_manifest(context));
    then_all(&mut stages, compile_rust_code(platform, context, ndk_dir));
    then(&mut stages, link_jni_libs(platform, context));
    assert(stages_of(stages@) =~= build_stages(platform, context@, ndk_dir@));
    Recipe::start(stages)
}

} // verus!
