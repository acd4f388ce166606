use std::collections::VecDeque;
use vstd::prelude::*;
use crate::context::{Context, ContextView, summary_stages_of};
use crate::effect::{Next, Request, RequestView, texts_of};
use crate::outputs::{output_dir, output_dir_of};
use crate::paths::{join, joined, quoted, quoted_path};
use crate::platform::Platform;
use crate::recipe::{
    Recipe, Stage, StageView, join2, join3, joined2, joined3, recipe_start, run_script,
    run_stage, stages_of, then, then_all, then_do,
};

verus! {

/// Where the development files of SDL2 for Windows are published.
pub const SDL2_URL: &'static str = "https://www.libsdl.org/release/SDL2-devel-2.0.14-VC.zip";

/// The name under which SDL2 is kept in the working directory.
pub const SDL2_DIR: &'static str = "sdl2";

/// Where the development files of SDL2_image for Windows are published.
pub const SDL2_IMAGE_URL: &'static str =
    "https://www.libsdl.org/projects/SDL_image/release/SDL2_image-devel-2.0.5-VC.zip";

/// The name under which SDL2_image is kept in the working directory.
pub const SDL2_IMAGE_DIR: &'static str = "sdl2-image";

/// The directory of the 64-bit libraries of the artifact `name` in the working
/// directory.
pub open spec fn libs_dir_of(context: ContextView, name: Seq<char>) -> Seq<char> {
    joined3(context.working_dir, name, "lib"@, "x64"@)
}

/// The stage that fetches the artifact `name` from `url` into the working directory.
pub open spec fn fetch_stage(
    platform: Platform,
    context: ContextView,
    url: Seq<char>,
    name: Seq<char>,
) -> StageView {
    StageView::Do {
        request: RequestView::Fetch { platform, url, name, parent_dir: context.working_dir },
    }
}

/// The command that compiles the application and lets the linker search the two
/// directories of libraries.
pub open spec fn compile_command(
    context: ContextView,
    sdl2_libs_dir: Seq<char>,
    sdl2_image_libs_dir: Seq<char>,
) -> Seq<char> {
    "cargo rustc "@ + context.variant.flag_text() + " --manifest-path "@ + quoted_path(
        joined(context.source_dir, "Cargo.toml"@),
    ) + " --bin crust --target-dir "@ + quoted_path(context.rust_build_dir) + " -- -L "@
        + quoted_path(sdl2_libs_dir) + " -L "@ + quoted_path(sdl2_image_libs_dir)
}

/// The products of the build: the program and the libraries it loads.
pub open spec fn products(
    context: ContextView,
    sdl2_libs_dir: Seq<char>,
    sdl2_image_libs_dir: Seq<char>,
) -> Seq<Seq<char>> {
    seq![
        joined2(context.rust_build_dir, context.variant.id_text(), "crust.exe"@),
        joined(sdl2_libs_dir, "SDL2.dll"@),
        joined(sdl2_image_libs_dir, "SDL2_image.dll"@),
        joined(sdl2_image_libs_dir, "libpng16-16.dll"@),
        joined(sdl2_image_libs_dir, "zlib1.dll"@),
    ]
}

/// The stages that collect the products in the emptied output directory.
pub open spec fn output_stages(
    platform: Platform,
    context: ContextView,
    sdl2_libs_dir: Seq<char>,
    sdl2_image_libs_dir: Seq<char>,
) -> Seq<StageView> {
    seq![
        StageView::Do { request: RequestView::Delete { path: output_dir_of(context) } },
        StageView::Do {
            request: RequestView::Collect {
                platform,
                output: output_dir_of(context),
                sources: products(context, sdl2_libs_dir, sdl2_image_libs_dir),
            },
        },
    ]
}

/// The stages of the build for Windows: the summary is shown, SDL2 and SDL2_image are
/// fetched, the
/// application is compiled against them, and the program is collected with the
/// libraries it loads.
pub open spec fn build_stages(platform: Platform, context: ContextView) -> Seq<StageView> {
    let sdl2_libs_dir = libs_dir_of(context, SDL2_DIR@);
    let sdl2_image_libs_dir = libs_dir_of(context, SDL2_IMAGE_DIR@);
    summary_stages_of(context) + seq![
        fetch_stage(platform, context, SDL2_URL@, SDL2_DIR@),
        fetch_stage(platform, context, SDL2_IMAGE_URL@, SDL2_IMAGE_DIR@),
        run_stage(platform, compile_command(context, sdl2_libs_dir, sdl2_image_libs_dir)),
    ] + output_stages(platform, context, sdl2_libs_dir, sdl2_image_libs_dir)
}

fn fetch_into(platform: Platform, context: &Context, url: &str, name: &str) -> (r: (Stage, String))
    ensures
        r.0@ == fetch_stage(platform, context@, url@, name@),
        r.1@ == libs_dir_of(context@, name@),
{
    let stage = Stage::Do {
        request: Request::Fetch {
            platform,
            url: String::from_str(url),
            name: String::from_str(name),
            parent_dir: context.working_dir.clone(),
        },
    };
    (stage, join3(context.working_dir.as_str(), name, "lib", "x64"))
}

/// The stage that fetches SDL2, and the directory of its libraries.
pub fn setup_sdl2(platform: Platform, context: &Context) -> (r: (Stage, String))
    ensures
        r.0@ == fetch_stage(platform, context@, SDL2_URL@, SDL2_DIR@),
        r.1@ == libs_dir_of(context@, SDL2_DIR@),
{
    fetch_into(platform, context, SDL2_URL, SDL2_DIR)
}

/// The stage that fetches SDL2_image, and the directory of its libraries.
pub fn setup_sdl2_image(platform: Platform, context: &Context) -> (r: (Stage, String))
    ensures
        r.0@ == fetch_stage(platform, context@, SDL2_IMAGE_URL@, SDL2_IMAGE_DIR@),
        r.1@ == libs_dir_of(context@, SDL2_IMAGE_DIR@),
{
    fetch_into(platform, context, SDL2_IMAGE_URL, SDL2_IMAGE_DIR)
}

/// The stage that compiles the application.
pub fn compile(
    platform: Platform,
    context: &Context,
    sdl2_libs_dir: &str,
    sdl2_image_libs_dir: &str,
) -> (r: Stage)
    ensures
        r@ == run_stage(platform, compile_command(context@, sdl2_libs_dir@, sdl2_image_libs_dir@)),
{
    let mut command = String::from_str("cargo rustc ");
    command.append(context.variant.rust_compiler_flag());
    command.append(" --manifest-path ");
    command.append(quoted(join(context.source_dir.as_str(), "Cargo.toml").as_str()).as_str());
    command.append(" --bin crust --target-dir ");
    command.append(quoted(context.rust_build_dir.as_str()).as_str());
    command.append(" -- -L ");
    command.append(quoted(sdl2_libs_dir).as_str());
    command.append(" -L ");
    command.append(quoted(sdl2_image_libs_dir).as_str());
    run_script(platform, command.as_str())
}

/// The stages that empty the output directory and collect the products in it.
pub fn create_output(
    platform: Platform,
    context: &Context,
    sdl2_libs_dir: &str,
    sdl2_image_libs_dir: &str,
) -> (r: VecDeque<Stage>)
    ensures
        stages_of(r@) == output_stages(platform, context@, sdl2_libs_dir@, sdl2_image_libs_dir@),
{
    let mut sources: Vec<String> = Vec::new();
    sources.push(join2(context.rust_build_dir.as_str(), context.variant.id(), "crust.exe"));
    sources.push(join(sdl2_libs_dir, "SDL2.dll"));
    sources.push(join(sdl2_image_libs_dir, "SDL2_image.dll"));
    sources.push(join(sdl2_image_libs_dir, "libpng16-16.dll"));
    sources.push(join(sdl2_image_libs_dir, "zlib1.dll"));
    assert(texts_of(sources@) =~= products(context@, sdl2_libs_dir@, sdl2_image_libs_dir@));
    let mut stages: VecDeque<Stage> = VecDeque::new();
    then_do(&mut stages, Request::Delete { path: output_dir(context) });
    then_do(&mut stages, Request::Collect { platform, output: output_dir(context), sources });
    assert(stages_of(stages@) =~= output_stages(
        platform,
        context@,
        sdl2_libs_dir@,
        sdl2_image_libs_dir@,
    ));
    stages
}

/// Builds the application for Windows.
pub fn build(platform: Platform, context: &Context) -> (next: Next<Recipe>)
    ensures
        next@ == recipe_start(build_stages(platform, context@)),
{
    let mut stages = context.summary_stages();
    let (sdl2, sdl2_libs_dir) = setup_sdl2(platform, context);
    let (sdl2_image, sdl2_image_libs_dir) = setup_sdl2_image(platform, context);
    then(&mut stages, sdl2);
    then(&mut stages, sdl2_image);
    then(
        &mut stages,
        compile(platform, context, sdl2_libs_dir.as_str(), sdl2_image_libs_dir.as_str()),
    );
    then_all(
        &mut stages,
        create_output(platform, context, sdl2_libs_dir.as_str(), sdl2_image_libs_dir.as_str()),
    );
    assert(stages_of(stages@) =~= build_stages(platform, context@));
    Recipe::start(stages)
}

} // verus!
