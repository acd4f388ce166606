use std::collections::VecDeque;
use vstd::prelude::*;
use crate::context::{Context, ContextView, summary_stages_of};
use crate::effect::{Next, Request, RequestView, texts_of};
use crate::macos_sdl::{frameworks_dir_of, setup, setup_stages};
use crate::outputs::{output_dir, output_dir_of};
use crate::paths::{join, joined, quoted, quoted_path};
use crate::platform::Platform;
use crate::recipe::{
    Recipe, Stage, StageView, join2, joined2, recipe_start, run_script,
    run_script_in, run_stage, run_stage_in, stages_of, then, then_all, then_do,
};
use crate::variant::Variant;

verus! {

/// The command that lets the program find the frameworks beside it.
pub const RPATH_COMMAND: &'static str =
    "install_name_tool -add_rpath @loader_path/Frameworks crust";

/// The command that compiles the application against the frameworks in `frameworks`.
pub open spec fn compile_command(context: ContextView, frameworks: Seq<char>) -> Seq<char> {
    "cargo rustc "@ + context.variant.flag_text() + " --manifest-path "@ + quoted_path(
        joined(context.source_dir, "Cargo.toml"@),
    ) + " --bin crust --target-dir "@ + quoted_path(context.rust_build_dir)
        + " -- -L framework="@ + quoted_path(frameworks)
}

/// The stage that collects the one product `source` in `output`.
pub open spec fn collect_stage(platform: Platform, output: Seq<char>, source: Seq<char>) -> StageView {
    StageView::Do { request: RequestView::Collect { platform, output, sources: seq![source] } }
}

/// The stage that makes `target`, seen from `working_dir`, a link to `source`.
pub open spec fn link_stage(
    platform: Platform,
    source: Seq<char>,
    target: Seq<char>,
    working_dir: Seq<char>,
) -> StageView {
    StageView::Do { request: RequestView::CreateSymlink { platform, source, target, working_dir } }
}

/// The stages that put the assets and the frameworks beside the program: as links in
/// a build for development, as copies in a build for release.
pub open spec fn resource_stages(
    platform: Platform,
    context: ContextView,
    frameworks: Seq<char>,
) -> Seq<StageView> {
    let output = output_dir_of(context);
    match context.variant {
        Variant::Debug => seq![
            link_stage(platform, context.assets_dir, "assets"@, output),
            link_stage(platform, frameworks, "Frameworks"@, output),
        ],
        Variant::Release => seq![
            collect_stage(platform, output, context.assets_dir),
            collect_stage(platform, output, frameworks),
        ],
    }
}

/// The stages that make the product: the output directory is emptied, the program is
/// collected in it, the assets and the frameworks are put beside it, and the program
/// is told where to find the frameworks.
pub open spec fn output_stages(
    platform: Platform,
    context: ContextView,
    frameworks: Seq<char>,
) -> Seq<StageView> {
    let output = output_dir_of(context);
    seq![
        StageView::Do { request: RequestView::Delete { path: output } },
        collect_stage(
            platform,
            output,
            joined2(context.rust_build_dir, context.variant.id_text(), "crust"@),
        ),
    ] + resource_stages(platform, context, frameworks) + seq![
        run_stage_in(platform, RPATH_COMMAND@, output),
    ]
}

/// The stages of the build of the console application for macOS.
pub open spec fn build_stages(platform: Platform, context: ContextView) -> Seq<StageView> {
    let frameworks = frameworks_dir_of(context);
    summary_stages_of(context) + setup_stages(platform, context) + seq![
        run_stage(platform, compile_command(context, frameworks)),
    ] + output_stages(platform, context, frameworks)
}

/// The stage that collects the one product `source` in the output directory.
pub fn collect_one(platform: Platform, context: &Context, source: String) -> (r: Stage)
    ensures
        r@ == collect_stage(platform, output_dir_of(context@), source@),
{
    let mut sources: Vec<String> = Vec::new();
    sources.push(source);
    assert(texts_of(sources@) =~= seq![source@]);
    Stage::Do { request: Request::Collect { platform, output: output_dir(context), sources } }
}

/// The stage that makes `target`, seen from `working_dir`, a link to `source`.
pub fn link(platform: Platform, source: &str, target: &str, working_dir: &str) -> (r: Stage)
    ensures
        r@ == link_stage(platform, source@, target@, working_dir@),
{
    Stage::Do {
        request: Request::CreateSymlink {
            platform,
            source: String::from_str(source),
            target: String::from_str(target),
            working_dir: String::from_str(working_dir),
        },
    }
}

/// The stage that compiles the application against the frameworks in
/// `frameworks_dir`.
pub fn compile(platform: Platform, context: &Context, frameworks_dir: &str) -> (r: Stage)
    ensures
        r@ == run_stage(platform, compile_command(context@, frameworks_dir@)),
{
    let mut command = String::from_str("cargo rustc ");
    command.append(context.variant.rust_compiler_flag());
    command.append(" --manifest-path ");
    command.append(quoted(join(context.source_dir.as_str(), "Cargo.toml").as_str()).as_str());
    command.append(" --bin crust --target-dir ");
    command.append(quoted(context.rust_build_dir.as_str()).as_str());
    command.append(" -- -L framework=");
    command.append(quoted(frameworks_dir).as_str());
    run_script(platform, command.as_str())
}

/// The stages that make the product in the output directory.
pub fn create_output(platform: Platform, context: &Context, frameworks_dir: &str) -> (r: VecDeque<
    Stage,
>)
    ensures
        stages_of(r@) == output_stages(platform, context@, frameworks_dir@),
{
    let output = output_dir(context);
    let mut stages: VecDeque<Stage> = VecDeque::new();
    then_do(&mut stages, Request::Delete { path: output_dir(context) });
    then(
        &mut stages,
        collect_one(
            platform,
            context,
            join2(context.rust_build_dir.as_str(), context.variant.id(), "crust"),
        ),
    );
    match context.variant {
        Variant::Debug => {
            then(
                &mut stages,
                link(platform, context.assets_dir.as_str(), "assets", output.as_str()),
            );
            then(&mut stages, link(platform, frameworks_dir, "Frameworks", output.as_str()));
        },
        Variant::Release => {
            then(&mut stages, collect_one(platform, context, context.assets_dir.clone()));
            then(&mut stages, collect_one(platform, context, String::from_str(frameworks_dir)));
        },
    }
    then(&mut stages, run_script_in(platform, RPATH_COMMAND, output.as_str()));
    assert(stages_of(stages@) =~= output_stages(platform, context@, frameworks_dir@));
    stages
}

/// Builds the console application for macOS.
pub fn build(platform: Platform, context: &Context) -> (next: Next<Recipe>)
    ensures
        next@ == recipe_start(build_stages(platform, context@)),
{
    let mut stages = context.summary_stages();
    let (frameworks_stages, frameworks) = setup(platform, context);
    then_all(&mut stages, frameworks_stages);
    then(&mut stages, compile(platform, context, frameworks.as_str()));
    then_all(&mut stages, create_output(platform, context, frameworks.as_str()));
    assert(stages_of(stages@) =~= build_stages(platform, context@));
    Recipe::start(stages)
}

} // verus!
