use std::collections::VecDeque;
use vstd::prelude::*;
use crate::context::{Context, ContextView, summary_stages_of};
use crate::effect::{Next};
use crate::macos_console::{link, link_stage};
use crate::macos_sdl::{frameworks_dir_of, setup, setup_stages};
use crate::paths::{join, joined, quoted, quoted_path};
use crate::platform::Platform;
use crate::recipe::{
    Recipe, Stage, StageView, join2, joined2, recipe_start, run_script,
    run_script_in, run_stage, run_stage_in, stages_of, then, then_all,
};

verus! {

/// The Rust target for Macs with Intel processors.
pub const ARCHITECTURE_X86_64: &'static str = "x86_64-apple-darwin";

/// The Rust target for Macs with Apple processors.
pub const ARCHITECTURE_ARM64: &'static str = "aarch64-apple-darwin";

/// The command that installs the Rust targets.
pub const INSTALL_COMMAND: &'static str =
    "rustup target add x86_64-apple-darwin aarch64-apple-darwin";

/// The command that lets the program find the frameworks of its bundle.
pub const RPATH_COMMAND: &'static str =
    "install_name_tool -add_rpath @loader_path/../Frameworks crust";

/// The command that compiles the application for `architecture`.
pub open spec fn compile_command(context: ContextView, architecture: Seq<char>) -> Seq<char> {
    "cargo rustc "@ + context.variant.flag_text() + " --manifest-path "@ + quoted_path(
        joined(context.source_dir, "Cargo.toml"@),
    ) + " --target "@ + architecture + " --bin crust --target-dir "@ + quoted_path(
        context.rust_build_dir,
    ) + " -- -L framework="@ + quoted_path(joined(context.working_dir, "Frameworks"@))
}

/// The program that was compiled for `architecture`.
pub open spec fn binary_of(context: ContextView, architecture: Seq<char>) -> Seq<char> {
    joined(joined2(context.rust_build_dir, architecture, context.variant.id_text()), "crust"@)
}

/// The command that joins the programs of the two architectures into one.
pub open spec fn lipo_command(context: ContextView) -> Seq<char> {
    "lipo -create -output crust "@ + quoted_path(binary_of(context, ARCHITECTURE_X86_64@)) + " "@
        + quoted_path(binary_of(context, ARCHITECTURE_ARM64@))
}

/// The directory of the Xcode project that takes the program.
pub open spec fn bundle_dir_of(context: ContextView) -> Seq<char> {
    joined2(context.target_home_dir, "crust"@, "crust"@)
}

/// The stages that compile the application for both architectures.
pub open spec fn compile_stages(platform: Platform, context: ContextView) -> Seq<StageView> {
    seq![
        run_stage(platform, compile_command(context, ARCHITECTURE_X86_64@)),
        run_stage(platform, compile_command(context, ARCHITECTURE_ARM64@)),
    ]
}

/// The stages that make the product: one program for both architectures, which is
/// told where to find the frameworks.
pub open spec fn output_stages(platform: Platform, context: ContextView) -> Seq<StageView> {
    seq![
        run_stage_in(platform, lipo_command(context), bundle_dir_of(context)),
        run_stage_in(platform, RPATH_COMMAND@, bundle_dir_of(context)),
    ]
}

/// The stage that links the frameworks into the Xcode project.
pub open spec fn frameworks_link(
    platform: Platform,
    context: ContextView,
    frameworks: Seq<char>,
) -> StageView {
    link_stage(
        platform,
        frameworks,
        joined2(context.target_home_dir, "crust"@, "Frameworks"@),
        context.working_dir,
    )
}

/// The stages of the build of the desktop application for macOS.
pub open spec fn build_stages(platform: Platform, context: ContextView) -> Seq<StageView> {
    summary_stages_of(context) + seq![run_stage(platform, INSTALL_COMMAND@)] + setup_stages(
        platform,
        context,
    ) + seq![
        frameworks_link(platform, context, frameworks_dir_of(context)),
    ] + compile_stages(platform, context) + output_stages(platform, context)
}

/// The stage that installs the Rust targets.
pub fn install_rust_dependencies(platform: Platform) -> (r: Stage)
    ensures
        r@ == run_stage(platform, INSTALL_COMMAND@),
{
    run_script(platform, INSTALL_COMMAND)
}

/// The stage that links the frameworks into the Xcode project.
pub fn link_frameworks(platform: Platform, context: &Context, frameworks_dir: &str) -> (r: Stage)
    ensures
        r@ == frameworks_link(platform, context@, frameworks_dir@),
{
    link(
        platform,
        frameworks_dir,
        join2(context.target_home_dir.as_str(), "crust", "Frameworks").as_str(),
        context.working_dir.as_str(),
    )
}

/// The stage that compiles the application for `architecture`.
pub fn compile_for(platform: Platform, context: &Context, architecture: &str) -> (r: Stage)
    ensures
        r@ == run_stage(platform, compile_command(context@, architecture@)),
{
    let mut command = String::from_str("cargo rustc ");
    command.append(context.variant.rust_compiler_flag());
    command.append(" --manifest-path ");
    command.append(quoted(join(context.source_dir.as_str(), "Cargo.toml").as_str()).as_str());
    command.append(" --target ");
    command.append(architecture);
    command.append(" --bin crust --target-dir ");
    command.append(quoted(context.rust_build_dir.as_str()).as_str());
    command.append(" -- -L framework=");
    command.append(quoted(join(context.working_dir.as_str(), "Frameworks").as_str()).as_str());
    run_script(platform, command.as_str())
}

/// The stages that compile the application for both architectures.
pub fn compile(platform: Platform, context: &Context) -> (r: VecDeque<Stage>)
    ensures
        stages_of(r@) == compile_stages(platform, context@),
{
    let mut stages: VecDeque<Stage> = VecDeque::new();
    then(&mut stages, compile_for(platform, context, ARCHITECTURE_X86_64));
    then(&mut stages, compile_for(platform, context, ARCHITECTURE_ARM64));
    assert(stages_of(stages@) =~= compile_stages(platform, context@));
    stages
}

/// The program that was compiled for `architecture`.
pub fn binary(context: &Context, architecture: &str) -> (r: String)
    ensures
        r@ == binary_of(context@, architecture@),
{
    let dir = join2(context.rust_build_dir.as_str(), architecture, context.variant.id());
    join(dir.as_str(), "crust")
}

/// The stages that make the product.
pub fn create_output(platform: Platform, context: &Context) -> (r: VecDeque<Stage>)
    ensures
        stages_of(r@) == output_stages(platform, context@),
{
    let bundle = join2(context.target_home_dir.as_str(), "crust", "crust");
    let mut command = String::from_str("lipo -create -output crust ");
    command.append(quoted(binary(context, ARCHITECTURE_X86_64).as_str()).as_str());
    command.append(" ");
    command.append(quoted(binary(context, ARCHITECTURE_ARM64).as_str()).as_str());
    let mut stages: VecDeque<Stage> = VecDeque::new();
    then(&mut stages, run_script_in(platform, command.as_str(), bundle.as_str()));
    then(&mut stages, run_script_in(platform, RPATH_COMMAND, bundle.as_str()));
    assert(stages_of(stages@) =~= output_stages(platform, context@));
    stages
}

/// Builds the desktop application for macOS.
pub fn build(platform: Platform, context: &Context) -> (next: Next<Recipe>)
    ensures
        next@ == recipe_start(build_stages(platform, context@)),
{
    let mut stages = context.summary_stages();
    then(&mut stages, install_rust_dependencies(platform));
    let (frameworks_stages, frameworks) = setup(platform, context);
    then_all(&mut stages, frameworks_stages);
    then(&mut stages, link_frameworks(platform, context, frameworks.as_str()));
    then_all(&mut stages, compile(platform, context));
    then_all(&mut stages, create_output(platform, context));
    assert(stages_of(stages@) =~= build_stages(platform, context@));
    Recipe::start(stages)
}

} // verus!
