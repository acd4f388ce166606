use std::collections::VecDeque;
use vstd::prelude::*;
use crate::effect::{Next, Request, RequestView};
use crate::paths::{join, joined, quoted, quoted_path};
use crate::plan::{Plan, plan_start, requests_of};
use crate::recipe::{Stage, StageView, stages_of};
use crate::target::Target;
use crate::variant::Variant;

verus! {

/// The directories of one build.
#[derive(Debug, PartialEq, Eq)]
pub struct Context {
    /// The assets of the application.
    pub assets_dir: String,
    /// Where the Rust compiler puts what it builds.
    pub rust_build_dir: String,
    /// The sources of the application.
    pub source_dir: String,
    /// The directory of the target.
    pub target_home_dir: String,
    /// The variant that is built.
    pub variant: Variant,
    /// Where the build keeps what it fetches and makes on the way.
    pub working_dir: String,
}

/// The mathematical value of a [`Context`].
pub struct ContextView {
    pub assets_dir: Seq<char>,
    pub rust_build_dir: Seq<char>,
    pub source_dir: Seq<char>,
    pub target_home_dir: Seq<char>,
    pub variant: Variant,
    pub working_dir: Seq<char>,
}

impl View for Context {
    type V = ContextView;

    open spec fn view(&self) -> ContextView {
        ContextView {
            assets_dir: self.assets_dir@,
            rust_build_dir: self.rust_build_dir@,
            source_dir: self.source_dir@,
            target_home_dir: self.target_home_dir@,
            variant: self.variant,
            working_dir: self.working_dir@,
        }
    }
}

/// The directories of the build of `variant` for `target` in the project at
/// `root_dir`: the target has the directory of its name, the build works in
/// `.rust-build` inside it and compiles into `rust` inside that; the sources are in
/// `crust-main` and the assets in `assets` inside the sources.
pub open spec fn context_of(root_dir: Seq<char>, target: Target, variant: Variant) -> ContextView {
    let target_home_dir = joined(root_dir, target.id_text());
    let working_dir = joined(target_home_dir, ".rust-build"@);
    let source_dir = joined(root_dir, "crust-main"@);
    ContextView {
        assets_dir: joined(source_dir, "assets"@),
        rust_build_dir: joined(working_dir, "rust"@),
        source_dir,
        target_home_dir,
        variant,
        working_dir,
    }
}

/// The name of a variant as the summary shows it.
pub open spec fn variant_title(variant: Variant) -> Seq<char> {
    match variant {
        Variant::Debug => "Debug"@,
        Variant::Release => "Release"@,
    }
}

/// The lines of the summary of a build.
pub open spec fn summary_of(context: ContextView) -> Seq<Seq<char>> {
    seq![
        "---------------------------------------------"@,
        "Assets dir:          "@ + quoted_path(context.assets_dir),
        "Working dir:         "@ + quoted_path(context.working_dir),
        "Rust build dir:      "@ + quoted_path(context.rust_build_dir),
        "Variant:             "@ + variant_title(context.variant),
        "Target home dir:     "@ + quoted_path(context.target_home_dir),
        "Main source dir:     "@ + quoted_path(context.source_dir),
        "---------------------------------------------"@,
    ]
}

/// The requests that show the lines of the summary of a build, line after line.
pub open spec fn summary_requests(context: ContextView) -> Seq<RequestView> {
    summary_of(context).map_values(|line: Seq<char>| RequestView::Print { line })
}

/// The stages that show the lines of the summary of a build, line after line.
pub open spec fn summary_stages_of(context: ContextView) -> Seq<StageView> {
    summary_requests(context).map_values(|request: RequestView| StageView::Do { request })
}

/// `label` followed by `value`.
pub fn labelled(label: &str, value: &str) -> (r: String)
    ensures
        r@ == label@ + value@,
{
    let mut line = String::from_str(label);
    line.append(value);
    line
}

impl Context {
    /// The directories of the build of `variant` for `target` in the project at
    /// `root_dir`.
    pub fn new(root_dir: &str, target: Target, variant: Variant) -> (r: Context)
        ensures
            r@ == context_of(root_dir@, target, variant),
    {
        let target_home_dir = join(root_dir, target.id());
        let working_dir = join(target_home_dir.as_str(), ".rust-build");
        let rust_build_dir = join(working_dir.as_str(), "rust");
        let source_dir = join(root_dir, "crust-main");
        let assets_dir = join(source_dir.as_str(), "assets");
        Context { assets_dir, rust_build_dir, source_dir, target_home_dir, variant, working_dir }
    }

    /// The lines that sum up the build, for the caller to show.
    pub fn summary(&self) -> (r: Vec<String>)
        ensures
            r@.map_values(|line: String| line@) == summary_of(self@),
    {
        let mut lines: Vec<String> = Vec::new();
        lines.push(String::from_str("---------------------------------------------"));
        lines.push(labelled("Assets dir:          ", quoted(self.assets_dir.as_str()).as_str()));
        lines.push(labelled("Working dir:         ", quoted(self.working_dir.as_str()).as_str()));
        lines.push(
            labelled("Rust build dir:      ", quoted(self.rust_build_dir.as_str()).as_str()),
        );
        lines.push(
            labelled(
                "Variant:             ",
                match self.variant {
                    Variant::Debug => "Debug",
                    Variant::Release => "Release",
                },
            ),
        );
        lines.push(
            labelled("Target home dir:     ", quoted(self.target_home_dir.as_str()).as_str()),
        );
        lines.push(labelled("Main source dir:     ", quoted(self.source_dir.as_str()).as_str()));
        lines.push(String::from_str("---------------------------------------------"));
        assert(lines@.map_values(|line: String| line@) =~= summary_of(self@));
        lines
    }
}

impl Context {
    /// Shows the summary of the build to the user, line after line.
    pub fn print_summary(&self) -> (next: Next<Plan>)
        ensures
            next@ == plan_start(summary_requests(self@)),
    {
        let lines = self.summary();
        let ghost texts = lines@.map_values(|line: String| line@);
        let mut requests: VecDeque<Request> = VecDeque::new();
        assert(requests_of(requests@) =~= texts.take(0).map_values(
            |line: Seq<char>| RequestView::Print { line },
        ));
        for line in it: lines
            invariant
                it.seq().map_values(|line: String| line@) == texts,
                requests_of(requests@) == texts.take(it.index()).map_values(
                    |line: Seq<char>| RequestView::Print { line },
                ),
        {
            let ghost before = requests@;
            let request = Request::Print { line };
            requests.push_back(request);
            assert(requests_of(before.push(request)) =~= requests_of(before).push(request@));
            assert(requests_of(requests@) =~= texts.take(it.index() + 1).map_values(
                |line: Seq<char>| RequestView::Print { line },
            ));
        }
        assert(texts.take(texts.len() as int) =~= texts);
        Plan::start(requests)
    }

    /// The stages that show the summary of the build to the user, line after line.
    pub fn summary_stages(&self) -> (stages: VecDeque<Stage>)
        ensures
            stages_of(stages@) == summary_stages_of(self@),
    {
        let lines = self.summary();
        let ghost texts = lines@.map_values(|line: String| line@);
        let ghost wanted = summary_stages_of(self@);
        let mut stages: VecDeque<Stage> = VecDeque::new();
        assert(stages_of(stages@) =~= wanted.take(0));
        for line in it: lines
            invariant
                it.seq().map_values(|line: String| line@) == texts,
                texts == summary_of(self@),
                wanted == summary_stages_of(self@),
                stages_of(stages@) == wanted.take(it.index()),
        {
            let ghost before = stages@;
            let stage = Stage::Do { request: Request::Print { line } };
            stages.push_back(stage);
            assert(stages_of(before.push(stage)) =~= stages_of(before).push(stage@));
            assert(texts[it.index()] == line@);
            assert(stages_of(stages@) =~= wanted.take(it.index() + 1));
        }
        assert(wanted.take(wanted.len() as int) =~= wanted);
        stages
    }
}

} // verus!
