use std::collections::VecDeque;
use vstd::prelude::*;
use crate::effect::{
    Next, NextView, Request, RequestView, Response, ResponseView, settle, settled, subject_of,
};
use crate::failure::{Failure, FailureView};
use crate::io::script_of;
use crate::paths::{join, joined};
use crate::platform::Platform;
use crate::script::{Script, ScriptView};

verus! {

/// One stage of a recipe.
#[derive(Debug, PartialEq, Eq)]
pub enum Stage {
    /// Make this request; its failure ends the recipe.
    Do { request: Request },
    /// Look at `path`; if it exists, pass over the `count` stages that follow.
    Unless { path: String, count: usize },
}

/// The mathematical value of a [`Stage`].
pub enum StageView {
    Do { request: RequestView },
    Unless { path: Seq<char>, count: usize },
}

impl View for Stage {
    type V = StageView;

    open spec fn view(&self) -> StageView {
        match *self {
            Stage::Do { request } => StageView::Do { request: request@ },
            Stage::Unless { path, count } => StageView::Unless { path: path@, count },
        }
    }
}

/// The mathematical values of a sequence of stages.
pub open spec fn stages_of(stages: Seq<Stage>) -> Seq<StageView> {
    stages.map_values(|s: Stage| s@)
}

/// What a recipe waits for.
#[derive(Debug, PartialEq, Eq)]
pub enum Awaiting {
    /// The response to a request about `subject`.
    Answer { subject: String },
    /// The look at `path` that decides whether `count` stages are passed over.
    Look { path: String, count: usize },
}

/// The mathematical value of an [`Awaiting`].
pub enum AwaitingView {
    Answer { subject: Seq<char> },
    Look { path: Seq<char>, count: usize },
}

impl View for Awaiting {
    type V = AwaitingView;

    open spec fn view(&self) -> AwaitingView {
        match *self {
            Awaiting::Answer { subject } => AwaitingView::Answer { subject: subject@ },
            Awaiting::Look { path, count } => AwaitingView::Look { path: path@, count },
        }
    }
}

/// Stages that are carried out in order; the first failure ends the recipe.
#[derive(Debug, PartialEq, Eq)]
pub struct Recipe {
    /// The stages that have not begun yet.
    pub rest: VecDeque<Stage>,
    /// What the stage that has begun waits for.
    pub awaiting: Awaiting,
}

/// The mathematical value of a [`Recipe`].
pub struct RecipeView {
    pub rest: Seq<StageView>,
    pub awaiting: AwaitingView,
}

impl View for Recipe {
    type V = RecipeView;

    open spec fn view(&self) -> RecipeView {
        RecipeView { rest: stages_of(self.rest@), awaiting: self.awaiting@ }
    }
}

/// `stages` without the first `count` of them, or without any if there are no more.
pub open spec fn passed_over(stages: Seq<StageView>, count: usize) -> Seq<StageView> {
    if count <= stages.len() {
        stages.skip(count as int)
    } else {
        Seq::empty()
    }
}

/// How a recipe of `stages` begins: with the request of its first stage, or, if it has
/// none, by ending with success.
pub open spec fn recipe_start(stages: Seq<StageView>) -> NextView<RecipeView> {
    if stages.len() == 0 {
        NextView::Finish(Ok(()))
    } else {
        match stages[0] {
            StageView::Do { request } => NextView::Continue(
                RecipeView {
                    rest: stages.drop_first(),
                    awaiting: AwaitingView::Answer { subject: subject_of(request) },
                },
                request,
            ),
            StageView::Unless { path, count } => NextView::Continue(
                RecipeView { rest: stages.drop_first(), awaiting: AwaitingView::Look { path, count } },
                RequestView::Probe { path },
            ),
        }
    }
}

/// How a recipe goes on: after a request that succeeded with the stages that are left,
/// after a look that found something with the stages that are left once those it
/// guards are passed over, after a failure not at all.
pub open spec fn recipe_step(state: RecipeView, response: ResponseView) -> NextView<RecipeView> {
    match state.awaiting {
        AwaitingView::Answer { subject } => match settled(response, subject) {
            Ok(_) => recipe_start(state.rest),
            Err(failure) => NextView::Finish(Err(failure)),
        },
        AwaitingView::Look { path, count } => match response {
            ResponseView::Probed { probe } => if probe.exists {
                recipe_start(passed_over(state.rest, count))
            } else {
                recipe_start(state.rest)
            },
            ResponseView::Failed { message } => NextView::Finish(
                Err(FailureView::Io { path, message }),
            ),
            _ => NextView::Finish(Err(FailureView::Unexpected)),
        },
    }
}

/// Appends `stage` to `stages`.
pub fn then(stages: &mut VecDeque<Stage>, stage: Stage)
    ensures
        stages_of(final(stages)@) == stages_of(old(stages)@).push(stage@),
{
    let ghost before = stages@;
    stages.push_back(stage);
    assert(stages_of(before.push(stage)) =~= stages_of(before).push(stage@));
}

/// Appends the request `request` to `stages`.
pub fn then_do(stages: &mut VecDeque<Stage>, request: Request)
    ensures
        stages_of(final(stages)@) == stages_of(old(stages)@).push(StageView::Do { request: request@ }),
{
    then(stages, Stage::Do { request });
}

/// Appends the stages `more` to `stages`.
pub fn then_all(stages: &mut VecDeque<Stage>, more: VecDeque<Stage>)
    ensures
        stages_of(final(stages)@) == stages_of(old(stages)@) + stages_of(more@),
{
    let ghost before = stages@;
    let ghost added = more@;
    let mut more = more;
    stages.append(&mut more);
    assert(stages_of(before + added) =~= stages_of(before) + stages_of(added));
}

impl Recipe {
    /// Begins to carry out `stages` in order.
    pub fn start(stages: VecDeque<Stage>) -> (next: Next<Recipe>)
        ensures
            next@ == recipe_start(stages_of(stages@)),
    {
        let mut rest = stages;
        let ghost all = rest@;
        match rest.pop_front() {
            None => Next::Finish(Ok(())),
            Some(first) => {
                assert(stages_of(rest@) == stages_of(all).drop_first());
                match first {
                    Stage::Do { request } => {
                        let subject = request.subject();
                        Next::Continue(
                            Recipe { rest, awaiting: Awaiting::Answer { subject } },
                            request,
                        )
                    },
                    Stage::Unless { path, count } => {
                        let request = Request::Probe { path: path.clone() };
                        Next::Continue(
                            Recipe { rest, awaiting: Awaiting::Look { path, count } },
                            request,
                        )
                    },
                }
            },
        }
    }

    /// Takes the response to the request made last and makes the next one.
    pub fn step(self, response: Response) -> (next: Next<Recipe>)
        ensures
            next@ == recipe_step(self@, response@),
    {
        match self.awaiting {
            Awaiting::Answer { subject } => match settle(response, subject.as_str()) {
                Ok(_) => Recipe::start(self.rest),
                Err(failure) => Next::Finish(Err(failure)),
            },
            Awaiting::Look { path, count } => match response {
                Response::Probed { probe } => {
                    if probe.exists {
                        let mut rest = self.rest;
                        let ghost all = rest@;
                        if count <= rest.len() {
                            let mut i: usize = 0;
                            while i < count
                                invariant
                                    i <= count <= all.len(),
                                    rest@ == all.skip(i as int),
                                decreases count - i,
                            {
                                let _ = rest.pop_front();
                                assert(all.skip(i as int).drop_first() == all.skip(i + 1));
                                i = i + 1;
                            }
                            assert(stages_of(all.skip(count as int)) =~= stages_of(all).skip(
                                count as int,
                            ));
                            Recipe::start(rest)
                        } else {
                            Next::Finish(Ok(()))
                        }
                    } else {
                        Recipe::start(self.rest)
                    }
                },
                Response::Failed { message } => Next::Finish(Err(Failure::Io { path, message })),
                _ => Next::Finish(Err(Failure::Unexpected)),
            },
        }
    }
}

/// The stage that runs the script `script` on `platform`.
pub open spec fn running(platform: Platform, script: ScriptView) -> StageView {
    StageView::Do { request: RequestView::Run { platform, script } }
}

/// The stage that runs the commands `text` in a temporary directory.
pub open spec fn run_stage(platform: Platform, text: Seq<char>) -> StageView {
    running(platform, script_of(text))
}

/// The stage that runs the commands `text` in the directory `working_dir`.
pub open spec fn run_stage_in(platform: Platform, text: Seq<char>, working_dir: Seq<char>) -> StageView {
    running(platform, ScriptView { working_dir: Some(working_dir), ..script_of(text) })
}

/// The path of `second` inside `first` inside `base`.
pub open spec fn joined2(base: Seq<char>, first: Seq<char>, second: Seq<char>) -> Seq<char> {
    joined(joined(base, first), second)
}

/// The path of `third` inside `second` inside `first` inside `base`.
pub open spec fn joined3(
    base: Seq<char>,
    first: Seq<char>,
    second: Seq<char>,
    third: Seq<char>,
) -> Seq<char> {
    joined(joined(joined(base, first), second), third)
}

/// The stage that runs the commands `text` in a temporary directory.
pub fn run_script(platform: Platform, text: &str) -> (r: Stage)
    ensures
        r@ == run_stage(platform, text@),
{
    Stage::Do { request: Request::Run { platform, script: Script::new(text) } }
}

/// The stage that runs the commands `text` in the directory `working_dir`.
pub fn run_script_in(platform: Platform, text: &str, working_dir: &str) -> (r: Stage)
    ensures
        r@ == run_stage_in(platform, text@, working_dir@),
{
    Stage::Do {
        request: Request::Run { platform, script: Script::new(text).working_dir(working_dir) },
    }
}

/// The path of `second` inside `first` inside `base`.
pub fn join2(base: &str, first: &str, second: &str) -> (r: String)
    ensures
        r@ == joined2(base@, first@, second@),
{
    let inner = join(base, first);
    join(inner.as_str(), second)
}

/// The path of `third` inside `second` inside `first` inside `base`.
pub fn join3(base: &str, first: &str, second: &str, third: &str) -> (r: String)
    ensures
        r@ == joined3(base@, first@, second@, third@),
{
    let inner = join2(base, first, second);
    join(inner.as_str(), third)
}

/// The texts of a sequence of string slices.
pub open spec fn parts_of(parts: Seq<&'static str>) -> Seq<Seq<char>> {
    parts.map_values(|part: &'static str| part@)
}

/// The path reached from `base` by going down through `parts`, one after the other.
pub open spec fn descended(base: Seq<char>, parts: Seq<Seq<char>>) -> Seq<char>
    decreases parts.len(),
{
    if parts.len() == 0 {
        base
    } else {
        joined(descended(base, parts.drop_last()), parts.last())
    }
}

/// The path reached from `base` by going down through `parts`, one after the other.
pub fn descend(base: &str, parts: Vec<&'static str>) -> (r: String)
    ensures
        r@ == descended(base@, parts_of(parts@)),
{
    let mut path = String::from_str(base);
    let mut i: usize = 0;
    assert(parts_of(parts@).take(0) =~= Seq::<Seq<char>>::empty());
    while i < parts.len()
        invariant
            i <= parts@.len(),
            path@ == descended(base@, parts_of(parts@).take(i as int)),
        decreases parts@.len() - i,
    {
        let ghost before = parts_of(parts@).take(i as int);
        let ghost after = parts_of(parts@).take(i + 1);
        assert(after.drop_last() =~= before);
        assert(after.last() == parts@[i as int]@);
        path = join(path.as_str(), parts[i]);
        i = i + 1;
    }
    assert(parts_of(parts@).take(i as int) =~= parts_of(parts@));
    path
}

} // verus!
