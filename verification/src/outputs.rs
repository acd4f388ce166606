use std::collections::VecDeque;
use vstd::prelude::*;
use crate::context::{Context, ContextView};
use crate::effect::{
    Next, NextView, Request, RequestView, Response, ResponseView, settle, settled, texts_of,
};
use crate::failure::{Failure, FailureView};
use crate::io::{Deletion, delete, delete_begin};
use crate::paths::{file_name, file_name_of, join, joined};
use crate::platform::Platform;

verus! {

/// Where the products of the build of `context` are collected: the directory of the
/// variant inside `out` inside the directory of the target.
pub open spec fn output_dir_of(context: ContextView) -> Seq<char> {
    joined(joined(context.target_home_dir, "out"@), context.variant.id_text())
}

/// Where the products of the build are collected.
pub fn output_dir(context: &Context) -> (r: String)
    ensures
        r@ == output_dir_of(context@),
{
    let out = join(context.target_home_dir.as_str(), "out");
    join(out.as_str(), context.variant.id())
}

/// Deletes the directory where the products of the build are collected, with all it
/// holds.
pub fn clean(context: &Context) -> (next: Next<Deletion>)
    ensures
        next@ == delete_begin(output_dir_of(context@)),
{
    let output = output_dir(context);
    delete(output.as_str())
}

/// The states of the operation [`collect`].
#[derive(Debug, PartialEq, Eq)]
pub enum Collecting {
    /// The directory `output` that collects the products is being created.
    CreatingOutput { platform: Platform, output: String, sources: VecDeque<String> },
    /// The product `source` is being looked at; `rest` are those that follow it.
    Probing { platform: Platform, output: String, source: String, rest: VecDeque<String> },
    /// The product `source` is being copied.
    Copying { platform: Platform, output: String, source: String, rest: VecDeque<String> },
}

/// The mathematical value of a [`Collecting`].
pub enum CollectingView {
    CreatingOutput { platform: Platform, output: Seq<char>, sources: Seq<Seq<char>> },
    Probing { platform: Platform, output: Seq<char>, source: Seq<char>, rest: Seq<Seq<char>> },
    Copying { platform: Platform, output: Seq<char>, source: Seq<char>, rest: Seq<Seq<char>> },
}

impl View for Collecting {
    type V = CollectingView;

    open spec fn view(&self) -> CollectingView {
        match *self {
            Collecting::CreatingOutput { platform, output, sources } => CollectingView::CreatingOutput {
                platform,
                output: output@,
                sources: texts_of(sources@),
            },
            Collecting::Probing { platform, output, source, rest } => CollectingView::Probing {
                platform,
                output: output@,
                source: source@,
                rest: texts_of(rest@),
            },
            Collecting::Copying { platform, output, source, rest } => CollectingView::Copying {
                platform,
                output: output@,
                source: source@,
                rest: texts_of(rest@),
            },
        }
    }
}

/// How collecting begins: by creating the directory `output` that collects the
/// products.
pub open spec fn collect_begin(platform: Platform, output: Seq<char>, sources: Seq<Seq<char>>) -> NextView<
    CollectingView,
> {
    NextView::Continue(
        CollectingView::CreatingOutput { platform, output, sources },
        RequestView::CreateDirAll { path: output },
    )
}

/// How collecting turns to the products that are left: it looks at the first of them,
/// or ends with success if there is none.
pub open spec fn collect_next(platform: Platform, output: Seq<char>, sources: Seq<Seq<char>>) -> NextView<
    CollectingView,
> {
    if sources.len() == 0 {
        NextView::Finish(Ok(()))
    } else {
        NextView::Continue(
            CollectingView::Probing {
                platform,
                output,
                source: sources[0],
                rest: sources.drop_first(),
            },
            RequestView::Probe { path: sources[0] },
        )
    }
}

/// Where a product is copied to: a directory to the collecting directory as such, a
/// file to the file of its own name inside it, which does not exist for a path without
/// a final component.
pub open spec fn collected_at(is_dir: bool, output: Seq<char>, source: Seq<char>) -> Option<
    Seq<char>,
> {
    if is_dir {
        Some(output)
    } else {
        match file_name_of(source) {
            Some(name) => Some(joined(output, name)),
            None => None,
        }
    }
}

/// How collecting goes on: product after product is looked at and copied; the first
/// failure ends it.
pub open spec fn collect_step(state: CollectingView, response: ResponseView) -> NextView<
    CollectingView,
> {
    match state {
        CollectingView::CreatingOutput { platform, output, sources } => match settled(
            response,
            output,
        ) {
            Ok(_) => collect_next(platform, output, sources),
            Err(failure) => NextView::Finish(Err(failure)),
        },
        CollectingView::Probing { platform, output, source, rest } => match response {
            ResponseView::Probed { probe } => match collected_at(probe.is_dir, output, source) {
                Some(destination) => NextView::Continue(
                    CollectingView::Copying { platform, output, source, rest },
                    RequestView::Copy { platform, source, destination },
                ),
                None => NextView::Finish(Err(FailureView::MissingFileName { path: source })),
            },
            ResponseView::Failed { message } => NextView::Finish(
                Err(FailureView::Io { path: source, message }),
            ),
            _ => NextView::Finish(Err(FailureView::Unexpected)),
        },
        CollectingView::Copying { platform, output, source, rest } => match settled(
            response,
            source,
        ) {
            Ok(_) => collect_next(platform, output, rest),
            Err(failure) => NextView::Finish(Err(failure)),
        },
    }
}

/// Copies the products `sources` into the directory `output`, which is created: a
/// directory as such, a file under its own name.
pub fn collect_into(platform: Platform, output: String, sources: VecDeque<String>) -> (next: Next<
    Collecting,
>)
    ensures
        next@ == collect_begin(platform, output@, texts_of(sources@)),
{
    let request = Request::CreateDirAll { path: output.clone() };
    Next::Continue(Collecting::CreatingOutput { platform, output, sources }, request)
}

/// Copies the products `sources` of the build of `context` into the directory where
/// they are collected, which is created: a directory as such, a file under its own
/// name.
pub fn collect(platform: Platform, context: &Context, sources: VecDeque<String>) -> (next: Next<
    Collecting,
>)
    ensures
        next@ == collect_begin(platform, output_dir_of(context@), texts_of(sources@)),
{
    collect_into(platform, output_dir(context), sources)
}

fn next_source(platform: Platform, output: String, sources: VecDeque<String>) -> (next: Next<
    Collecting,
>)
    ensures
        next@ == collect_next(platform, output@, texts_of(sources@)),
{
    let mut rest = sources;
    let ghost all = rest@;
    match rest.pop_front() {
        None => Next::Finish(Ok(())),
        Some(source) => {
            assert(texts_of(rest@) == texts_of(all).drop_first());
            let request = Request::Probe { path: source.clone() };
            Next::Continue(Collecting::Probing { platform, output, source, rest }, request)
        },
    }
}

impl Collecting {
    /// Takes the response to the request made last and says how the collecting goes
    /// on.
    pub fn step(self, response: Response) -> (next: Next<Collecting>)
        ensures
            next@ == collect_step(self@, response@),
    {
        match self {
            Collecting::CreatingOutput { platform, output, sources } => {
                match settle(response, output.as_str()) {
                    Ok(_) => next_source(platform, output, sources),
                    Err(failure) => Next::Finish(Err(failure)),
                }
            },
            Collecting::Probing { platform, output, source, rest } => match response {
                Response::Probed { probe } => {
                    let destination = if probe.is_dir {
                        Some(output.clone())
                    } else {
                        match file_name(source.as_str()) {
                            Some(name) => Some(join(output.as_str(), name.as_str())),
                            None => None,
                        }
                    };
                    match destination {
                        Some(destination) => {
                            let request = Request::Copy {
                                platform,
                                source: source.clone(),
                                destination,
                            };
                            Next::Continue(
                                Collecting::Copying { platform, output, source, rest },
                                request,
                            )
                        },
                        None => Next::Finish(Err(Failure::MissingFileName { path: source })),
                    }
                },
                Response::Failed { message } => Next::Finish(
                    Err(Failure::Io { path: source, message }),
                ),
                _ => Next::Finish(Err(Failure::Unexpected)),
            },
            Collecting::Copying { platform, output, source, rest } => {
                match settle(response, source.as_str()) {
                    Ok(_) => next_source(platform, output, rest),
                    Err(failure) => Next::Finish(Err(failure)),
                }
            },
        }
    }
}

} // verus!
