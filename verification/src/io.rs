use std::collections::VecDeque;
use vstd::prelude::*;
use vstd::slice::slice_to_vec;
use vstd::utf8::encode_utf8;
use crate::archive::{archived, read_entries, readable};
use crate::extraction::{extraction, extraction_plan};
use crate::effect::{
    Next, NextView, PathProbe, Request, RequestView, Response, ResponseView, ends_with,
    requests_made, result_after, settle, settled, subject_of,
};
use crate::failure::{Failure, FailureView};
use crate::paths::{
    file_name, file_name_of, join, joined, parent, parent_of, quoted, quoted_path, text_of,
};
use crate::plan::{
    Plan, PlanView, law_plan_in_order, plan_start, plan_step, plan_steps, requests_of,
};
use crate::platform::Platform;
use crate::script::{Script, ScriptView};
use crate::text::trimmed;

verus! {

/// The one request that sets the permission bits of `path`, on a platform that has
/// them; nothing on one that has none.
pub open spec fn permission_requests(platform: Platform, path: Seq<char>, mode: u32) -> Seq<
    RequestView,
> {
    if platform.has_permissions() {
        seq![RequestView::SetPermissions { path, mode }]
    } else {
        Seq::empty()
    }
}

/// Sets the Unix permission bits of `path` to `permissions`. On a platform without
/// permission bits this does nothing and succeeds.
pub fn apply_permissions(platform: Platform, path: &str, permissions: u32) -> (next: Next<Plan>)
    ensures
        next@ == plan_start(permission_requests(platform, path@, permissions)),
{
    let mut requests: VecDeque<Request> = VecDeque::new();
    if platform.supports_permissions() {
        requests.push_back(
            Request::SetPermissions { path: String::from_str(path), mode: permissions },
        );
    }
    assert(requests_of(requests@) == permission_requests(platform, path@, permissions));
    Plan::start(requests)
}

/// Creates the directory `path` and every missing directory above it; succeeds if it
/// is there already.
pub fn create_dir(path: &str) -> (next: Next<Plan>)
    ensures
        next@ == plan_start(seq![RequestView::CreateDirAll { path: path@ }]),
{
    let mut requests: VecDeque<Request> = VecDeque::new();
    requests.push_back(Request::CreateDirAll { path: String::from_str(path) });
    assert(requests_of(requests@) == seq![RequestView::CreateDirAll { path: path@ }]);
    Plan::start(requests)
}

/// Moves `source` to `destination`.
pub fn rename(source: &str, destination: &str) -> (next: Next<Plan>)
    ensures
        next@ == plan_start(
            seq![RequestView::Rename { source: source@, destination: destination@ }],
        ),
{
    let mut requests: VecDeque<Request> = VecDeque::new();
    requests.push_back(
        Request::Rename {
            source: String::from_str(source),
            destination: String::from_str(destination),
        },
    );
    assert(requests_of(requests@) == seq![
        RequestView::Rename { source: source@, destination: destination@ },
    ]);
    Plan::start(requests)
}

/// The states of the operation [`delete`].
#[derive(Debug, PartialEq, Eq)]
pub enum Deletion {
    /// The victim is being looked at.
    Probing { victim: String },
    /// The victim is being removed.
    Removing { victim: String },
}

/// The mathematical value of a [`Deletion`].
pub enum DeletionView {
    Probing { victim: Seq<char> },
    Removing { victim: Seq<char> },
}

impl View for Deletion {
    type V = DeletionView;

    open spec fn view(&self) -> DeletionView {
        match *self {
            Deletion::Probing { victim } => DeletionView::Probing { victim: victim@ },
            Deletion::Removing { victim } => DeletionView::Removing { victim: victim@ },
        }
    }
}

/// Whether there is nothing to delete at a path that looks like `probe`: it leads
/// nowhere and is no symbolic link either.
pub open spec fn absent(probe: PathProbe) -> bool {
    !probe.is_symlink && !probe.exists
}

/// How a deletion begins: by looking at the victim.
pub open spec fn delete_begin(victim: Seq<char>) -> NextView<DeletionView> {
    NextView::Continue(DeletionView::Probing { victim }, RequestView::Probe { path: victim })
}

/// How a deletion goes on. What the look at the victim found decides: nothing is
/// removed where nothing is there; a directory and a symbolic link, broken or not, are
/// removed as a tree; anything else as a file.
pub open spec fn delete_step(state: DeletionView, response: ResponseView) -> NextView<
    DeletionView,
> {
    match state {
        DeletionView::Probing { victim } => match response {
            ResponseView::Probed { probe } => if absent(probe) {
                NextView::Finish(Ok(()))
            } else if probe.is_dir || probe.is_symlink {
                NextView::Continue(
                    DeletionView::Removing { victim },
                    RequestView::RemoveTree { path: victim },
                )
            } else {
                NextView::Continue(
                    DeletionView::Removing { victim },
                    RequestView::RemoveFile { path: victim },
                )
            },
            ResponseView::Failed { message } => NextView::Finish(
                Err(FailureView::Io { path: victim, message }),
            ),
            _ => NextView::Finish(Err(FailureView::Unexpected)),
        },
        DeletionView::Removing { victim } => NextView::Finish(settled(response, victim)),
    }
}

/// Deletes what is at `victim`, if anything: a file, a directory with all it holds, or
/// a symbolic link, even one that leads nowhere.
pub fn delete(victim: &str) -> (next: Next<Deletion>)
    ensures
        next@ == delete_begin(victim@),
{
    Next::Continue(
        Deletion::Probing { victim: String::from_str(victim) },
        Request::Probe { path: String::from_str(victim) },
    )
}

impl Deletion {
    /// Takes the response to the request made last and says how the deletion goes on.
    pub fn step(self, response: Response) -> (next: Next<Deletion>)
        ensures
            next@ == delete_step(self@, response@),
    {
        match self {
            Deletion::Probing { victim } => match response {
                Response::Probed { probe } => {
                    if !probe.is_symlink && !probe.exists {
                        Next::Finish(Ok(()))
                    } else if probe.is_dir || probe.is_symlink {
                        let path = victim.clone();
                        Next::Continue(Deletion::Removing { victim }, Request::RemoveTree { path })
                    } else {
                        let path = victim.clone();
                        Next::Continue(Deletion::Removing { victim }, Request::RemoveFile { path })
                    }
                },
                Response::Failed { message } => Next::Finish(
                    Err(Failure::Io { path: victim, message }),
                ),
                _ => Next::Finish(Err(Failure::Unexpected)),
            },
            Deletion::Removing { victim } => Next::Finish(settle(response, victim.as_str())),
        }
    }
}

/// The way a deletion goes on, as a function.
pub open spec fn delete_steps() -> spec_fn(DeletionView, ResponseView) -> NextView<DeletionView> {
    |state: DeletionView, response: ResponseView| delete_step(state, response)
}

/// Deleting a path at which nothing is found, neither something the path leads to nor
/// a symbolic link, succeeds and leaves everything as it is: the one request that the
/// deletion makes is the look at the path.
pub proof fn law_delete_absent(victim: Seq<char>, responses: Seq<ResponseView>)
    requires
        ends_with(delete_steps(), delete_begin(victim), responses),
        responses[0] matches ResponseView::Probed { probe } && !probe.exists && !probe.is_symlink,
    ensures
        requests_made(delete_steps(), delete_begin(victim), responses) == seq![
            RequestView::Probe { path: victim },
        ],
        result_after(delete_steps(), delete_begin(victim), responses) == Ok::<(), FailureView>(
            (),
        ),
{
    let state = DeletionView::Probing { victim };
    let next = delete_step(state, responses[0]);
    assert(delete_steps()(state, responses[0]) == next);
    let later = requests_made(delete_steps(), next, responses.drop_first());
    assert(later.len() == 0);
    assert(requests_made(delete_steps(), delete_begin(victim), responses) =~= seq![
        RequestView::Probe { path: victim },
    ]);
    assert(result_after(delete_steps(), delete_begin(victim), responses) == result_after(
        delete_steps(),
        next,
        responses.drop_first(),
    ));
}

/// Deleting a symbolic link that leads nowhere removes the link: after the look at the
/// path the deletion makes one more request, which removes the path itself, and its
/// result is the result of that removal. A second deletion of the same path, whose
/// look finds nothing any more, makes no request but the look and succeeds.
pub proof fn law_delete_broken_symlink(
    victim: Seq<char>,
    responses: Seq<ResponseView>,
    again: Seq<ResponseView>,
)
    requires
        ends_with(delete_steps(), delete_begin(victim), responses),
        responses[0] matches ResponseView::Probed { probe } && !probe.exists && probe.is_symlink,
        ends_with(delete_steps(), delete_begin(victim), again),
        again[0] matches ResponseView::Probed { probe } && !probe.exists && !probe.is_symlink,
    ensures
        responses.len() == 2,
        requests_made(delete_steps(), delete_begin(victim), responses) == seq![
            RequestView::Probe { path: victim },
            RequestView::RemoveTree { path: victim },
        ],
        result_after(delete_steps(), delete_begin(victim), responses) == settled(
            responses[1],
            victim,
        ),
        requests_made(delete_steps(), delete_begin(victim), again) == seq![
            RequestView::Probe { path: victim },
        ],
        result_after(delete_steps(), delete_begin(victim), again) == Ok::<(), FailureView>(()),
{
    law_delete_absent(victim, again);
    let state = DeletionView::Probing { victim };
    let next = delete_step(state, responses[0]);
    let rest = responses.drop_first();
    assert(delete_steps()(state, responses[0]) == next);
    assert(ends_with(delete_steps(), next, rest));
    let removing = DeletionView::Removing { victim };
    let last = delete_step(removing, rest[0]);
    assert(delete_steps()(removing, rest[0]) == last);
    assert(ends_with(delete_steps(), last, rest.drop_first()));
    let made = requests_made(delete_steps(), delete_begin(victim), responses);
    let later = requests_made(delete_steps(), next, rest);
    assert(requests_made(delete_steps(), last, rest.drop_first()).len() == 0);
    assert(later =~= seq![RequestView::RemoveTree { path: victim }]);
    assert(made =~= seq![
        RequestView::Probe { path: victim },
        RequestView::RemoveTree { path: victim },
    ]);
    assert(result_after(delete_steps(), delete_begin(victim), responses) == result_after(
        delete_steps(),
        next,
        rest,
    ));
    assert(result_after(delete_steps(), next, rest) == result_after(
        delete_steps(),
        last,
        rest.drop_first(),
    ));
    assert(rest[0] == responses[1]);
}

/// The states of the operation [`write_bytes`].
#[derive(Debug, PartialEq, Eq)]
pub enum Writing {
    /// The directory `parent` that is to hold the file is being created.
    CreatingParent { parent: String, path: String, content: Vec<u8> },
    /// The file is being written.
    WritingFile { path: String },
}

/// The mathematical value of a [`Writing`].
pub enum WritingView {
    CreatingParent { parent: Seq<char>, path: Seq<char>, content: Seq<u8> },
    WritingFile { path: Seq<char> },
}

impl View for Writing {
    type V = WritingView;

    open spec fn view(&self) -> WritingView {
        match *self {
            Writing::CreatingParent { parent, path, content } => WritingView::CreatingParent {
                parent: parent@,
                path: path@,
                content: content@,
            },
            Writing::WritingFile { path } => WritingView::WritingFile { path: path@ },
        }
    }
}

/// How writing `content` to `path` begins, `parent` being the directory of `path`: by
/// creating that directory, or, where `path` has none, by failing.
pub open spec fn write_begin(content: Seq<u8>, path: Seq<char>, parent: Option<Seq<char>>) -> NextView<
    WritingView,
> {
    match parent {
        None => NextView::Finish(Err(FailureView::MissingParent { path })),
        Some(parent) => NextView::Continue(
            WritingView::CreatingParent { parent, path, content },
            RequestView::CreateDirAll { path: parent },
        ),
    }
}

/// How writing goes on: once the directory is there, the file is written in full.
pub open spec fn write_step(state: WritingView, response: ResponseView) -> NextView<WritingView> {
    match state {
        WritingView::CreatingParent { parent, path, content } => match settled(response, parent) {
            Ok(_) => NextView::Continue(
                WritingView::WritingFile { path },
                RequestView::WriteFile { path, content },
            ),
            Err(failure) => NextView::Finish(Err(failure)),
        },
        WritingView::WritingFile { path } => NextView::Finish(settled(response, path)),
    }
}

/// Writes `content` to the file `path`, whose directory is `parent`: creates the
/// directory with all that is missing above it, then creates or overwrites the file.
pub fn write_bytes_in(content: &[u8], path: &str, parent: Option<String>) -> (next: Next<Writing>)
    ensures
        next@ == write_begin(content@, path@, text_of(parent)),
{
    match parent {
        None => Next::Finish(Err(Failure::MissingParent { path: String::from_str(path) })),
        Some(parent) => {
            let request = Request::CreateDirAll { path: parent.clone() };
            Next::Continue(
                Writing::CreatingParent {
                    parent,
                    path: String::from_str(path),
                    content: slice_to_vec(content),
                },
                request,
            )
        },
    }
}

/// Writes `content` to the file `path`: creates the directory of `path` with all that
/// is missing above it, then creates or overwrites the file.
pub fn write_bytes(content: &[u8], path: &str) -> (next: Next<Writing>)
    ensures
        next@ == write_begin(content@, path@, parent_of(path@)),
{
    write_bytes_in(content, path, parent(path))
}

/// Writes the text `content`, encoded as UTF-8, to the file `path`, as [`write_bytes`]
/// does.
pub fn write_string(content: &str, path: &str) -> (next: Next<Writing>)
    ensures
        next@ == write_begin(encode_utf8(content@), path@, parent_of(path@)),
{
    write_bytes(content.as_bytes(), path)
}

impl Writing {
    /// Takes the response to the request made last and says how the writing goes on.
    pub fn step(self, response: Response) -> (next: Next<Writing>)
        ensures
            next@ == write_step(self@, response@),
    {
        match self {
            Writing::CreatingParent { parent, path, content } => {
                match settle(response, parent.as_str()) {
                    Ok(_) => {
                        let request = Request::WriteFile { path: path.clone(), content };
                        Next::Continue(Writing::WritingFile { path }, request)
                    },
                    Err(failure) => Next::Finish(Err(failure)),
                }
            },
            Writing::WritingFile { path } => Next::Finish(settle(response, path.as_str())),
        }
    }
}

/// The script with the commands `text` that runs in its own temporary directory.
pub open spec fn script_of(text: Seq<char>) -> ScriptView {
    ScriptView { content: trimmed(text), working_dir: None, environment: Map::empty() }
}

/// The command line that copies a directory, the paths being written as they stand in
/// a command line: `source` and where to copy it to.
pub open spec fn copy_command_text(platform: Platform, source: Seq<char>, target: Seq<char>) -> Seq<
    char,
> {
    match platform {
        Platform::Windows => "xcopy /E /H /I "@ + source + " "@ + target,
        Platform::Posix => "cp -R "@ + source + " "@ + target,
    }
}

/// The command line that copies the directory `source` to `target`, both given as
/// they are to stand in the command line.
pub fn copy_command(platform: Platform, source: &str, target: &str) -> (r: String)
    ensures
        r@ == copy_command_text(platform, source@, target@),
{
    let mut command = match platform {
        Platform::Windows => String::from_str("xcopy /E /H /I "),
        Platform::Posix => String::from_str("cp -R "),
    };
    command.append(source);
    command.append(" ");
    command.append(target);
    command
}

/// The states of the operation [`copy`].
#[derive(Debug, PartialEq, Eq)]
pub enum Copying {
    /// The source is being looked at.
    Probing { platform: Platform, source: String, destination: String },
    /// The source, a file or a directory, is being copied.
    Transferring { source: String },
}

/// The mathematical value of a [`Copying`].
pub enum CopyingView {
    Probing { platform: Platform, source: Seq<char>, destination: Seq<char> },
    Transferring { source: Seq<char> },
}

impl View for Copying {
    type V = CopyingView;

    open spec fn view(&self) -> CopyingView {
        match *self {
            Copying::Probing { platform, source, destination } => CopyingView::Probing {
                platform,
                source: source@,
                destination: destination@,
            },
            Copying::Transferring { source } => CopyingView::Transferring { source: source@ },
        }
    }
}

/// How a copy begins: by looking at the source.
pub open spec fn copy_begin(platform: Platform, source: Seq<char>, destination: Seq<char>) -> NextView<
    CopyingView,
> {
    NextView::Continue(
        CopyingView::Probing { platform, source, destination },
        RequestView::Probe { path: source },
    )
}

/// Where the platform's command for copying a directory puts the copy of `source`,
/// given `destination`: on Windows the directory of the source's name inside the
/// destination, which does not exist for a source without a name; elsewhere the
/// destination as it is.
pub open spec fn copy_target(platform: Platform, source: Seq<char>, destination: Seq<char>) -> Option<
    Seq<char>,
> {
    match platform {
        Platform::Windows => match file_name_of(source) {
            Some(name) => Some(joined(destination, name)),
            None => None,
        },
        Platform::Posix => Some(destination),
    }
}

/// How a copy goes on. A directory is copied with all it holds by a script that runs
/// the platform's command for that; anything else is copied as one file.
pub open spec fn copy_step(state: CopyingView, response: ResponseView) -> NextView<CopyingView> {
    match state {
        CopyingView::Probing { platform, source, destination } => match response {
            ResponseView::Probed { probe } => if probe.is_dir {
                match copy_target(platform, source, destination) {
                    None => NextView::Finish(Err(FailureView::MissingFileName { path: source })),
                    Some(target) => NextView::Continue(
                        CopyingView::Transferring { source },
                        RequestView::Run {
                            platform,
                            script: script_of(
                                copy_command_text(
                                    platform,
                                    quoted_path(source),
                                    quoted_path(target),
                                ),
                            ),
                        },
                    ),
                }
            } else {
                NextView::Continue(
                    CopyingView::Transferring { source },
                    RequestView::CopyFile { source, destination },
                )
            },
            ResponseView::Failed { message } => NextView::Finish(
                Err(FailureView::Io { path: source, message }),
            ),
            _ => NextView::Finish(Err(FailureView::Unexpected)),
        },
        CopyingView::Transferring { source } => NextView::Finish(settled(response, source)),
    }
}

/// Copies `source` to `destination`: a directory with all it holds, anything else as
/// one file.
pub fn copy(platform: Platform, source: &str, destination: &str) -> (next: Next<Copying>)
    ensures
        next@ == copy_begin(platform, source@, destination@),
{
    Next::Continue(
        Copying::Probing {
            platform,
            source: String::from_str(source),
            destination: String::from_str(destination),
        },
        Request::Probe { path: String::from_str(source) },
    )
}

impl Copying {
    /// Takes the response to the request made last and says how the copy goes on.
    pub fn step(self, response: Response) -> (next: Next<Copying>)
        ensures
            next@ == copy_step(self@, response@),
    {
        match self {
            Copying::Probing { platform, source, destination } => match response {
                Response::Probed { probe } => {
                    if probe.is_dir {
                        let target = match platform {
                            Platform::Windows => match file_name(source.as_str()) {
                                Some(name) => Some(join(destination.as_str(), name.as_str())),
                                None => None,
                            },
                            Platform::Posix => Some(destination),
                        };
                        match target {
                            None => Next::Finish(Err(Failure::MissingFileName { path: source })),
                            Some(target) => {
                                let command = copy_command(
                                    platform,
                                    quoted(source.as_str()).as_str(),
                                    quoted(target.as_str()).as_str(),
                                );
                                let script = Script::new(command.as_str());
                                Next::Continue(
                                    Copying::Transferring { source },
                                    Request::Run { platform, script },
                                )
                            },
                        }
                    } else {
                        let request = Request::CopyFile { source: source.clone(), destination };
                        Next::Continue(Copying::Transferring { source }, request)
                    }
                },
                Response::Failed { message } => Next::Finish(
                    Err(Failure::Io { path: source, message }),
                ),
                _ => Next::Finish(Err(Failure::Unexpected)),
            },
            Copying::Transferring { source } => Next::Finish(settle(response, source.as_str())),
        }
    }
}

/// The command line that makes the symbolic link `target` lead to `source`, both given
/// as they are to stand in the command line.
pub open spec fn link_command_text(platform: Platform, source: Seq<char>, target: Seq<char>) -> Seq<
    char,
> {
    match platform {
        Platform::Windows => "mklink /D "@ + target + " "@ + source,
        Platform::Posix => "ln -s "@ + source + " "@ + target,
    }
}

/// The command line that makes the symbolic link `target` lead to `source`, both given
/// as they are to stand in the command line.
pub fn link_command(platform: Platform, source: &str, target: &str) -> (r: String)
    ensures
        r@ == link_command_text(platform, source@, target@),
{
    match platform {
        Platform::Windows => {
            let mut command = String::from_str("mklink /D ");
            command.append(target);
            command.append(" ");
            command.append(source);
            command
        },
        Platform::Posix => {
            let mut command = String::from_str("ln -s ");
            command.append(source);
            command.append(" ");
            command.append(target);
            command
        },
    }
}

/// The states of the operation [`create_symlink`].
#[derive(Debug, PartialEq, Eq)]
pub enum Linking {
    /// What is at the place of the link is being deleted.
    Clearing {
        platform: Platform,
        source: String,
        target: String,
        working_dir: String,
        place: String,
    },
    /// The link is being made at `place`.
    Making { place: String },
}

/// The mathematical value of a [`Linking`].
pub enum LinkingView {
    Clearing {
        platform: Platform,
        source: Seq<char>,
        target: Seq<char>,
        working_dir: Seq<char>,
        place: Seq<char>,
    },
    Making { place: Seq<char> },
}

impl View for Linking {
    type V = LinkingView;

    open spec fn view(&self) -> LinkingView {
        match *self {
            Linking::Clearing { platform, source, target, working_dir, place } => LinkingView::Clearing {
                platform,
                source: source@,
                target: target@,
                working_dir: working_dir@,
                place: place@,
            },
            Linking::Making { place } => LinkingView::Making { place: place@ },
        }
    }
}

/// The place of the link `target` that is made by a command in `working_dir`: `target`
/// seen from `working_dir`.
pub open spec fn link_place(working_dir: Seq<char>, target: Seq<char>) -> Seq<char> {
    joined(working_dir, target)
}

/// The script that makes the symbolic link `target` lead to `source` when it is run in
/// `working_dir`.
pub open spec fn link_script(
    platform: Platform,
    source: Seq<char>,
    target: Seq<char>,
    working_dir: Seq<char>,
) -> ScriptView {
    ScriptView {
        working_dir: Some(working_dir),
        ..script_of(link_command_text(platform, quoted_path(source), quoted_path(target)))
    }
}

/// How making a link whose place is `place` begins: by deleting what is at that
/// place.
pub open spec fn link_begin_at(
    platform: Platform,
    source: Seq<char>,
    target: Seq<char>,
    working_dir: Seq<char>,
    place: Seq<char>,
) -> NextView<LinkingView> {
    NextView::Continue(
        LinkingView::Clearing { platform, source, target, working_dir, place },
        RequestView::Delete { path: place },
    )
}

/// How making a link begins: by deleting what is at its place, which is `target` seen
/// from `working_dir`.
pub open spec fn link_begin(
    platform: Platform,
    source: Seq<char>,
    target: Seq<char>,
    working_dir: Seq<char>,
) -> NextView<LinkingView> {
    link_begin_at(platform, source, target, working_dir, link_place(working_dir, target))
}

/// How making a link goes on: once its place is clear, a script that runs in the
/// working directory makes the link.
pub open spec fn link_step(state: LinkingView, response: ResponseView) -> NextView<LinkingView> {
    match state {
        LinkingView::Clearing { platform, source, target, working_dir, place } => match settled(
            response,
            place,
        ) {
            Ok(_) => NextView::Continue(
                LinkingView::Making { place },
                RequestView::Run {
                    platform,
                    script: link_script(platform, source, target, working_dir),
                },
            ),
            Err(failure) => NextView::Finish(Err(failure)),
        },
        LinkingView::Making { place } => NextView::Finish(settled(response, place)),
    }
}

/// Makes the symbolic link `target`, whose place is `place`, lead to `source`, in
/// place of whatever is at `place`. The link is made by a command that runs in
/// `working_dir`.
pub fn create_symlink_at(
    platform: Platform,
    source: &str,
    target: &str,
    working_dir: &str,
    place: String,
) -> (next: Next<Linking>)
    ensures
        next@ == link_begin_at(platform, source@, target@, working_dir@, place@),
{
    let request = Request::Delete { path: place.clone() };
    Next::Continue(
        Linking::Clearing {
            platform,
            source: String::from_str(source),
            target: String::from_str(target),
            working_dir: String::from_str(working_dir),
            place,
        },
        request,
    )
}

/// Makes `target`, seen from `working_dir`, a symbolic link that leads to `source`, in
/// place of whatever is there: a file, a directory with all it holds, or a link. The
/// link is made by a command that runs in `working_dir`.
pub fn create_symlink(platform: Platform, source: &str, target: &str, working_dir: &str) -> (next:
    Next<Linking>)
    ensures
        next@ == link_begin(platform, source@, target@, working_dir@),
{
    create_symlink_at(platform, source, target, working_dir, join(working_dir, target))
}

impl Linking {
    /// Takes the response to the request made last and says how the linking goes on.
    pub fn step(self, response: Response) -> (next: Next<Linking>)
        ensures
            next@ == link_step(self@, response@),
    {
        match self {
            Linking::Clearing { platform, source, target, working_dir, place } => {
                match settle(response, place.as_str()) {
                    Ok(_) => {
                        let command = link_command(
                            platform,
                            quoted(source.as_str()).as_str(),
                            quoted(target.as_str()).as_str(),
                        );
                        let script = Script::new(command.as_str()).working_dir(
                            working_dir.as_str(),
                        );
                        Next::Continue(Linking::Making { place }, Request::Run { platform, script })
                    },
                    Err(failure) => Next::Finish(Err(failure)),
                }
            },
            Linking::Making { place } => Next::Finish(settle(response, place.as_str())),
        }
    }
}

/// The way making a link goes on, as a function.
pub open spec fn link_steps() -> spec_fn(LinkingView, ResponseView) -> NextView<LinkingView> {
    |state: LinkingView, response: ResponseView| link_step(state, response)
}

/// Making a link where a regular file stands removes that file first, and only then
/// makes the link. The place of the link is the target seen from the working
/// directory, where the command that makes the link runs. Of every linking that comes
/// to an end: its first request deletes what is at that place; if that fails nothing
/// else is asked for; if it succeeds the second and last request runs, in the working
/// directory, the command that makes the target lead to the source, and the result is
/// the result of that command. And the deletion of a place at which the look finds a
/// regular file removes it as a file.
pub proof fn law_symlink_replaces_file(
    platform: Platform,
    source: Seq<char>,
    target: Seq<char>,
    working_dir: Seq<char>,
    responses: Seq<ResponseView>,
    probe: PathProbe,
)
    requires
        ends_with(link_steps(), link_begin(platform, source, target, working_dir), responses),
        probe.exists,
        !probe.is_dir,
        !probe.is_symlink,
    ensures
        ({
            let place = joined(working_dir, target);
            let begin = link_begin(platform, source, target, working_dir);
            let made = requests_made(link_steps(), begin, responses);
            let result = result_after(link_steps(), begin, responses);
            let script = link_script(platform, source, target, working_dir);
            &&& settled(responses[0], place) is Err ==> made == seq![
                RequestView::Delete { path: place },
            ] && result == settled(responses[0], place)
            &&& settled(responses[0], place) is Ok ==> responses.len() == 2 && made == seq![
                RequestView::Delete { path: place },
                RequestView::Run { platform, script },
            ] && result == settled(responses[1], place)
            &&& script.working_dir == Some(working_dir)
            &&& platform == Platform::Posix ==> script.content == trimmed(
                "ln -s "@ + quoted_path(source) + " "@ + quoted_path(target),
            )
            &&& delete_step(
                DeletionView::Probing { victim: place },
                ResponseView::Probed { probe },
            ) == NextView::Continue(
                DeletionView::Removing { victim: place },
                RequestView::RemoveFile { path: place },
            )
        }),
{
    let place = joined(working_dir, target);
    let begin = link_begin(platform, source, target, working_dir);
    let clearing = LinkingView::Clearing { platform, source, target, working_dir, place };
    let next = link_step(clearing, responses[0]);
    let rest = responses.drop_first();
    assert(link_steps()(clearing, responses[0]) == next);
    assert(ends_with(link_steps(), next, rest));
    let made = requests_made(link_steps(), begin, responses);
    let later = requests_made(link_steps(), next, rest);
    assert(made == seq![RequestView::Delete { path: place }] + later);
    assert(result_after(link_steps(), begin, responses) == result_after(link_steps(), next, rest));
    match next {
        NextView::Finish(_) => {
            assert(later.len() == 0);
            assert(made =~= seq![RequestView::Delete { path: place }]);
        },
        NextView::Continue(making, request) => {
            let last = link_step(making, rest[0]);
            assert(link_steps()(making, rest[0]) == last);
            assert(ends_with(link_steps(), last, rest.drop_first()));
            assert(requests_made(link_steps(), last, rest.drop_first()).len() == 0);
            assert(later =~= seq![request]);
            assert(made =~= seq![RequestView::Delete { path: place }, request]);
            assert(result_after(link_steps(), next, rest) == result_after(
                link_steps(),
                last,
                rest.drop_first(),
            ));
            assert(rest[0] == responses[1]);
        },
    }
}

/// The states of the operation [`unzip`].
#[derive(Debug, PartialEq, Eq)]
pub enum Unzipping {
    /// The directory to unpack into is being created.
    CreatingRoot { platform: Platform, archive: String, destination: String },
    /// The archive is being read.
    Reading { platform: Platform, archive: String, destination: String },
    /// The entries are being unpacked.
    Extracting { plan: Plan },
}

/// The mathematical value of an [`Unzipping`].
pub enum UnzippingView {
    CreatingRoot { platform: Platform, archive: Seq<char>, destination: Seq<char> },
    Reading { platform: Platform, archive: Seq<char>, destination: Seq<char> },
    Extracting { plan: PlanView },
}

impl View for Unzipping {
    type V = UnzippingView;

    open spec fn view(&self) -> UnzippingView {
        match *self {
            Unzipping::CreatingRoot { platform, archive, destination } => UnzippingView::CreatingRoot {
                platform,
                archive: archive@,
                destination: destination@,
            },
            Unzipping::Reading { platform, archive, destination } => UnzippingView::Reading {
                platform,
                archive: archive@,
                destination: destination@,
            },
            Unzipping::Extracting { plan } => UnzippingView::Extracting { plan: plan@ },
        }
    }
}

/// The step of an unpacking that a step of its plan amounts to.
pub open spec fn extracting(next: NextView<PlanView>) -> NextView<UnzippingView> {
    match next {
        NextView::Continue(plan, request) => NextView::Continue(
            UnzippingView::Extracting { plan },
            request,
        ),
        NextView::Finish(result) => NextView::Finish(result),
    }
}

/// How unpacking begins: by creating the directory to unpack into.
pub open spec fn unzip_begin(platform: Platform, archive: Seq<char>, destination: Seq<char>) -> NextView<
    UnzippingView,
> {
    NextView::Continue(
        UnzippingView::CreatingRoot { platform, archive, destination },
        RequestView::CreateDirAll { path: destination },
    )
}

/// How unpacking goes on: the archive file is read, and if all its entries can be
/// read they are unpacked one after the other; the first failure ends it.
pub open spec fn unzip_step(state: UnzippingView, response: ResponseView) -> NextView<
    UnzippingView,
> {
    match state {
        UnzippingView::CreatingRoot { platform, archive, destination } => match settled(
            response,
            destination,
        ) {
            Ok(_) => NextView::Continue(
                UnzippingView::Reading { platform, archive, destination },
                RequestView::ReadFile { path: archive },
            ),
            Err(failure) => NextView::Finish(Err(failure)),
        },
        UnzippingView::Reading { platform, archive, destination } => match response {
            ResponseView::Content { bytes } => if readable(bytes) {
                extracting(plan_start(extraction(platform, destination, archived(bytes))))
            } else {
                NextView::Finish(Err(FailureView::BadArchive))
            },
            ResponseView::Failed { message } => NextView::Finish(
                Err(FailureView::Io { path: archive, message }),
            ),
            _ => NextView::Finish(Err(FailureView::Unexpected)),
        },
        UnzippingView::Extracting { plan } => extracting(plan_step(plan, response)),
    }
}

/// Unpacks the zip archive in the file `archive` into the directory `destination`,
/// which is created. An entry whose name ends in a slash becomes a directory, any
/// other a file whose directory is created as needed; an entry keeps the permission
/// bits that the archive stores for it, on a platform that has them. An entry whose
/// name is no safe relative path is passed over.
pub fn unzip(platform: Platform, archive: &str, destination: &str) -> (next: Next<Unzipping>)
    ensures
        next@ == unzip_begin(platform, archive@, destination@),
{
    Next::Continue(
        Unzipping::CreatingRoot {
            platform,
            archive: String::from_str(archive),
            destination: String::from_str(destination),
        },
        Request::CreateDirAll { path: String::from_str(destination) },
    )
}

fn extracting_next(next: Next<Plan>) -> (r: Next<Unzipping>)
    ensures
        r@ == extracting(next@),
{
    match next {
        Next::Continue(plan, request) => Next::Continue(Unzipping::Extracting { plan }, request),
        Next::Finish(result) => Next::Finish(result),
    }
}

impl Unzipping {
    /// Takes the response to the request made last and says how the unpacking goes on.
    pub fn step(self, response: Response) -> (next: Next<Unzipping>)
        ensures
            next@ == unzip_step(self@, response@),
    {
        match self {
            Unzipping::CreatingRoot { platform, archive, destination } => {
                match settle(response, destination.as_str()) {
                    Ok(_) => {
                        let request = Request::ReadFile { path: archive.clone() };
                        Next::Continue(Unzipping::Reading { platform, archive, destination }, request)
                    },
                    Err(failure) => Next::Finish(Err(failure)),
                }
            },
            Unzipping::Reading { platform, archive, destination } => match response {
                Response::Content { bytes } => match read_entries(bytes) {
                    Ok(entries) => extracting_next(
                        Plan::start(extraction_plan(platform, destination.as_str(), entries)),
                    ),
                    Err(_) => Next::Finish(Err(Failure::BadArchive)),
                },
                Response::Failed { message } => Next::Finish(
                    Err(Failure::Io { path: archive, message }),
                ),
                _ => Next::Finish(Err(Failure::Unexpected)),
            },
            Unzipping::Extracting { plan } => extracting_next(plan.step(response)),
        }
    }
}

/// The way unpacking goes on, as a function.
pub open spec fn unzip_steps() -> spec_fn(UnzippingView, ResponseView) -> NextView<UnzippingView> {
    |state: UnzippingView, response: ResponseView| unzip_step(state, response)
}

proof fn lemma_extracting_follows_plan(next: NextView<PlanView>, responses: Seq<ResponseView>)
    ensures
        requests_made(unzip_steps(), extracting(next), responses) == requests_made(
            plan_steps(),
            next,
            responses,
        ),
        ends_with(unzip_steps(), extracting(next), responses) == ends_with(
            plan_steps(),
            next,
            responses,
        ),
        result_after(unzip_steps(), extracting(next), responses) == result_after(
            plan_steps(),
            next,
            responses,
        ),
    decreases responses.len(),
{
    match next {
        NextView::Finish(_) => {},
        NextView::Continue(plan, request) => {
            if responses.len() > 0 {
                let state = UnzippingView::Extracting { plan };
                let after = plan_step(plan, responses[0]);
                assert(unzip_steps()(state, responses[0]) == extracting(after));
                assert(plan_steps()(plan, responses[0]) == after);
                lemma_extracting_follows_plan(after, responses.drop_first());
            }
        },
    }
}

/// An unpacking whose requests all succeed creates the destination, reads the archive
/// and then makes the requests that unpack the entries of the archive, entry after
/// entry, and nothing else; it ends with success.
pub proof fn law_unzip_carries_out_extraction(
    platform: Platform,
    archive: Seq<char>,
    destination: Seq<char>,
    bytes: Seq<u8>,
    responses: Seq<ResponseView>,
)
    requires
        readable(bytes),
        responses.len() == 2 + extraction(platform, destination, archived(bytes)).len(),
        settled(responses[0], destination) is Ok,
        responses[1] == (ResponseView::Content { bytes }),
        forall|i: int|
            0 <= i < extraction(platform, destination, archived(bytes)).len() ==> settled(
                #[trigger] responses[i + 2],
                subject_of(extraction(platform, destination, archived(bytes))[i]),
            ) is Ok,
    ensures
        ends_with(unzip_steps(), unzip_begin(platform, archive, destination), responses),
        requests_made(unzip_steps(), unzip_begin(platform, archive, destination), responses)
            == seq![
            RequestView::CreateDirAll { path: destination },
            RequestView::ReadFile { path: archive },
        ] + extraction(platform, destination, archived(bytes)),
        result_after(unzip_steps(), unzip_begin(platform, archive, destination), responses)
            == Ok::<(), FailureView>(()),
{
    let plan = extraction(platform, destination, archived(bytes));
    let begin = unzip_begin(platform, archive, destination);
    let creating = UnzippingView::CreatingRoot { platform, archive, destination };
    let reading = UnzippingView::Reading { platform, archive, destination };
    let second = unzip_step(creating, responses[0]);
    let rest = responses.drop_first();
    assert(unzip_steps()(creating, responses[0]) == second);
    assert(second == NextView::Continue(reading, RequestView::ReadFile { path: archive }));
    let third = unzip_step(reading, rest[0]);
    let tail = rest.drop_first();
    assert(rest[0] == responses[1]);
    assert(unzip_steps()(reading, rest[0]) == third);
    assert(third == extracting(plan_start(plan)));
    assert forall|i: int| 0 <= i < tail.len() implies settled(
        #[trigger] tail[i],
        subject_of(plan[i]),
    ) is Ok by {
        assert(tail[i] == responses[i + 2]);
    }
    law_plan_in_order(plan, tail);
    lemma_extracting_follows_plan(plan_start(plan), tail);
    assert(ends_with(unzip_steps(), second, rest));
    let made = requests_made(unzip_steps(), begin, responses);
    let made_second = requests_made(unzip_steps(), second, rest);
    let made_third = requests_made(unzip_steps(), third, tail);
    assert(made == seq![RequestView::CreateDirAll { path: destination }] + made_second);
    if tail.len() == 0 {
        assert(plan_start(plan) is Finish);
        assert(made_second =~= seq![RequestView::ReadFile { path: archive }] + made_third);
    } else {
        assert(made_second == seq![RequestView::ReadFile { path: archive }] + made_third);
    }
    assert(made =~= seq![
        RequestView::CreateDirAll { path: destination },
        RequestView::ReadFile { path: archive },
    ] + plan);
    assert(result_after(unzip_steps(), begin, responses) == result_after(
        unzip_steps(),
        second,
        rest,
    ));
    assert(result_after(unzip_steps(), second, rest) == result_after(unzip_steps(), third, tail));
}

} // verus!
