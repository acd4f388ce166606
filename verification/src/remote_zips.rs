use vstd::prelude::*;
use crate::effect::{
    Next, NextView, Request, RequestView, Response, ResponseView, ends_with, requests_made,
    result_after, settle, settled, texts_of,
};
use crate::failure::{Failure, FailureView, outcome_of};
use crate::paths::{join, joined, quoted, quoted_path};
use crate::platform::Platform;
use crate::workspace::{
    acquire, in_temp_dir, leave_temp_dir, prefix, scoped, scoped_result, workspace_prefix,
};

verus! {

/// The name of the downloaded archive inside the temporary directory.
pub open spec fn archive_name() -> Seq<char> {
    "download.zip"@
}

/// The name of the directory inside the temporary directory into which the archive is
/// unpacked.
pub open spec fn unzipped_name() -> Seq<char> {
    "unzipped"@
}

/// The states of the operation [`fetch`].
#[derive(Debug, PartialEq, Eq)]
pub enum Fetching {
    /// The place of the artifact is being looked at.
    Probing { platform: Platform, url: String, name: String, parent_dir: String, target: String },
    /// The user is being told that the place is taken and nothing is downloaded.
    Reporting { target: String },
    /// The temporary directory is being created.
    Acquiring { platform: Platform, url: String, name: String, parent_dir: String },
    /// The archive is being downloaded into the temporary directory `dir`.
    Downloading { dir: String, platform: Platform, url: String, name: String, parent_dir: String },
    /// The archive is being unpacked.
    Unzipping { dir: String, platform: Platform, name: String, parent_dir: String },
    /// What was unpacked is being listed.
    Listing { dir: String, platform: Platform, name: String, parent_dir: String },
    /// The first entry of what was unpacked is being given the logical name.
    Renaming { dir: String, platform: Platform, first: String, content_dir: String, parent_dir: String },
    /// The directory that is to hold the artifact is being created.
    CreatingParent { dir: String, platform: Platform, content_dir: String, parent_dir: String },
    /// The artifact is being copied to its place.
    Copying { dir: String, content_dir: String },
    /// The temporary directory is being removed; `result` is what the work came to.
    Releasing { dir: String, result: Result<(), Failure> },
}

/// The mathematical value of a [`Fetching`].
pub enum FetchingView {
    Probing {
        platform: Platform,
        url: Seq<char>,
        name: Seq<char>,
        parent_dir: Seq<char>,
        target: Seq<char>,
    },
    Reporting { target: Seq<char> },
    Acquiring { platform: Platform, url: Seq<char>, name: Seq<char>, parent_dir: Seq<char> },
    Downloading {
        dir: Seq<char>,
        platform: Platform,
        url: Seq<char>,
        name: Seq<char>,
        parent_dir: Seq<char>,
    },
    Unzipping { dir: Seq<char>, platform: Platform, name: Seq<char>, parent_dir: Seq<char> },
    Listing { dir: Seq<char>, platform: Platform, name: Seq<char>, parent_dir: Seq<char> },
    Renaming {
        dir: Seq<char>,
        platform: Platform,
        first: Seq<char>,
        content_dir: Seq<char>,
        parent_dir: Seq<char>,
    },
    CreatingParent {
        dir: Seq<char>,
        platform: Platform,
        content_dir: Seq<char>,
        parent_dir: Seq<char>,
    },
    Copying { dir: Seq<char>, content_dir: Seq<char> },
    Releasing { dir: Seq<char>, result: Result<(), FailureView> },
}

impl View for Fetching {
    type V = FetchingView;

    open spec fn view(&self) -> FetchingView {
        match *self {
            Fetching::Probing { platform, url, name, parent_dir, target } => FetchingView::Probing {
                platform,
                url: url@,
                name: name@,
                parent_dir: parent_dir@,
                target: target@,
            },
            Fetching::Reporting { target } => FetchingView::Reporting { target: target@ },
            Fetching::Acquiring { platform, url, name, parent_dir } => FetchingView::Acquiring {
                platform,
                url: url@,
                name: name@,
                parent_dir: parent_dir@,
            },
            Fetching::Downloading { dir, platform, url, name, parent_dir } => FetchingView::Downloading {
                dir: dir@,
                platform,
                url: url@,
                name: name@,
                parent_dir: parent_dir@,
            },
            Fetching::Unzipping { dir, platform, name, parent_dir } => FetchingView::Unzipping {
                dir: dir@,
                platform,
                name: name@,
                parent_dir: parent_dir@,
            },
            Fetching::Listing { dir, platform, name, parent_dir } => FetchingView::Listing {
                dir: dir@,
                platform,
                name: name@,
                parent_dir: parent_dir@,
            },
            Fetching::Renaming { dir, platform, first, content_dir, parent_dir } => FetchingView::Renaming {
                dir: dir@,
                platform,
                first: first@,
                content_dir: content_dir@,
                parent_dir: parent_dir@,
            },
            Fetching::CreatingParent { dir, platform, content_dir, parent_dir } => FetchingView::CreatingParent {
                dir: dir@,
                platform,
                content_dir: content_dir@,
                parent_dir: parent_dir@,
            },
            Fetching::Copying { dir, content_dir } => FetchingView::Copying {
                dir: dir@,
                content_dir: content_dir@,
            },
            Fetching::Releasing { dir, result } => FetchingView::Releasing {
                dir: dir@,
                result: outcome_of(result),
            },
        }
    }
}

/// The step that gives up the temporary directory `dir` after the work in it has come
/// to `result`.
pub open spec fn fetch_release(dir: Seq<char>, result: Result<(), FailureView>) -> NextView<
    FetchingView,
> {
    NextView::Continue(
        FetchingView::Releasing { dir, result },
        RequestView::ReleaseWorkspace { path: dir },
    )
}

/// What the user is told when the place of the artifact is taken.
pub open spec fn skip_message(target: Seq<char>) -> Seq<char> {
    "Destination already exists, skipping download: "@ + quoted_path(target)
}

/// How a fetch begins: by looking at the place of the artifact, the directory of the
/// logical name inside the parent directory.
pub open spec fn fetch_begin(
    platform: Platform,
    url: Seq<char>,
    name: Seq<char>,
    parent_dir: Seq<char>,
) -> NextView<FetchingView> {
    NextView::Continue(
        FetchingView::Probing { platform, url, name, parent_dir, target: joined(parent_dir, name) },
        RequestView::Probe { path: joined(parent_dir, name) },
    )
}

/// How a fetch goes on. If the place of the artifact exists the user is told so, and
/// the fetch ends with success whatever comes of the telling.
/// Otherwise, in a temporary directory: the archive is downloaded and unpacked, the
/// first entry of what was unpacked is given the logical name, the parent directory is
/// created and the renamed entry is copied into it. From the moment the temporary
/// directory is there, whatever happens leads to its removal before the fetch ends.
pub open spec fn fetch_step(state: FetchingView, response: ResponseView) -> NextView<
    FetchingView,
> {
    match state {
        FetchingView::Probing { platform, url, name, parent_dir, target } => match response {
            ResponseView::Probed { probe } => if probe.exists {
                NextView::Continue(
                    FetchingView::Reporting { target },
                    RequestView::Print { line: skip_message(target) },
                )
            } else {
                NextView::Continue(
                    FetchingView::Acquiring { platform, url, name, parent_dir },
                    acquire(),
                )
            },
            ResponseView::Failed { message } => NextView::Finish(
                Err(FailureView::Io { path: target, message }),
            ),
            _ => NextView::Finish(Err(FailureView::Unexpected)),
        },
        FetchingView::Reporting { target } => NextView::Finish(Ok(())),
        FetchingView::Acquiring { platform, url, name, parent_dir } => match response {
            ResponseView::Workspace { path } => NextView::Continue(
                FetchingView::Downloading { dir: path, platform, url, name, parent_dir },
                RequestView::Download { url, destination: joined(path, archive_name()) },
            ),
            ResponseView::Failed { message } => NextView::Finish(
                Err(FailureView::Io { path: workspace_prefix(), message }),
            ),
            _ => NextView::Finish(Err(FailureView::Unexpected)),
        },
        FetchingView::Downloading { dir, platform, url, name, parent_dir } => match settled(
            response,
            url,
        ) {
            Ok(_) => NextView::Continue(
                FetchingView::Unzipping { dir, platform, name, parent_dir },
                RequestView::Unzip {
                    platform,
                    archive: joined(dir, archive_name()),
                    destination: joined(dir, unzipped_name()),
                },
            ),
            Err(failure) => fetch_release(dir, Err(failure)),
        },
        FetchingView::Unzipping { dir, platform, name, parent_dir } => match settled(
            response,
            joined(dir, archive_name()),
        ) {
            Ok(_) => NextView::Continue(
                FetchingView::Listing { dir, platform, name, parent_dir },
                RequestView::ListDir { path: joined(dir, unzipped_name()) },
            ),
            Err(failure) => fetch_release(dir, Err(failure)),
        },
        FetchingView::Listing { dir, platform, name, parent_dir } => match response {
            ResponseView::Listing { entries } => if entries.len() == 0 {
                fetch_release(dir, Err(FailureView::EmptyArchive))
            } else {
                NextView::Continue(
                    FetchingView::Renaming {
                        dir,
                        platform,
                        first: entries[0],
                        content_dir: joined(joined(dir, unzipped_name()), name),
                        parent_dir,
                    },
                    RequestView::Rename {
                        source: entries[0],
                        destination: joined(joined(dir, unzipped_name()), name),
                    },
                )
            },
            ResponseView::Failed { message } => fetch_release(
                dir,
                Err(FailureView::Io { path: joined(dir, unzipped_name()), message }),
            ),
            _ => fetch_release(dir, Err(FailureView::Unexpected)),
        },
        FetchingView::Renaming { dir, platform, first, content_dir, parent_dir } => match settled(
            response,
            first,
        ) {
            Ok(_) => NextView::Continue(
                FetchingView::CreatingParent { dir, platform, content_dir, parent_dir },
                RequestView::CreateDirAll { path: parent_dir },
            ),
            Err(failure) => fetch_release(dir, Err(failure)),
        },
        FetchingView::CreatingParent { dir, platform, content_dir, parent_dir } => match settled(
            response,
            parent_dir,
        ) {
            Ok(_) => NextView::Continue(
                FetchingView::Copying { dir, content_dir },
                RequestView::Copy { platform, source: content_dir, destination: parent_dir },
            ),
            Err(failure) => fetch_release(dir, Err(failure)),
        },
        FetchingView::Copying { dir, content_dir } => fetch_release(
            dir,
            settled(response, content_dir),
        ),
        FetchingView::Releasing { dir, result } => NextView::Finish(
            scoped_result(result, dir, response),
        ),
    }
}

/// Makes the directory `destination_dir_name` of `destination_parent_dir` hold what
/// the zip archive at `url` holds in its one top directory. Does nothing if that
/// directory exists already, whatever it holds.
pub fn fetch(
    platform: Platform,
    url: &str,
    destination_dir_name: &str,
    destination_parent_dir: &str,
) -> (next: Next<Fetching>)
    ensures
        next@ == fetch_begin(platform, url@, destination_dir_name@, destination_parent_dir@),
{
    let target = join(destination_parent_dir, destination_dir_name);
    let request = Request::Probe { path: target.clone() };
    Next::Continue(
        Fetching::Probing {
            platform,
            url: String::from_str(url),
            name: String::from_str(destination_dir_name),
            parent_dir: String::from_str(destination_parent_dir),
            target,
        },
        request,
    )
}

fn release_next(dir: String, result: Result<(), Failure>) -> (next: Next<Fetching>)
    ensures
        next@ == fetch_release(dir@, outcome_of(result)),
{
    let request = leave_temp_dir(dir.as_str());
    Next::Continue(Fetching::Releasing { dir, result }, request)
}

/// The first of `entries`, if there is one.
pub fn first_entry(entries: Vec<String>) -> (r: Option<String>)
    ensures
        match r {
            Some(first) => entries@.len() > 0 && first@ == texts_of(entries@)[0],
            None => entries@.len() == 0,
        },
{
    if entries.len() == 0 {
        None
    } else {
        Some(entries[0].clone())
    }
}

impl Fetching {
    /// Takes the response to the request made last and says how the fetch goes on.
    pub fn step(self, response: Response) -> (next: Next<Fetching>)
        ensures
            next@ == fetch_step(self@, response@),
    {
        match self {
            Fetching::Probing { platform, url, name, parent_dir, target } => match response {
                Response::Probed { probe } => {
                    if probe.exists {
                        let mut line = String::from_str(
                            "Destination already exists, skipping download: ",
                        );
                        line.append(quoted(target.as_str()).as_str());
                        Next::Continue(Fetching::Reporting { target }, Request::Print { line })
                    } else {
                        Next::Continue(
                            Fetching::Acquiring { platform, url, name, parent_dir },
                            in_temp_dir(),
                        )
                    }
                },
                Response::Failed { message } => Next::Finish(
                    Err(Failure::Io { path: target, message }),
                ),
                _ => Next::Finish(Err(Failure::Unexpected)),
            },
            Fetching::Reporting { target } => Next::Finish(Ok(())),
            Fetching::Acquiring { platform, url, name, parent_dir } => match response {
                Response::Workspace { path } => {
                    let request = Request::Download {
                        url: url.clone(),
                        destination: join(path.as_str(), "download.zip"),
                    };
                    Next::Continue(
                        Fetching::Downloading { dir: path, platform, url, name, parent_dir },
                        request,
                    )
                },
                Response::Failed { message } => Next::Finish(
                    Err(Failure::Io { path: String::from_str(prefix()), message }),
                ),
                _ => Next::Finish(Err(Failure::Unexpected)),
            },
            Fetching::Downloading { dir, platform, url, name, parent_dir } => {
                match settle(response, url.as_str()) {
                    Ok(_) => {
                        let request = Request::Unzip {
                            platform,
                            archive: join(dir.as_str(), "download.zip"),
                            destination: join(dir.as_str(), "unzipped"),
                        };
                        Next::Continue(
                            Fetching::Unzipping { dir, platform, name, parent_dir },
                            request,
                        )
                    },
                    Err(failure) => release_next(dir, Err(failure)),
                }
            },
            Fetching::Unzipping { dir, platform, name, parent_dir } => {
                let archive = join(dir.as_str(), "download.zip");
                match settle(response, archive.as_str()) {
                    Ok(_) => {
                        let request = Request::ListDir { path: join(dir.as_str(), "unzipped") };
                        Next::Continue(Fetching::Listing { dir, platform, name, parent_dir }, request)
                    },
                    Err(failure) => release_next(dir, Err(failure)),
                }
            },
            Fetching::Listing { dir, platform, name, parent_dir } => match response {
                Response::Listing { entries } => match first_entry(entries) {
                    None => release_next(dir, Err(Failure::EmptyArchive)),
                    Some(first) => {
                        let unzipped = join(dir.as_str(), "unzipped");
                        let content_dir = join(unzipped.as_str(), name.as_str());
                        let request = Request::Rename {
                            source: first.clone(),
                            destination: content_dir.clone(),
                        };
                        Next::Continue(
                            Fetching::Renaming { dir, platform, first, content_dir, parent_dir },
                            request,
                        )
                    },
                },
                Response::Failed { message } => {
                    let unzipped = join(dir.as_str(), "unzipped");
                    release_next(dir, Err(Failure::Io { path: unzipped, message }))
                },
                _ => release_next(dir, Err(Failure::Unexpected)),
            },
            Fetching::Renaming { dir, platform, first, content_dir, parent_dir } => {
                match settle(response, first.as_str()) {
                    Ok(_) => {
                        let request = Request::CreateDirAll { path: parent_dir.clone() };
                        Next::Continue(
                            Fetching::CreatingParent { dir, platform, content_dir, parent_dir },
                            request,
                        )
                    },
                    Err(failure) => release_next(dir, Err(failure)),
                }
            },
            Fetching::CreatingParent { dir, platform, content_dir, parent_dir } => {
                match settle(response, parent_dir.as_str()) {
                    Ok(_) => {
                        let request = Request::Copy {
                            platform,
                            source: content_dir.clone(),
                            destination: parent_dir,
                        };
                        Next::Continue(Fetching::Copying { dir, content_dir }, request)
                    },
                    Err(failure) => release_next(dir, Err(failure)),
                }
            },
            Fetching::Copying { dir, content_dir } => {
                let result = settle(response, content_dir.as_str());
                release_next(dir, result)
            },
            Fetching::Releasing { dir, result } => Next::Finish(
                scoped(result, dir.as_str(), response),
            ),
        }
    }
}

/// The way a fetch goes on, as a function.
pub open spec fn fetch_steps() -> spec_fn(FetchingView, ResponseView) -> NextView<FetchingView> {
    |state: FetchingView, response: ResponseView| fetch_step(state, response)
}

/// Whether a fetch in `state` works in the temporary directory `dir`.
pub open spec fn works_in(state: FetchingView, dir: Seq<char>) -> bool {
    match state {
        FetchingView::Downloading { dir: held, .. } => held == dir,
        FetchingView::Unzipping { dir: held, .. } => held == dir,
        FetchingView::Listing { dir: held, .. } => held == dir,
        FetchingView::Renaming { dir: held, .. } => held == dir,
        FetchingView::CreatingParent { dir: held, .. } => held == dir,
        FetchingView::Copying { dir: held, .. } => held == dir,
        _ => false,
    }
}

/// Whether a fetch in `state` has just asked for the removal of `dir`.
pub open spec fn gives_up(state: FetchingView, request: RequestView, dir: Seq<char>) -> bool {
    state matches FetchingView::Releasing { dir: held, .. } && held == dir && request
        == (RequestView::ReleaseWorkspace { path: dir })
}

/// Whether a fetch in `state` has the download behind it.
pub open spec fn has_downloaded(state: FetchingView) -> bool {
    match state {
        FetchingView::Unzipping { .. } => true,
        FetchingView::Listing { .. } => true,
        FetchingView::Renaming { .. } => true,
        FetchingView::CreatingParent { .. } => true,
        FetchingView::Copying { .. } => true,
        FetchingView::Releasing { .. } => true,
        _ => false,
    }
}

proof fn lemma_fetch_releases(
    state: FetchingView,
    request: RequestView,
    dir: Seq<char>,
    responses: Seq<ResponseView>,
)
    requires
        ends_with(fetch_steps(), NextView::Continue(state, request), responses),
        (works_in(state, dir) && !(request is ReleaseWorkspace)) || gives_up(state, request, dir),
    ensures
        ({
            let made = requests_made(fetch_steps(), NextView::Continue(state, request), responses);
            &&& made.len() >= 1
            &&& made.last() == (RequestView::ReleaseWorkspace { path: dir })
            &&& forall|k: int| 0 <= k < made.len() - 1 ==> !(#[trigger] made[k] is ReleaseWorkspace)
        }),
    decreases responses.len(),
{
    let next = fetch_step(state, responses[0]);
    let rest = responses.drop_first();
    let made = requests_made(fetch_steps(), NextView::Continue(state, request), responses);
    let later = requests_made(fetch_steps(), next, rest);
    assert(fetch_steps()(state, responses[0]) == next);
    assert(made == seq![request] + later);
    match next {
        NextView::Finish(_) => {
            assert(later.len() == 0);
        },
        NextView::Continue(after, asked) => {
            lemma_fetch_releases(after, asked, dir, rest);
            assert(made.last() == later.last());
            assert forall|k: int| 0 <= k < made.len() - 1 implies !(#[trigger] made[k]
                is ReleaseWorkspace) by {
                if k > 0 {
                    assert(made[k] == later[k - 1]);
                }
            }
        },
    }
}

proof fn lemma_no_second_download(
    state: FetchingView,
    request: RequestView,
    responses: Seq<ResponseView>,
)
    requires
        has_downloaded(state) || state is Downloading,
    ensures
        ({
            let made = requests_made(fetch_steps(), NextView::Continue(state, request), responses);
            &&& made.len() >= 1
            &&& made[0] == request
            &&& forall|k: int| 1 <= k < made.len() ==> !(#[trigger] made[k] is Download)
        }),
    decreases responses.len(),
{
    let made = requests_made(fetch_steps(), NextView::Continue(state, request), responses);
    if responses.len() > 0 {
        let next = fetch_step(state, responses[0]);
        let rest = responses.drop_first();
        let later = requests_made(fetch_steps(), next, rest);
        assert(fetch_steps()(state, responses[0]) == next);
        assert(made == seq![request] + later);
        match next {
            NextView::Finish(_) => {},
            NextView::Continue(after, asked) => {
                lemma_no_second_download(after, asked, rest);
                assert forall|k: int| 1 <= k < made.len() implies !(#[trigger] made[k]
                    is Download) by {
                    assert(made[k] == later[k - 1]);
                }
            },
        }
    }
}

/// A fetch whose place is taken already changes nothing and downloads nothing: when
/// the look at the place of the artifact finds that it exists, the fetch tells the user
/// so and ends with success. The look and the line for the user are the only requests
/// it has made.
pub proof fn law_fetch_cache_hit(
    platform: Platform,
    url: Seq<char>,
    name: Seq<char>,
    parent_dir: Seq<char>,
    responses: Seq<ResponseView>,
)
    requires
        ends_with(fetch_steps(), fetch_begin(platform, url, name, parent_dir), responses),
        responses[0] matches ResponseView::Probed { probe } && probe.exists,
    ensures
        responses.len() == 2,
        requests_made(fetch_steps(), fetch_begin(platform, url, name, parent_dir), responses)
            == seq![
            RequestView::Probe { path: joined(parent_dir, name) },
            RequestView::Print { line: skip_message(joined(parent_dir, name)) },
        ],
        result_after(fetch_steps(), fetch_begin(platform, url, name, parent_dir), responses)
            == Ok::<(), FailureView>(()),
{
    let target = joined(parent_dir, name);
    let begin = fetch_begin(platform, url, name, parent_dir);
    let state = FetchingView::Probing { platform, url, name, parent_dir, target };
    let next = fetch_step(state, responses[0]);
    let rest = responses.drop_first();
    assert(fetch_steps()(state, responses[0]) == next);
    assert(ends_with(fetch_steps(), next, rest));
    let reporting = FetchingView::Reporting { target };
    let last = fetch_step(reporting, rest[0]);
    assert(fetch_steps()(reporting, rest[0]) == last);
    assert(ends_with(fetch_steps(), last, rest.drop_first()));
    let made = requests_made(fetch_steps(), begin, responses);
    let later = requests_made(fetch_steps(), next, rest);
    assert(requests_made(fetch_steps(), last, rest.drop_first()).len() == 0);
    assert(later =~= seq![RequestView::Print { line: skip_message(target) }]);
    assert(made =~= seq![
        RequestView::Probe { path: target },
        RequestView::Print { line: skip_message(target) },
    ]);
    assert(result_after(fetch_steps(), begin, responses) == result_after(
        fetch_steps(),
        next,
        rest,
    ));
    assert(result_after(fetch_steps(), next, rest) == result_after(
        fetch_steps(),
        last,
        rest.drop_first(),
    ));
}

/// A fetch downloads at most once, and a fetch that succeeds without finding its
/// place taken downloads exactly once: of the requests of any fetch only the third can
/// be a download, and in a fetch that found its place free and ended with success the
/// third request is the download of the address it was given.
pub proof fn law_fetch_downloads_once(
    platform: Platform,
    url: Seq<char>,
    name: Seq<char>,
    parent_dir: Seq<char>,
    responses: Seq<ResponseView>,
)
    requires
        ends_with(fetch_steps(), fetch_begin(platform, url, name, parent_dir), responses),
    ensures
        ({
            let made = requests_made(
                fetch_steps(),
                fetch_begin(platform, url, name, parent_dir),
                responses,
            );
            let result = result_after(
                fetch_steps(),
                fetch_begin(platform, url, name, parent_dir),
                responses,
            );
            &&& forall|k: int| 0 <= k < made.len() && #[trigger] made[k] is Download ==> k == 2
            &&& result is Ok && !(responses[0] matches ResponseView::Probed { probe }
                && probe.exists) ==> made.len() > 2 && made[2] is Download && made[2]->Download_url == url
        }),
{
    let begin = fetch_begin(platform, url, name, parent_dir);
    let probing = FetchingView::Probing {
        platform,
        url,
        name,
        parent_dir,
        target: joined(parent_dir, name),
    };
    let made = requests_made(fetch_steps(), begin, responses);
    let second = fetch_step(probing, responses[0]);
    let rest = responses.drop_first();
    let made_second = requests_made(fetch_steps(), second, rest);
    assert(fetch_steps()(probing, responses[0]) == second);
    assert(made == seq![RequestView::Probe { path: joined(parent_dir, name) }] + made_second);
    assert(result_after(fetch_steps(), begin, responses) == result_after(
        fetch_steps(),
        second,
        rest,
    ));
    match second {
        NextView::Finish(_) => {
            assert(made_second.len() == 0);
        },
        NextView::Continue(acquiring, asked) => {
            assert(!(asked is Download));
            assert(ends_with(fetch_steps(), second, rest));
            let third = fetch_step(acquiring, rest[0]);
            let tail = rest.drop_first();
            let made_third = requests_made(fetch_steps(), third, tail);
            assert(fetch_steps()(acquiring, rest[0]) == third);
            assert(made_second == seq![asked] + made_third);
            assert(result_after(fetch_steps(), second, rest) == result_after(
                fetch_steps(),
                third,
                tail,
            ));
            match third {
                NextView::Finish(_) => {
                    assert(made_third.len() == 0);
                    assert forall|k: int| 0 <= k < made.len() && #[trigger] made[k]
                        is Download implies k == 2 by {
                        if k == 1 {
                            assert(made[k] == made_second[0]);
                        }
                    }
                },
                NextView::Continue(downloading, download) => {
                    assert(acquiring is Acquiring);
                    lemma_no_second_download(downloading, download, tail);
                    assert forall|k: int| 0 <= k < made.len() && #[trigger] made[k]
                        is Download implies k == 2 by {
                        if k >= 2 {
                            assert(made[k] == made_third[k - 2]);
                        } else if k == 1 {
                            assert(made[k] == made_second[0]);
                        }
                    }
                    assert(made[2] == made_third[0]);
                },
            }
        },
    }
}

/// A fetch always removes its temporary directory before it ends. Of every fetch that
/// comes to an end after it was given a temporary directory, the last request, and no
/// other, removes that directory.
pub proof fn law_fetch_removes_workspace(
    platform: Platform,
    url: Seq<char>,
    name: Seq<char>,
    parent_dir: Seq<char>,
    responses: Seq<ResponseView>,
)
    requires
        ends_with(fetch_steps(), fetch_begin(platform, url, name, parent_dir), responses),
        !(responses[0] matches ResponseView::Probed { probe } && probe.exists),
        responses.len() >= 2,
        responses[1] is Workspace,
    ensures
        ({
            let made = requests_made(
                fetch_steps(),
                fetch_begin(platform, url, name, parent_dir),
                responses,
            );
            &&& made.len() >= 3
            &&& made[1] == acquire()
            &&& made.last() == (RequestView::ReleaseWorkspace { path: responses[1]->path })
            &&& forall|k: int| 0 <= k < made.len() - 1 ==> !(#[trigger] made[k] is ReleaseWorkspace)
        }),
{
    let begin = fetch_begin(platform, url, name, parent_dir);
    let probing = FetchingView::Probing {
        platform,
        url,
        name,
        parent_dir,
        target: joined(parent_dir, name),
    };
    let made = requests_made(fetch_steps(), begin, responses);
    let second = fetch_step(probing, responses[0]);
    let rest = responses.drop_first();
    let made_second = requests_made(fetch_steps(), second, rest);
    assert(fetch_steps()(probing, responses[0]) == second);
    assert(made == seq![RequestView::Probe { path: joined(parent_dir, name) }] + made_second);
    assert(ends_with(fetch_steps(), second, rest));
    match second {
        NextView::Finish(_) => {},
        NextView::Continue(acquiring, asked) => {
            let third = fetch_step(acquiring, rest[0]);
            let tail = rest.drop_first();
            let made_third = requests_made(fetch_steps(), third, tail);
            assert(fetch_steps()(acquiring, rest[0]) == third);
            assert(made_second == seq![asked] + made_third);
            assert(rest[0] == responses[1]);
            assert(made[1] == made_second[0]);
            match third {
                NextView::Finish(_) => {},
                NextView::Continue(downloading, download) => {
                    assert(ends_with(fetch_steps(), third, tail));
                    lemma_fetch_releases(downloading, download, responses[1]->path, tail);
                    assert(made.last() == made_third.last());
                    assert forall|k: int| 0 <= k < made.len() - 1 implies !(#[trigger] made[k]
                        is ReleaseWorkspace) by {
                        if k >= 2 {
                            assert(made[k] == made_third[k - 2]);
                        } else if k == 1 {
                            assert(made[k] == made_second[0]);
                        }
                    }
                },
            }
        },
    }
}

/// Two fetches under one name download once. If a first fetch finds the place free and
/// succeeds, and a second fetch of the same name into the same directory finds the
/// place taken, as it is after the first, then the first fetch has made exactly one
/// download, that of its address, and the second has made none: it has only looked at
/// the place and told the user, and succeeds.
pub proof fn law_fetch_twice(
    platform: Platform,
    url: Seq<char>,
    name: Seq<char>,
    parent_dir: Seq<char>,
    first: Seq<ResponseView>,
    second: Seq<ResponseView>,
)
    requires
        ends_with(fetch_steps(), fetch_begin(platform, url, name, parent_dir), first),
        first[0] matches ResponseView::Probed { probe } && !probe.exists,
        result_after(fetch_steps(), fetch_begin(platform, url, name, parent_dir), first) is Ok,
        ends_with(fetch_steps(), fetch_begin(platform, url, name, parent_dir), second),
        second[0] matches ResponseView::Probed { probe } && probe.exists,
    ensures
        ({
            let made = requests_made(
                fetch_steps(),
                fetch_begin(platform, url, name, parent_dir),
                first,
            );
            let again = requests_made(
                fetch_steps(),
                fetch_begin(platform, url, name, parent_dir),
                second,
            );
            &&& made.len() > 2
            &&& made[2] is Download
            &&& made[2]->Download_url == url
            &&& forall|k: int| 0 <= k < made.len() && k != 2 ==> !(#[trigger] made[k] is Download)
            &&& again == seq![
                RequestView::Probe { path: joined(parent_dir, name) },
                RequestView::Print { line: skip_message(joined(parent_dir, name)) },
            ]
            &&& result_after(fetch_steps(), fetch_begin(platform, url, name, parent_dir), second)
                == Ok::<(), FailureView>(())
        }),
{
    law_fetch_downloads_once(platform, url, name, parent_dir, first);
    law_fetch_cache_hit(platform, url, name, parent_dir, second);
}

} // verus!
