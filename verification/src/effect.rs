use vstd::prelude::*;
use crate::failure::{Failure, FailureView, outcome_of};
use crate::platform::Platform;
use crate::script::{Environment, Script, ScriptView};

verus! {

/// What a look at a path found.
#[derive(Clone, Copy, Debug, PartialEq, Eq, Structural)]
pub struct PathProbe {
    /// Whether the path, followed through symbolic links, leads to something.
    pub exists: bool,
    /// Whether the path, followed through symbolic links, leads to a directory.
    pub is_dir: bool,
    /// Whether the path itself is a symbolic link, broken or not.
    pub is_symlink: bool,
}

/// Something an operation asks its caller to do. The caller does it and hands back a
/// [`Response`]: [`Response::Done`] or [`Response::Failed`] where nothing else is said,
/// and [`Response::Finished`] for a request that stands for a whole operation of this
/// library.
#[derive(Debug, PartialEq, Eq)]
pub enum Request {
    /// Look at `path`; answered with [`Response::Probed`].
    Probe { path: String },
    /// List the entries of the directory `path`; answered with [`Response::Listing`].
    ListDir { path: String },
    /// Read the file `path`; answered with [`Response::Content`].
    ReadFile { path: String },
    /// Create the directory `path` and every missing directory above it.
    CreateDirAll { path: String },
    /// Remove the directory `path` with all it holds, or the symbolic link `path`.
    RemoveTree { path: String },
    /// Remove the file `path`.
    RemoveFile { path: String },
    /// Copy the file `source` to the file `destination`.
    CopyFile { source: String, destination: String },
    /// Move `source` to `destination`.
    Rename { source: String, destination: String },
    /// Create or overwrite the file `path` with `content`.
    WriteFile { path: String, content: Vec<u8> },
    /// Set the Unix permission bits of `path` to `mode`.
    SetPermissions { path: String, mode: u32 },
    /// Create a fresh, empty directory under the system's temporary directory, with a
    /// name that begins with `prefix`; answered with [`Response::Workspace`].
    AcquireWorkspace { prefix: String },
    /// Remove the temporary directory `path` with all it holds.
    ReleaseWorkspace { path: String },
    /// Fetch `url` with an HTTP GET; answered with [`Response::Fetched`].
    HttpGet { url: String },
    /// Show `line` to the user.
    Print { line: String },
    /// Change the Cargo manifest `manifest`: let its library be built from `lib_path`
    /// and as the one kind `crate_type`, and its first program from `bin_path`; answered
    /// with the changed manifest as [`Response::Content`].
    PatchManifest { manifest: Vec<u8>, lib_path: String, crate_type: String, bin_path: String },
    /// Run `program` in `working_dir` with `environment` over the caller's environment
    /// and with the caller's standard output and error; answered with
    /// [`Response::Exited`].
    Spawn { program: String, working_dir: String, environment: Environment },
    /// Carry out the operation `delete` on `path`.
    Delete { path: String },
    /// Carry out the operation `write_bytes` with `content` on `path`.
    WriteBytes { path: String, content: Vec<u8> },
    /// Carry out the operation `copy` from `source` to `destination`.
    Copy { platform: Platform, source: String, destination: String },
    /// Carry out the operation `run` on `script`.
    Run { platform: Platform, script: Script },
    /// Carry out the operation `unzip` of the file `archive` into `destination`.
    Unzip { platform: Platform, archive: String, destination: String },
    /// Carry out the operation `download` of `url` into the file `destination`.
    Download { url: String, destination: String },
    /// Carry out the operation `fetch` of the archive at `url` under `name` in
    /// `parent_dir`.
    Fetch { platform: Platform, url: String, name: String, parent_dir: String },
    /// Carry out the operation `create_symlink` that makes `target`, seen from
    /// `working_dir`, lead to `source`.
    CreateSymlink { platform: Platform, source: String, target: String, working_dir: String },
    /// Carry out the operation `collect` of `sources` into the directory `output`.
    Collect { platform: Platform, output: String, sources: Vec<String> },
    /// Write into `working_dir` the Cargo manifest of the sources in `source_dir`,
    /// changed to build a library of the kind `crate_type`.
    CreateManifest { source_dir: String, working_dir: String, crate_type: String },
}

/// The mathematical value of a [`Request`].
pub enum RequestView {
    Probe { path: Seq<char> },
    ListDir { path: Seq<char> },
    ReadFile { path: Seq<char> },
    CreateDirAll { path: Seq<char> },
    RemoveTree { path: Seq<char> },
    RemoveFile { path: Seq<char> },
    CopyFile { source: Seq<char>, destination: Seq<char> },
    Rename { source: Seq<char>, destination: Seq<char> },
    WriteFile { path: Seq<char>, content: Seq<u8> },
    SetPermissions { path: Seq<char>, mode: u32 },
    AcquireWorkspace { prefix: Seq<char> },
    ReleaseWorkspace { path: Seq<char> },
    HttpGet { url: Seq<char> },
    Print { line: Seq<char> },
    PatchManifest {
        manifest: Seq<u8>,
        lib_path: Seq<char>,
        crate_type: Seq<char>,
        bin_path: Seq<char>,
    },
    Spawn { program: Seq<char>, working_dir: Seq<char>, environment: Map<Seq<char>, Seq<char>> },
    Delete { path: Seq<char> },
    WriteBytes { path: Seq<char>, content: Seq<u8> },
    Copy { platform: Platform, source: Seq<char>, destination: Seq<char> },
    Run { platform: Platform, script: ScriptView },
    Unzip { platform: Platform, archive: Seq<char>, destination: Seq<char> },
    Download { url: Seq<char>, destination: Seq<char> },
    Fetch { platform: Platform, url: Seq<char>, name: Seq<char>, parent_dir: Seq<char> },
    CreateSymlink {
        platform: Platform,
        source: Seq<char>,
        target: Seq<char>,
        working_dir: Seq<char>,
    },
    Collect { platform: Platform, output: Seq<char>, sources: Seq<Seq<char>> },
    CreateManifest { source_dir: Seq<char>, working_dir: Seq<char>, crate_type: Seq<char> },
}

impl View for Request {
    type V = RequestView;

    open spec fn view(&self) -> RequestView {
        match *self {
            Request::Probe { path } => RequestView::Probe { path: path@ },
            Request::ListDir { path } => RequestView::ListDir { path: path@ },
            Request::ReadFile { path } => RequestView::ReadFile { path: path@ },
            Request::CreateDirAll { path } => RequestView::CreateDirAll { path: path@ },
            Request::RemoveTree { path } => RequestView::RemoveTree { path: path@ },
            Request::RemoveFile { path } => RequestView::RemoveFile { path: path@ },
            Request::CopyFile { source, destination } => RequestView::CopyFile {
                source: source@,
                destination: destination@,
            },
            Request::Rename { source, destination } => RequestView::Rename {
                source: source@,
                destination: destination@,
            },
            Request::WriteFile { path, content } => RequestView::WriteFile {
                path: path@,
                content: content@,
            },
            Request::SetPermissions { path, mode } => RequestView::SetPermissions {
                path: path@,
                mode,
            },
            Request::AcquireWorkspace { prefix } => RequestView::AcquireWorkspace {
                prefix: prefix@,
            },
            Request::ReleaseWorkspace { path } => RequestView::ReleaseWorkspace { path: path@ },
            Request::HttpGet { url } => RequestView::HttpGet { url: url@ },
            Request::Print { line } => RequestView::Print { line: line@ },
            Request::PatchManifest { manifest, lib_path, crate_type, bin_path } => RequestView::PatchManifest {
                manifest: manifest@,
                lib_path: lib_path@,
                crate_type: crate_type@,
                bin_path: bin_path@,
            },
            Request::Spawn { program, working_dir, environment } => RequestView::Spawn {
                program: program@,
                working_dir: working_dir@,
                environment: environment@,
            },
            Request::Delete { path } => RequestView::Delete { path: path@ },
            Request::WriteBytes { path, content } => RequestView::WriteBytes {
                path: path@,
                content: content@,
            },
            Request::Copy { platform, source, destination } => RequestView::Copy {
                platform,
                source: source@,
                destination: destination@,
            },
            Request::Run { platform, script } => RequestView::Run { platform, script: script@ },
            Request::Unzip { platform, archive, destination } => RequestView::Unzip {
                platform,
                archive: archive@,
                destination: destination@,
            },
            Request::Download { url, destination } => RequestView::Download {
                url: url@,
                destination: destination@,
            },
            Request::Fetch { platform, url, name, parent_dir } => RequestView::Fetch {
                platform,
                url: url@,
                name: name@,
                parent_dir: parent_dir@,
            },
            Request::CreateSymlink { platform, source, target, working_dir } => RequestView::CreateSymlink {
                platform,
                source: source@,
                target: target@,
                working_dir: working_dir@,
            },
            Request::Collect { platform, output, sources } => RequestView::Collect {
                platform,
                output: output@,
                sources: texts_of(sources@),
            },
            Request::CreateManifest { source_dir, working_dir, crate_type } => RequestView::CreateManifest {
                source_dir: source_dir@,
                working_dir: working_dir@,
                crate_type: crate_type@,
            },
        }
    }
}

/// What came of a [`Request`].
#[derive(Debug, PartialEq, Eq)]
pub enum Response {
    /// The request was carried out and there is nothing to report.
    Done,
    /// The system refused the request, with this message.
    Failed { message: String },
    /// The operation that the request stands for ended with this result.
    Finished { result: Result<(), Failure> },
    /// What a [`Request::Probe`] found.
    Probed { probe: PathProbe },
    /// The paths of the entries that a [`Request::ListDir`] found, in the order in
    /// which the system listed them.
    Listing { entries: Vec<String> },
    /// The bytes that a [`Request::ReadFile`] read or that a
    /// [`Request::PatchManifest`] made.
    Content { bytes: Vec<u8> },
    /// The path of the directory that a [`Request::AcquireWorkspace`] created.
    Workspace { path: String },
    /// The status and the body of the answer to a [`Request::HttpGet`].
    Fetched { status: u16, body: Vec<u8> },
    /// The exit code of the program that a [`Request::Spawn`] ran, if it ended with one.
    Exited { code: Option<i32> },
}

/// The mathematical value of a [`Response`].
pub enum ResponseView {
    Done,
    Failed { message: Seq<char> },
    Finished { result: Result<(), FailureView> },
    Probed { probe: PathProbe },
    Listing { entries: Seq<Seq<char>> },
    Content { bytes: Seq<u8> },
    Workspace { path: Seq<char> },
    Fetched { status: u16, body: Seq<u8> },
    Exited { code: Option<i32> },
}

/// The texts of a sequence of strings.
pub open spec fn texts_of(strings: Seq<String>) -> Seq<Seq<char>> {
    strings.map_values(|s: String| s@)
}

impl View for Response {
    type V = ResponseView;

    open spec fn view(&self) -> ResponseView {
        match *self {
            Response::Done => ResponseView::Done,
            Response::Failed { message } => ResponseView::Failed { message: message@ },
            Response::Finished { result } => ResponseView::Finished { result: outcome_of(result) },
            Response::Probed { probe } => ResponseView::Probed { probe },
            Response::Listing { entries } => ResponseView::Listing { entries: texts_of(entries@) },
            Response::Content { bytes } => ResponseView::Content { bytes: bytes@ },
            Response::Workspace { path } => ResponseView::Workspace { path: path@ },
            Response::Fetched { status, body } => ResponseView::Fetched { status, body: body@ },
            Response::Exited { code } => ResponseView::Exited { code },
        }
    }
}

/// How an operation goes on after a response: with a new state and the next request,
/// or not at all.
#[derive(Debug, PartialEq, Eq)]
pub enum Next<S> {
    /// The operation is now in this state and asks for this request.
    Continue(S, Request),
    /// The operation has ended with this result.
    Finish(Result<(), Failure>),
}

/// The mathematical value of a [`Next`].
pub enum NextView<V> {
    Continue(V, RequestView),
    Finish(Result<(), FailureView>),
}

impl<S: View> View for Next<S> {
    type V = NextView<S::V>;

    open spec fn view(&self) -> NextView<S::V> {
        match *self {
            Next::Continue(state, request) => NextView::Continue(state@, request@),
            Next::Finish(result) => NextView::Finish(outcome_of(result)),
        }
    }
}

/// What a response that should only say "done" amounts to, for a request about `path`.
pub open spec fn settled(response: ResponseView, path: Seq<char>) -> Result<(), FailureView> {
    match response {
        ResponseView::Done => Ok(()),
        ResponseView::Failed { message } => Err(FailureView::Io { path, message }),
        ResponseView::Finished { result } => result,
        _ => Err(FailureView::Unexpected),
    }
}

/// Reads a response to a request about `path` that has nothing to report but its
/// success: done, refused by the system (an I/O failure about `path`), or the result of
/// the operation it stood for. Any other response does not answer the request.
pub fn settle(response: Response, path: &str) -> (r: Result<(), Failure>)
    ensures
        outcome_of(r) == settled(response@, path@),
{
    match response {
        Response::Done => Ok(()),
        Response::Failed { message } => Err(Failure::Io { path: String::from_str(path), message }),
        Response::Finished { result } => result,
        _ => Err(Failure::Unexpected),
    }
}

/// What a request is about: the path, address or program that names it in a failure.
pub open spec fn subject_of(request: RequestView) -> Seq<char> {
    match request {
        RequestView::Probe { path } => path,
        RequestView::ListDir { path } => path,
        RequestView::ReadFile { path } => path,
        RequestView::CreateDirAll { path } => path,
        RequestView::RemoveTree { path } => path,
        RequestView::RemoveFile { path } => path,
        RequestView::CopyFile { source, .. } => source,
        RequestView::Rename { source, .. } => source,
        RequestView::WriteFile { path, .. } => path,
        RequestView::SetPermissions { path, .. } => path,
        RequestView::AcquireWorkspace { prefix } => prefix,
        RequestView::ReleaseWorkspace { path } => path,
        RequestView::HttpGet { url } => url,
        RequestView::Print { line } => line,
        RequestView::PatchManifest { lib_path, .. } => lib_path,
        RequestView::Spawn { program, .. } => program,
        RequestView::Delete { path } => path,
        RequestView::WriteBytes { path, .. } => path,
        RequestView::Copy { source, .. } => source,
        RequestView::Run { script, .. } => script.content,
        RequestView::Unzip { archive, .. } => archive,
        RequestView::Download { url, .. } => url,
        RequestView::Fetch { url, .. } => url,
        RequestView::CreateSymlink { target, .. } => target,
        RequestView::Collect { output, .. } => output,
        RequestView::CreateManifest { source_dir, .. } => source_dir,
    }
}

impl Request {
    /// What this request is about.
    pub fn subject(&self) -> (r: String)
        ensures
            r@ == subject_of(self@),
    {
        match self {
            Request::Probe { path } => path.clone(),
            Request::ListDir { path } => path.clone(),
            Request::ReadFile { path } => path.clone(),
            Request::CreateDirAll { path } => path.clone(),
            Request::RemoveTree { path } => path.clone(),
            Request::RemoveFile { path } => path.clone(),
            Request::CopyFile { source, .. } => source.clone(),
            Request::Rename { source, .. } => source.clone(),
            Request::WriteFile { path, .. } => path.clone(),
            Request::SetPermissions { path, .. } => path.clone(),
            Request::AcquireWorkspace { prefix } => prefix.clone(),
            Request::ReleaseWorkspace { path } => path.clone(),
            Request::HttpGet { url } => url.clone(),
            Request::Print { line } => line.clone(),
            Request::PatchManifest { lib_path, .. } => lib_path.clone(),
            Request::Spawn { program, .. } => program.clone(),
            Request::Delete { path } => path.clone(),
            Request::WriteBytes { path, .. } => path.clone(),
            Request::Copy { source, .. } => source.clone(),
            Request::Run { script, .. } => script.content.clone(),
            Request::Unzip { archive, .. } => archive.clone(),
            Request::Download { url, .. } => url.clone(),
            Request::Fetch { url, .. } => url.clone(),
            Request::CreateSymlink { target, .. } => target.clone(),
            Request::Collect { output, .. } => output.clone(),
            Request::CreateManifest { source_dir, .. } => source_dir.clone(),
        }
    }
}

/// Whether an operation that stands at `next`, and goes on by `step`, comes to its end
/// when it is handed exactly `responses`, one for each request it makes.
pub open spec fn ends_with<S>(
    step: spec_fn(S, ResponseView) -> NextView<S>,
    next: NextView<S>,
    responses: Seq<ResponseView>,
) -> bool
    decreases responses.len(),
{
    match next {
        NextView::Finish(_) => responses.len() == 0,
        NextView::Continue(state, _) => responses.len() > 0 && ends_with(
            step,
            step(state, responses[0]),
            responses.drop_first(),
        ),
    }
}

/// The requests that an operation makes, in order, while it is handed `responses`.
pub open spec fn requests_made<S>(
    step: spec_fn(S, ResponseView) -> NextView<S>,
    next: NextView<S>,
    responses: Seq<ResponseView>,
) -> Seq<RequestView>
    decreases responses.len(),
{
    match next {
        NextView::Finish(_) => Seq::empty(),
        NextView::Continue(state, request) => if responses.len() == 0 {
            seq![request]
        } else {
            seq![request] + requests_made(step, step(state, responses[0]), responses.drop_first())
        },
    }
}

/// The result with which an operation ends when it is handed `responses`, where it
/// ends with them.
pub open spec fn result_after<S>(
    step: spec_fn(S, ResponseView) -> NextView<S>,
    next: NextView<S>,
    responses: Seq<ResponseView>,
) -> Result<(), FailureView>
    decreases responses.len(),
{
    match next {
        NextView::Finish(result) => result,
        NextView::Continue(state, _) => if responses.len() == 0 {
            Err(FailureView::Unexpected)
        } else {
            result_after(step, step(state, responses[0]), responses.drop_first())
        },
    }
}

} // verus!
