use vstd::prelude::*;
use vstd::utf8::encode_utf8;
use crate::effect::{
    Next, NextView, Request, RequestView, Response, ResponseView, ends_with, requests_made,
    result_after, settle, settled,
};
use crate::failure::{Failure, FailureView, outcome_of};
use crate::paths::{join, joined};
use crate::platform::Platform;
use crate::script::{Environment, Script, ScriptView};
use crate::workspace::{
    acquire, in_temp_dir, leave_temp_dir, prefix, scoped, scoped_result, workspace_prefix,
};

verus! {

/// The permission bits of a script file: read, write and execute for the owner, read
/// and execute for everybody else.
pub const SCRIPT_MODE: u32 = 0o755;

/// The name of the script file written on `platform`.
pub open spec fn script_file_name(platform: Platform) -> Seq<char> {
    match platform {
        Platform::Posix => "script.sh"@,
        Platform::Windows => "script.bat"@,
    }
}

/// The text of the script file that runs the commands `block` on `platform`. On a
/// POSIX-like platform the commands are run by bash and follow three settings: stop
/// at the first command that fails, let a pipeline fail if any of its stages fails,
/// and treat the use of a variable that is not set as a failure. A batch file has no
/// such settings, and holds the commands as they are.
pub open spec fn script_text(platform: Platform, block: Seq<char>) -> Seq<char> {
    match platform {
        Platform::Posix => "#!/usr/bin/env bash\n\n"@ + "set -o errexit\n"@ + "set -o pipefail\n"@
            + "set -o nounset\n\n"@ + block,
        Platform::Windows => block,
    }
}

/// The permission bits to set on the script file, on a platform that has them.
pub open spec fn script_mode(platform: Platform) -> Option<u32> {
    if platform.has_permissions() {
        Some(SCRIPT_MODE)
    } else {
        None
    }
}

/// A script file to write before the script can be run.
#[derive(Debug, PartialEq, Eq)]
pub struct ScriptFile {
    /// Where to write the file.
    pub path: String,
    /// The text of the file.
    pub content: String,
    /// The permission bits to give the file, if the platform has them.
    pub mode: Option<u32>,
}

/// The mathematical value of a [`ScriptFile`].
pub struct ScriptFileView {
    pub path: Seq<char>,
    pub content: Seq<char>,
    pub mode: Option<u32>,
}

impl View for ScriptFile {
    type V = ScriptFileView;

    open spec fn view(&self) -> ScriptFileView {
        ScriptFileView { path: self.path@, content: self.content@, mode: self.mode }
    }
}

/// The text of the script file that runs the commands `script_block` on `platform`.
pub fn script_content(platform: Platform, script_block: &str) -> (r: String)
    ensures
        r@ == script_text(platform, script_block@),
{
    match platform {
        Platform::Posix => {
            let mut content = String::from_str("#!/usr/bin/env bash\n\n");
            content.append("set -o errexit\n");
            content.append("set -o pipefail\n");
            content.append("set -o nounset\n\n");
            content.append(script_block);
            content
        },
        Platform::Windows => String::from_str(script_block),
    }
}

/// The name of the script file written on `platform`.
pub fn script_name(platform: Platform) -> (r: &'static str)
    ensures
        r@ == script_file_name(platform),
{
    match platform {
        Platform::Posix => "script.sh",
        Platform::Windows => "script.bat",
    }
}

/// The script file in `script_dir` that runs the commands `script_block` on
/// `platform`, marked executable where the platform has permission bits.
pub fn create_command(platform: Platform, script_dir: &str, script_block: &str) -> (r: ScriptFile)
    ensures
        r@ == (ScriptFileView {
            path: joined(script_dir@, script_file_name(platform)),
            content: script_text(platform, script_block@),
            mode: script_mode(platform),
        }),
{
    ScriptFile {
        path: join(script_dir, script_name(platform)),
        content: script_content(platform, script_block),
        mode: if platform.supports_permissions() {
            Some(SCRIPT_MODE)
        } else {
            None
        },
    }
}

/// What the end of a script amounts to: success for the exit code zero, a failure that
/// carries the code for any other, and a failure of its own for no code at all.
pub open spec fn exit_outcome(code: Option<i32>) -> Result<(), FailureView> {
    match code {
        None => Err(FailureView::NoExitCode),
        Some(code) => if code == 0 {
            Ok(())
        } else {
            Err(FailureView::NonZeroExit { code })
        },
    }
}

/// Reads the exit code of a script that has ended.
pub fn exit_result(code: Option<i32>) -> (r: Result<(), Failure>)
    ensures
        outcome_of(r) == exit_outcome(code),
{
    match code {
        None => Err(Failure::NoExitCode),
        Some(code) => if code == 0 {
            Ok(())
        } else {
            Err(Failure::NonZeroExit { code })
        },
    }
}

/// The states of the operation [`run`].
#[derive(Debug, PartialEq, Eq)]
pub enum Running {
    /// The temporary directory is being created.
    Acquiring { platform: Platform, script: Script },
    /// The script file is being written into the temporary directory `dir`.
    Writing { dir: String, script_file: ScriptFile, working_dir: String, environment: Environment },
    /// The script file is being marked executable.
    Marking { dir: String, file: String, working_dir: String, environment: Environment },
    /// The script file is being run.
    Executing { dir: String, file: String },
    /// The temporary directory is being removed; `result` is what the run came to.
    Releasing { dir: String, result: Result<(), Failure> },
}

/// The mathematical value of a [`Running`].
pub enum RunningView {
    Acquiring { platform: Platform, script: ScriptView },
    Writing {
        dir: Seq<char>,
        script_file: ScriptFileView,
        working_dir: Seq<char>,
        environment: Map<Seq<char>, Seq<char>>,
    },
    Marking {
        dir: Seq<char>,
        file: Seq<char>,
        working_dir: Seq<char>,
        environment: Map<Seq<char>, Seq<char>>,
    },
    Executing { dir: Seq<char>, file: Seq<char> },
    Releasing { dir: Seq<char>, result: Result<(), FailureView> },
}

impl View for Running {
    type V = RunningView;

    open spec fn view(&self) -> RunningView {
        match *self {
            Running::Acquiring { platform, script } => RunningView::Acquiring {
                platform,
                script: script@,
            },
            Running::Writing { dir, script_file, working_dir, environment } => RunningView::Writing {
                dir: dir@,
                script_file: script_file@,
                working_dir: working_dir@,
                environment: environment@,
            },
            Running::Marking { dir, file, working_dir, environment } => RunningView::Marking {
                dir: dir@,
                file: file@,
                working_dir: working_dir@,
                environment: environment@,
            },
            Running::Executing { dir, file } => RunningView::Executing { dir: dir@, file: file@ },
            Running::Releasing { dir, result } => RunningView::Releasing {
                dir: dir@,
                result: outcome_of(result),
            },
        }
    }
}

/// The step that gives up the temporary directory `dir` after the work in it has come
/// to `result`.
pub open spec fn release(dir: Seq<char>, result: Result<(), FailureView>) -> NextView<RunningView> {
    NextView::Continue(
        RunningView::Releasing { dir, result },
        RequestView::ReleaseWorkspace { path: dir },
    )
}

/// The step that runs the script file.
pub open spec fn execute(
    dir: Seq<char>,
    file: Seq<char>,
    working_dir: Seq<char>,
    environment: Map<Seq<char>, Seq<char>>,
) -> NextView<RunningView> {
    NextView::Continue(
        RunningView::Executing { dir, file },
        RequestView::Spawn { program: file, working_dir, environment },
    )
}

/// How a run begins: by asking for a temporary directory.
pub open spec fn run_begin(platform: Platform, script: ScriptView) -> NextView<RunningView> {
    NextView::Continue(RunningView::Acquiring { platform, script }, acquire())
}

/// How a run goes on. The script file is written into the temporary directory and
/// marked executable where the platform has permission bits; it is run in the script's
/// working directory, or in the temporary directory if it has none, with the script's
/// environment; its exit code decides the result. From the moment the temporary
/// directory is there, whatever happens leads to its removal before the run ends.
pub open spec fn run_step(state: RunningView, response: ResponseView) -> NextView<RunningView> {
    match state {
        RunningView::Acquiring { platform, script } => match response {
            ResponseView::Workspace { path } => NextView::Continue(
                RunningView::Writing {
                    dir: path,
                    script_file: ScriptFileView {
                        path: joined(path, script_file_name(platform)),
                        content: script_text(platform, script.content),
                        mode: script_mode(platform),
                    },
                    working_dir: match script.working_dir {
                        Some(dir) => dir,
                        None => path,
                    },
                    environment: script.environment,
                },
                RequestView::WriteBytes {
                    path: joined(path, script_file_name(platform)),
                    content: encode_utf8(script_text(platform, script.content)),
                },
            ),
            ResponseView::Failed { message } => NextView::Finish(
                Err(FailureView::Io { path: workspace_prefix(), message }),
            ),
            _ => NextView::Finish(Err(FailureView::Unexpected)),
        },
        RunningView::Writing { dir, script_file, working_dir, environment } => match settled(
            response,
            script_file.path,
        ) {
            Ok(_) => match script_file.mode {
                Some(mode) => NextView::Continue(
                    RunningView::Marking { dir, file: script_file.path, working_dir, environment },
                    RequestView::SetPermissions { path: script_file.path, mode },
                ),
                None => execute(dir, script_file.path, working_dir, environment),
            },
            Err(failure) => release(dir, Err(failure)),
        },
        RunningView::Marking { dir, file, working_dir, environment } => match settled(
            response,
            file,
        ) {
            Ok(_) => execute(dir, file, working_dir, environment),
            Err(failure) => release(dir, Err(failure)),
        },
        RunningView::Executing { dir, file } => match response {
            ResponseView::Exited { code } => release(dir, exit_outcome(code)),
            ResponseView::Failed { message } => release(
                dir,
                Err(FailureView::Io { path: file, message }),
            ),
            _ => release(dir, Err(FailureView::Unexpected)),
        },
        RunningView::Releasing { dir, result } => NextView::Finish(
            scoped_result(result, dir, response),
        ),
    }
}

/// Runs `script` on `platform`: writes it as a script file into a temporary directory
/// of its own, runs that file, waits for its end and removes the temporary directory.
/// The script succeeds if it ends with the exit code zero.
pub fn run(platform: Platform, script: Script) -> (next: Next<Running>)
    ensures
        next@ == run_begin(platform, script@),
{
    Next::Continue(Running::Acquiring { platform, script }, in_temp_dir())
}

fn release_next(dir: String, result: Result<(), Failure>) -> (next: Next<Running>)
    ensures
        next@ == release(dir@, outcome_of(result)),
{
    let request = leave_temp_dir(dir.as_str());
    Next::Continue(Running::Releasing { dir, result }, request)
}

fn execute_next(dir: String, file: String, working_dir: String, environment: Environment) -> (next:
    Next<Running>)
    ensures
        next@ == execute(dir@, file@, working_dir@, environment@),
{
    let request = Request::Spawn { program: file.clone(), working_dir, environment };
    Next::Continue(Running::Executing { dir, file }, request)
}

impl Running {
    /// Takes the response to the request made last and says how the run goes on.
    pub fn step(self, response: Response) -> (next: Next<Running>)
        ensures
            next@ == run_step(self@, response@),
    {
        match self {
            Running::Acquiring { platform, script } => match response {
                Response::Workspace { path } => {
                    let script_file = create_command(
                        platform,
                        path.as_str(),
                        script.content.as_str(),
                    );
                    let working_dir = match script.working_dir {
                        Some(dir) => dir,
                        None => path.clone(),
                    };
                    let request = Request::WriteBytes {
                        path: script_file.path.clone(),
                        content: script_file.content.as_str().as_bytes_vec(),
                    };
                    Next::Continue(
                        Running::Writing {
                            dir: path,
                            script_file,
                            working_dir,
                            environment: script.environment,
                        },
                        request,
                    )
                },
                Response::Failed { message } => Next::Finish(
                    Err(Failure::Io { path: String::from_str(prefix()), message }),
                ),
                _ => Next::Finish(Err(Failure::Unexpected)),
            },
            Running::Writing { dir, script_file, working_dir, environment } => {
                match settle(response, script_file.path.as_str()) {
                    Ok(_) => match script_file.mode {
                        Some(mode) => {
                            let request = Request::SetPermissions {
                                path: script_file.path.clone(),
                                mode,
                            };
                            Next::Continue(
                                Running::Marking {
                                    dir,
                                    file: script_file.path,
                                    working_dir,
                                    environment,
                                },
                                request,
                            )
                        },
                        None => execute_next(dir, script_file.path, working_dir, environment),
                    },
                    Err(failure) => release_next(dir, Err(failure)),
                }
            },
            Running::Marking { dir, file, working_dir, environment } => {
                match settle(response, file.as_str()) {
                    Ok(_) => execute_next(dir, file, working_dir, environment),
                    Err(failure) => release_next(dir, Err(failure)),
                }
            },
            Running::Executing { dir, file } => match response {
                Response::Exited { code } => release_next(dir, exit_result(code)),
                Response::Failed { message } => release_next(
                    dir,
                    Err(Failure::Io { path: file, message }),
                ),
                _ => release_next(dir, Err(Failure::Unexpected)),
            },
            Running::Releasing { dir, result } => Next::Finish(
                scoped(result, dir.as_str(), response),
            ),
        }
    }
}

/// The way a run goes on, as a function.
pub open spec fn run_steps() -> spec_fn(RunningView, ResponseView) -> NextView<RunningView> {
    |state: RunningView, response: ResponseView| run_step(state, response)
}

/// Whether a run in `state` works in the temporary directory `dir`.
pub open spec fn works_in(state: RunningView, dir: Seq<char>) -> bool {
    match state {
        RunningView::Writing { dir: held, .. } => held == dir,
        RunningView::Marking { dir: held, .. } => held == dir,
        RunningView::Executing { dir: held, .. } => held == dir,
        _ => false,
    }
}

/// Whether a run in `state` has just asked for the removal of `dir`.
pub open spec fn gives_up(state: RunningView, request: RequestView, dir: Seq<char>) -> bool {
    state matches RunningView::Releasing { dir: held, .. } && held == dir && request
        == (RequestView::ReleaseWorkspace { path: dir })
}

proof fn lemma_run_releases(
    state: RunningView,
    request: RequestView,
    dir: Seq<char>,
    responses: Seq<ResponseView>,
)
    requires
        ends_with(run_steps(), NextView::Continue(state, request), responses),
        (works_in(state, dir) && !(request is ReleaseWorkspace)) || gives_up(state, request, dir),
    ensures
        ({
            let made = requests_made(run_steps(), NextView::Continue(state, request), responses);
            &&& made.len() >= 1
            &&& made.last() == (RequestView::ReleaseWorkspace { path: dir })
            &&& forall|k: int| 0 <= k < made.len() - 1 ==> !(#[trigger] made[k] is ReleaseWorkspace)
        }),
    decreases responses.len(),
{
    let next = run_step(state, responses[0]);
    let rest = responses.drop_first();
    let made = requests_made(run_steps(), NextView::Continue(state, request), responses);
    let later = requests_made(run_steps(), next, rest);
    assert(run_steps()(state, responses[0]) == next);
    assert(made == seq![request] + later);
    match next {
        NextView::Finish(_) => {
            assert(later.len() == 0);
        },
        NextView::Continue(after, asked) => {
            lemma_run_releases(after, asked, dir, rest);
            assert(made.last() == later.last());
            assert forall|k: int| 0 <= k < made.len() - 1 implies !(#[trigger] made[k]
                is ReleaseWorkspace) by {
                if k > 0 {
                    assert(made[k] == later[k - 1]);
                }
            }
        },
    }
}

/// A run always removes its temporary directory before it ends, whether the script
/// succeeds or fails and whatever else goes wrong on the way. Of every run that comes
/// to an end: if it was given a temporary directory, the last request it makes, and
/// no other, removes that directory; and if it was given none, it has asked for
/// nothing else and ends with a failure.
pub proof fn law_run_removes_workspace(
    platform: Platform,
    script: ScriptView,
    responses: Seq<ResponseView>,
)
    requires
        ends_with(run_steps(), run_begin(platform, script), responses),
    ensures
        ({
            let made = requests_made(run_steps(), run_begin(platform, script), responses);
            let result = result_after(run_steps(), run_begin(platform, script), responses);
            &&& responses.len() >= 1
            &&& made[0] == acquire()
            &&& responses[0] matches ResponseView::Workspace { path } ==> {
                &&& made.len() >= 2
                &&& made.last() == (RequestView::ReleaseWorkspace { path })
                &&& forall|k: int|
                    0 <= k < made.len() - 1 ==> !(#[trigger] made[k] is ReleaseWorkspace)
            }
            &&& !(responses[0] is Workspace) ==> made == seq![acquire()] && result is Err
        }),
{
    let begin = run_begin(platform, script);
    let state = RunningView::Acquiring { platform, script };
    let next = run_step(state, responses[0]);
    let rest = responses.drop_first();
    let made = requests_made(run_steps(), begin, responses);
    let later = requests_made(run_steps(), next, rest);
    assert(run_steps()(state, responses[0]) == next);
    assert(made == seq![acquire()] + later);
    match responses[0] {
        ResponseView::Workspace { path } => {
            match next {
                NextView::Continue(after, asked) => {
                    lemma_run_releases(after, asked, path, rest);
                    assert(made.last() == later.last());
                    assert forall|k: int| 0 <= k < made.len() - 1 implies !(#[trigger] made[k]
                        is ReleaseWorkspace) by {
                        if k > 0 {
                            assert(made[k] == later[k - 1]);
                        }
                    }
                },
                NextView::Finish(_) => {},
            }
        },
        _ => {
            assert(later.len() == 0);
            assert(made =~= seq![acquire()]);
            assert(result_after(run_steps(), begin, responses) == result_after(
                run_steps(),
                next,
                rest,
            ));
        },
    }
}

/// A script that ends with a code other than zero makes the run fail with that code:
/// with a temporary directory at hand, a script file written and marked and a temporary
/// directory that could be removed, the result is the failure that carries the code.
pub proof fn law_run_reports_exit_code(dir: Seq<char>, file: Seq<char>, code: i32)
    requires
        code != 0,
    ensures
        run_step(
            RunningView::Executing { dir, file },
            ResponseView::Exited { code: Some(code) },
        ) == release(dir, Err(FailureView::NonZeroExit { code })),
        run_step(
            RunningView::Releasing { dir, result: Err(FailureView::NonZeroExit { code }) },
            ResponseView::Done,
        ) == NextView::<RunningView>::Finish(Err(FailureView::NonZeroExit { code })),
{
}

} // verus!
