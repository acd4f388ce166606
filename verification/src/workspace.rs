use vstd::prelude::*;
use crate::effect::{Request, RequestView, Response, ResponseView, settle, settled};
use crate::failure::{Failure, FailureView, outcome_of};

verus! {

/// The beginning of the name of every temporary directory.
pub open spec fn workspace_prefix() -> Seq<char> {
    "crust"@
}

/// The request that creates a temporary directory.
pub open spec fn acquire() -> RequestView {
    RequestView::AcquireWorkspace { prefix: workspace_prefix() }
}

/// What a piece of work in a temporary directory comes to in the end: the result of
/// the work, but for work that succeeded the failure to remove the directory, if
/// there was one.
pub open spec fn scoped_result(
    work: Result<(), FailureView>,
    dir: Seq<char>,
    response: ResponseView,
) -> Result<(), FailureView> {
    match work {
        Err(failure) => Err(failure),
        Ok(_) => settled(response, dir),
    }
}

/// The beginning of the name of every temporary directory.
pub fn prefix() -> (r: &'static str)
    ensures
        r@ == workspace_prefix(),
{
    "crust"
}

/// The request that creates a temporary directory for a piece of work.
pub fn in_temp_dir() -> (r: Request)
    ensures
        r@ == acquire(),
{
    Request::AcquireWorkspace { prefix: String::from_str(prefix()) }
}

/// The request that removes the temporary directory `dir` once the work in it is
/// over, however it went.
pub fn leave_temp_dir(dir: &str) -> (r: Request)
    ensures
        r@ == (RequestView::ReleaseWorkspace { path: dir@ }),
{
    Request::ReleaseWorkspace { path: String::from_str(dir) }
}

/// The result of a piece of work in the temporary directory `dir`, given what the work
/// came to and the response to the removal of the directory: the result of the work,
/// but for work that succeeded the failure to remove the directory, if there was one.
pub fn scoped(work: Result<(), Failure>, dir: &str, response: Response) -> (r: Result<(), Failure>)
    ensures
        outcome_of(r) == scoped_result(outcome_of(work), dir@, response@),
{
    match work {
        Err(failure) => Err(failure),
        Ok(_) => settle(response, dir),
    }
}

} // verus!
