use vstd::prelude::*;
use crate::effect::{Next, NextView, Request, RequestView, Response, ResponseView, settle, settled};
use crate::failure::{Failure, FailureView};

verus! {

/// Whether an HTTP status says that the request succeeded: the statuses 200 to 299.
pub open spec fn is_success(status: u16) -> bool {
    200 <= status < 300
}

/// Whether an HTTP status says that the request succeeded.
pub fn success(status: u16) -> (r: bool)
    ensures
        r == is_success(status),
{
    200 <= status && status < 300
}

/// The states of the operation [`download`].
#[derive(Debug, PartialEq, Eq)]
pub enum Downloading {
    /// The address is being fetched.
    Requesting { url: String, destination: String },
    /// What was fetched is being written to the destination.
    Saving { destination: String },
}

/// The mathematical value of a [`Downloading`].
pub enum DownloadingView {
    Requesting { url: Seq<char>, destination: Seq<char> },
    Saving { destination: Seq<char> },
}

impl View for Downloading {
    type V = DownloadingView;

    open spec fn view(&self) -> DownloadingView {
        match *self {
            Downloading::Requesting { url, destination } => DownloadingView::Requesting {
                url: url@,
                destination: destination@,
            },
            Downloading::Saving { destination } => DownloadingView::Saving {
                destination: destination@,
            },
        }
    }
}

/// How a download begins: by fetching the address.
pub open spec fn download_begin(url: Seq<char>, destination: Seq<char>) -> NextView<
    DownloadingView,
> {
    NextView::Continue(
        DownloadingView::Requesting { url, destination },
        RequestView::HttpGet { url },
    )
}

/// How a download goes on: an answer with a status of success has its body written to
/// the destination; an answer with any other status is a failure that carries the
/// status.
pub open spec fn download_step(state: DownloadingView, response: ResponseView) -> NextView<
    DownloadingView,
> {
    match state {
        DownloadingView::Requesting { url, destination } => match response {
            ResponseView::Fetched { status, body } => if is_success(status) {
                NextView::Continue(
                    DownloadingView::Saving { destination },
                    RequestView::WriteBytes { path: destination, content: body },
                )
            } else {
                NextView::Finish(Err(FailureView::Http { status }))
            },
            ResponseView::Failed { message } => NextView::Finish(
                Err(FailureView::Io { path: url, message }),
            ),
            _ => NextView::Finish(Err(FailureView::Unexpected)),
        },
        DownloadingView::Saving { destination } => NextView::Finish(
            settled(response, destination),
        ),
    }
}

/// Downloads what is at `url` into the file `destination`.
pub fn download(url: &str, destination: &str) -> (next: Next<Downloading>)
    ensures
        next@ == download_begin(url@, destination@),
{
    Next::Continue(
        Downloading::Requesting {
            url: String::from_str(url),
            destination: String::from_str(destination),
        },
        Request::HttpGet { url: String::from_str(url) },
    )
}

impl Downloading {
    /// Takes the response to the request made last and says how the download goes on.
    pub fn step(self, response: Response) -> (next: Next<Downloading>)
        ensures
            next@ == download_step(self@, response@),
    {
        match self {
            Downloading::Requesting { url, destination } => match response {
                Response::Fetched { status, body } => {
                    if success(status) {
                        let request = Request::WriteBytes {
                            path: destination.clone(),
                            content: body,
                        };
                        Next::Continue(Downloading::Saving { destination }, request)
                    } else {
                        Next::Finish(Err(Failure::Http { status }))
                    }
                },
                Response::Failed { message } => Next::Finish(
                    Err(Failure::Io { path: url, message }),
                ),
                _ => Next::Finish(Err(Failure::Unexpected)),
            },
            Downloading::Saving { destination } => Next::Finish(
                settle(response, destination.as_str()),
            ),
        }
    }
}

} // verus!
