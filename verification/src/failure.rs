use vstd::prelude::*;

verus! {

/// Why an operation of this library failed.
#[derive(Debug, PartialEq, Eq)]
pub enum Failure {
    /// The system refused a file, directory, process or network request; `path` is
    /// what the request was about and `message` is what the system said.
    Io { path: String, message: String },
    /// A script ended without an exit code, for example because a signal killed it.
    NoExitCode,
    /// A script ended with an exit code other than zero.
    NonZeroExit { code: i32 },
    /// A download was answered with a status that is not a success.
    Http { status: u16 },
    /// A downloaded archive is not a zip archive that can be read.
    BadArchive,
    /// An unpacked archive holds nothing that could be given the logical name.
    EmptyArchive,
    /// A path that had to name a file has no final component.
    MissingFileName { path: String },
    /// A path that had to lie in a directory has no parent.
    MissingParent { path: String },
    /// A text that names no build target.
    UnknownTarget,
    /// A text that names no build variant.
    UnknownVariant,
    /// A response that does not answer the request that was made.
    Unexpected,
}

/// The mathematical value of a [`Failure`].
pub enum FailureView {
    Io { path: Seq<char>, message: Seq<char> },
    NoExitCode,
    NonZeroExit { code: i32 },
    Http { status: u16 },
    BadArchive,
    EmptyArchive,
    MissingFileName { path: Seq<char> },
    MissingParent { path: Seq<char> },
    UnknownTarget,
    UnknownVariant,
    Unexpected,
}

impl View for Failure {
    type V = FailureView;

    open spec fn view(&self) -> FailureView {
        match *self {
            Failure::Io { path, message } => FailureView::Io { path: path@, message: message@ },
            Failure::NoExitCode => FailureView::NoExitCode,
            Failure::NonZeroExit { code } => FailureView::NonZeroExit { code },
            Failure::Http { status } => FailureView::Http { status },
            Failure::BadArchive => FailureView::BadArchive,
            Failure::EmptyArchive => FailureView::EmptyArchive,
            Failure::MissingFileName { path } => FailureView::MissingFileName { path: path@ },
            Failure::MissingParent { path } => FailureView::MissingParent { path: path@ },
            Failure::UnknownTarget => FailureView::UnknownTarget,
            Failure::UnknownVariant => FailureView::UnknownVariant,
            Failure::Unexpected => FailureView::Unexpected,
        }
    }
}

/// The mathematical value of the result of an operation.
pub open spec fn outcome_of(result: Result<(), Failure>) -> Result<(), FailureView> {
    match result {
        Ok(_) => Ok(()),
        Err(failure) => Err(failure@),
    }
}

} // verus!
