use vstd::prelude::*;
use crate::context::Context;
use crate::effect::{Next, NextView, Request, RequestView, Response, ResponseView, settle, settled};
use crate::failure::{Failure, FailureView};
use crate::paths::{join, joined, quoted, quoted_path};
use crate::recipe::{join2, joined2};

verus! {

/// The states of the operation [`create`].
#[derive(Debug, PartialEq, Eq)]
pub enum Manifesting {
    /// The manifest of the sources is being read.
    Reading { manifest: String, source_dir: String, working_dir: String, crate_type: String },
    /// The manifest is being changed.
    Patching { manifest: String, working_dir: String },
    /// The changed manifest is being written to `output`.
    Saving { output: String },
}

/// The mathematical value of a [`Manifesting`].
pub enum ManifestingView {
    Reading {
        manifest: Seq<char>,
        source_dir: Seq<char>,
        working_dir: Seq<char>,
        crate_type: Seq<char>,
    },
    Patching { manifest: Seq<char>, working_dir: Seq<char> },
    Saving { output: Seq<char> },
}

impl View for Manifesting {
    type V = ManifestingView;

    open spec fn view(&self) -> ManifestingView {
        match *self {
            Manifesting::Reading { manifest, source_dir, working_dir, crate_type } => ManifestingView::Reading {
                manifest: manifest@,
                source_dir: source_dir@,
                working_dir: working_dir@,
                crate_type: crate_type@,
            },
            Manifesting::Patching { manifest, working_dir } => ManifestingView::Patching {
                manifest: manifest@,
                working_dir: working_dir@,
            },
            Manifesting::Saving { output } => ManifestingView::Saving { output: output@ },
        }
    }
}

/// The name of a Cargo manifest.
pub open spec fn manifest_name() -> Seq<char> {
    "Cargo.toml"@
}

/// The source file `name` of the sources in `source_dir`, as it is written into a
/// manifest: between double quotes.
pub open spec fn source_file(source_dir: Seq<char>, name: Seq<char>) -> Seq<char> {
    quoted_path(joined2(source_dir, "src"@, name))
}

/// How the making of a manifest begins: by reading the manifest of the sources.
pub open spec fn create_begin(
    source_dir: Seq<char>,
    working_dir: Seq<char>,
    crate_type: Seq<char>,
) -> NextView<ManifestingView> {
    NextView::Continue(
        ManifestingView::Reading {
            manifest: joined(source_dir, manifest_name()),
            source_dir,
            working_dir,
            crate_type,
        },
        RequestView::ReadFile { path: joined(source_dir, manifest_name()) },
    )
}

/// How the making of a manifest goes on: the manifest that was read is changed to
/// build the library from `lib.rs` of the sources, as the one kind `crate_type`, and
/// the first program from `bin.rs`; what comes of it is written as the manifest of the
/// working directory.
pub open spec fn create_step(state: ManifestingView, response: ResponseView) -> NextView<
    ManifestingView,
> {
    match state {
        ManifestingView::Reading { manifest, source_dir, working_dir, crate_type } => match response {
            ResponseView::Content { bytes } => NextView::Continue(
                ManifestingView::Patching { manifest, working_dir },
                RequestView::PatchManifest {
                    manifest: bytes,
                    lib_path: source_file(source_dir, "lib.rs"@),
                    crate_type,
                    bin_path: source_file(source_dir, "bin.rs"@),
                },
            ),
            ResponseView::Failed { message } => NextView::Finish(
                Err(FailureView::Io { path: manifest, message }),
            ),
            _ => NextView::Finish(Err(FailureView::Unexpected)),
        },
        ManifestingView::Patching { manifest, working_dir } => match response {
            ResponseView::Content { bytes } => NextView::Continue(
                ManifestingView::Saving { output: joined(working_dir, manifest_name()) },
                RequestView::WriteBytes {
                    path: joined(working_dir, manifest_name()),
                    content: bytes,
                },
            ),
            ResponseView::Failed { message } => NextView::Finish(
                Err(FailureView::Io { path: manifest, message }),
            ),
            _ => NextView::Finish(Err(FailureView::Unexpected)),
        },
        ManifestingView::Saving { output } => NextView::Finish(settled(response, output)),
    }
}

/// Writes into `working_dir` the Cargo manifest of the sources in `source_dir`,
/// changed to build a library of the kind `crate_type` from the sources where they
/// are.
pub fn create_in(source_dir: &str, working_dir: &str, crate_type: &str) -> (next: Next<Manifesting>)
    ensures
        next@ == create_begin(source_dir@, working_dir@, crate_type@),
{
    let manifest = join(source_dir, "Cargo.toml");
    let request = Request::ReadFile { path: manifest.clone() };
    Next::Continue(
        Manifesting::Reading {
            manifest,
            source_dir: String::from_str(source_dir),
            working_dir: String::from_str(working_dir),
            crate_type: String::from_str(crate_type),
        },
        request,
    )
}

/// Writes into the working directory of the build the Cargo manifest of its sources,
/// changed to build a library of the kind `crate_type` from the sources where they
/// are.
pub fn create(context: &Context, crate_type: &str) -> (next: Next<Manifesting>)
    ensures
        next@ == create_begin(context@.source_dir, context@.working_dir, crate_type@),
{
    create_in(context.source_dir.as_str(), context.working_dir.as_str(), crate_type)
}

impl Manifesting {
    /// Takes the response to the request made last and says how the making of the
    /// manifest goes on.
    pub fn step(self, response: Response) -> (next: Next<Manifesting>)
        ensures
            next@ == create_step(self@, response@),
    {
        match self {
            Manifesting::Reading { manifest, source_dir, working_dir, crate_type } => match response {
                Response::Content { bytes } => {
                    let request = Request::PatchManifest {
                        manifest: bytes,
                        lib_path: quoted(join2(source_dir.as_str(), "src", "lib.rs").as_str()),
                        crate_type,
                        bin_path: quoted(join2(source_dir.as_str(), "src", "bin.rs").as_str()),
                    };
                    Next::Continue(Manifesting::Patching { manifest, working_dir }, request)
                },
                Response::Failed { message } => Next::Finish(
                    Err(Failure::Io { path: manifest, message }),
                ),
                _ => Next::Finish(Err(Failure::Unexpected)),
            },
            Manifesting::Patching { manifest, working_dir } => match response {
                Response::Content { bytes } => {
                    let output = join(working_dir.as_str(), "Cargo.toml");
                    let request = Request::WriteBytes { path: output.clone(), content: bytes };
                    Next::Continue(Manifesting::Saving { output }, request)
                },
                Response::Failed { message } => Next::Finish(
                    Err(Failure::Io { path: manifest, message }),
                ),
                _ => Next::Finish(Err(Failure::Unexpected)),
            },
            Manifesting::Saving { output } => Next::Finish(settle(response, output.as_str())),
        }
    }
}

} // verus!
