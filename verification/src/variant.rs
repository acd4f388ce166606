use vstd::prelude::*;
use crate::failure::{Failure, FailureView};
use crate::text::{lowercase, lowercased, same_text};

verus! {

/// A way of building the application: for development or for release.
#[derive(Debug, Clone, Copy, PartialEq, Eq, Structural)]
pub enum Variant {
    Debug,
    Release,
}

impl Variant {
    /// The name of the variant: what it is called on the command line and the name of
    /// its directory.
    pub open spec fn id_text(self) -> Seq<char> {
        match self {
            Variant::Debug => "debug"@,
            Variant::Release => "release"@,
        }
    }

    /// The flag that makes the Rust compiler build the variant.
    pub open spec fn flag_text(self) -> Seq<char> {
        match self {
            Variant::Debug => ""@,
            Variant::Release => "--release"@,
        }
    }

    /// The variant whose name is exactly `id`, if there is one.
    pub open spec fn named(id: Seq<char>) -> Option<Variant> {
        if id == "debug"@ {
            Some(Variant::Debug)
        } else if id == "release"@ {
            Some(Variant::Release)
        } else {
            None
        }
    }

    /// What resolving a text that names `found` comes to.
    pub open spec fn resolved(found: Option<Variant>) -> Result<Variant, FailureView> {
        match found {
            Some(variant) => Ok(variant),
            None => Err(FailureView::UnknownVariant),
        }
    }

    /// The variant whose name is exactly `id`; fails with
    /// [`Failure::UnknownVariant`] if there is none.
    pub fn from_id(id: &str) -> (r: Result<Variant, Failure>)
        ensures
            Variant::resolved(Variant::named(id@)) == match r {
                Ok(variant) => Ok::<Variant, FailureView>(variant),
                Err(failure) => Err(failure@),
            },
    {
        if same_text(id, "debug") {
            Ok(Variant::Debug)
        } else if same_text(id, "release") {
            Ok(Variant::Release)
        } else {
            Err(Failure::UnknownVariant)
        }
    }

    /// The variant that `arg` names when it is put in lower case; fails with
    /// [`Failure::UnknownVariant`] if there is none.
    pub fn resolve(arg: &str) -> (r: Result<Variant, Failure>)
        ensures
            Variant::resolved(Variant::named(lowercased(arg@))) == match r {
                Ok(variant) => Ok::<Variant, FailureView>(variant),
                Err(failure) => Err(failure@),
            },
    {
        let lower = lowercase(arg);
        Variant::from_id(lower.as_str())
    }

    /// The name of the variant.
    pub fn id(&self) -> (r: &'static str)
        ensures
            r@ == self.id_text(),
    {
        match self {
            Variant::Debug => "debug",
            Variant::Release => "release",
        }
    }

    /// The flag that makes the Rust compiler build the variant.
    pub fn rust_compiler_flag(&self) -> (r: &'static str)
        ensures
            r@ == self.flag_text(),
    {
        match self {
            Variant::Debug => "",
            Variant::Release => "--release",
        }
    }
}

/// Every variant is the one that its own name names.
pub proof fn law_variant_names_itself(variant: Variant)
    ensures
        Variant::named(variant.id_text()) == Some(variant),
{
    reveal_strlit("debug");
    reveal_strlit("release");
    assert("release"@[0] != "debug"@[0]);
}

} // verus!
