use vstd::prelude::*;
use crate::failure::{Failure, FailureView};
use crate::platform::Platform;
use crate::text::{lowercase, lowercased, same_text};

verus! {

/// A platform for which the application can be built.
#[derive(Debug, Clone, Copy, PartialEq, Eq, Structural)]
pub enum Target {
    Android,
    Emscripten,
    Ios,
    MacOSConsole,
    MacOSDesktop,
    Windows,
}

impl Target {
    /// The name of the target: what it is called on the command line and the name of
    /// its directory.
    pub open spec fn id_text(self) -> Seq<char> {
        match self {
            Target::Android => "android"@,
            Target::Emscripten => "emscripten"@,
            Target::Ios => "ios"@,
            Target::MacOSConsole => "macos-console"@,
            Target::MacOSDesktop => "macos-desktop"@,
            Target::Windows => "windows"@,
        }
    }

    /// The target whose name is exactly `id`, if there is one.
    pub open spec fn named(id: Seq<char>) -> Option<Target> {
        if id == "android"@ {
            Some(Target::Android)
        } else if id == "emscripten"@ {
            Some(Target::Emscripten)
        } else if id == "ios"@ {
            Some(Target::Ios)
        } else if id == "macos-console"@ {
            Some(Target::MacOSConsole)
        } else if id == "macos-desktop"@ {
            Some(Target::MacOSDesktop)
        } else if id == "windows"@ {
            Some(Target::Windows)
        } else {
            None
        }
    }

    /// What resolving a text that names `found` comes to.
    pub open spec fn resolved(found: Option<Target>) -> Result<Target, FailureView> {
        match found {
            Some(target) => Ok(target),
            None => Err(FailureView::UnknownTarget),
        }
    }

    /// The target whose name is exactly `id`; fails with [`Failure::UnknownTarget`]
    /// if there is none.
    pub fn from_id(id: &str) -> (r: Result<Target, Failure>)
        ensures
            Target::resolved(Target::named(id@)) == match r {
                Ok(target) => Ok::<Target, FailureView>(target),
                Err(failure) => Err(failure@),
            },
    {
        if same_text(id, "android") {
            Ok(Target::Android)
        } else if same_text(id, "emscripten") {
            Ok(Target::Emscripten)
        } else if same_text(id, "ios") {
            Ok(Target::Ios)
        } else if same_text(id, "macos-console") {
            Ok(Target::MacOSConsole)
        } else if same_text(id, "macos-desktop") {
            Ok(Target::MacOSDesktop)
        } else if same_text(id, "windows") {
            Ok(Target::Windows)
        } else {
            Err(Failure::UnknownTarget)
        }
    }

    /// The target that `id` names when it is put in lower case; fails with
    /// [`Failure::UnknownTarget`] if there is none.
    pub fn resolve(id: &str) -> (r: Result<Target, Failure>)
        ensures
            Target::resolved(Target::named(lowercased(id@))) == match r {
                Ok(target) => Ok::<Target, FailureView>(target),
                Err(failure) => Err(failure@),
            },
    {
        let lower = lowercase(id);
        Target::from_id(lower.as_str())
    }

    /// The name of the target.
    pub fn id(&self) -> (r: &'static str)
        ensures
            r@ == self.id_text(),
    {
        match self {
            Target::Android => "android",
            Target::Emscripten => "emscripten",
            Target::Ios => "ios",
            Target::MacOSConsole => "macos-console",
            Target::MacOSDesktop => "macos-desktop",
            Target::Windows => "windows",
        }
    }
}

/// Every target is the one that its own name names: no two targets share a name.
pub proof fn law_target_names_itself(target: Target)
    ensures
        Target::named(target.id_text()) == Some(target),
{
    reveal_strlit("android");
    reveal_strlit("emscripten");
    reveal_strlit("ios");
    reveal_strlit("macos-console");
    reveal_strlit("macos-desktop");
    reveal_strlit("windows");
    match target {
        Target::Android => {},
        Target::Emscripten => {
            assert("emscripten"@[0] != "android"@[0]);
        },
        Target::Ios => {
            assert("ios"@[0] != "android"@[0]);
            assert("ios"@[0] != "emscripten"@[0]);
        },
        Target::MacOSConsole => {
            assert("macos-console"@[0] != "android"@[0]);
            assert("macos-console"@[0] != "emscripten"@[0]);
            assert("macos-console"@[0] != "ios"@[0]);
        },
        Target::MacOSDesktop => {
            assert("macos-desktop"@[0] != "android"@[0]);
            assert("macos-desktop"@[0] != "emscripten"@[0]);
            assert("macos-desktop"@[0] != "ios"@[0]);
            assert("macos-desktop"@[6] != "macos-console"@[6]);
        },
        Target::Windows => {
            assert("windows"@[0] != "android"@[0]);
            assert("windows"@[0] != "emscripten"@[0]);
            assert("windows"@[0] != "ios"@[0]);
            assert("windows"@[0] != "macos-console"@[0]);
            assert("windows"@[0] != "macos-desktop"@[0]);
        },
    }
}

/// The targets that can be built on a host of the family `platform`: a Windows-like
/// host builds for Android, for the web and for Windows; any other host builds for
/// Android, for the web and for the platforms of Apple.
pub open spec fn supported_targets(platform: Platform) -> Seq<Target> {
    match platform {
        Platform::Windows => seq![Target::Android, Target::Emscripten, Target::Windows],
        Platform::Posix => seq![
            Target::Android,
            Target::Emscripten,
            Target::Ios,
            Target::MacOSConsole,
            Target::MacOSDesktop,
        ],
    }
}

/// The names of the targets that can be built on a host of the family `platform`.
pub fn get_supported_platform_ids(platform: Platform) -> (r: Vec<&'static str>)
    ensures
        r@.map_values(|id: &'static str| id@) == supported_targets(platform).map_values(
            |target: Target| target.id_text(),
        ),
{
    let mut ids: Vec<&'static str> = Vec::new();
    ids.push(Target::Android.id());
    ids.push(Target::Emscripten.id());
    match platform {
        Platform::Windows => {
            ids.push(Target::Windows.id());
        },
        Platform::Posix => {
            ids.push(Target::Ios.id());
            ids.push(Target::MacOSConsole.id());
            ids.push(Target::MacOSDesktop.id());
        },
    }
    assert(ids@.map_values(|id: &'static str| id@) =~= supported_targets(platform).map_values(
        |target: Target| target.id_text(),
    ));
    ids
}

} // verus!
