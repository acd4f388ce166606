use vstd::prelude::*;

verus! {

/// The family of the host on which scripts are run and paths are used.
///
/// The two families differ in how a script file is written, how a directory is
/// copied or linked, and whether files carry permission bits.
#[derive(Clone, Copy, Debug, PartialEq, Eq, Structural)]
pub enum Platform {
    /// A POSIX-like host: scripts are run by bash, files have Unix mode bits.
    Posix,
    /// A Windows-like host: scripts are batch files, files have no mode bits.
    Windows,
}

impl Platform {
    /// Whether files on this platform carry Unix permission bits.
    pub open spec fn has_permissions(self) -> bool {
        self == Platform::Posix
    }

    /// Whether files on this platform carry Unix permission bits.
    pub fn supports_permissions(self) -> (r: bool)
        ensures
            r == self.has_permissions(),
    {
        match self {
            Platform::Posix => true,
            Platform::Windows => false,
        }
    }
}

} // verus!
