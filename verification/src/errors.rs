//! The error taxonomy of the library.

use vstd::prelude::*;

verus! {

/// Everything that can go wrong while loading a manifest or driving the
/// backend through the container lifecycle.
#[derive(Clone, Copy, Debug, PartialEq, Eq, Structural)]
pub enum Error {
    /// No manifest file was found for the project directory.
    ManifestNotFound,
    /// The manifest text was malformed or a required field combination was
    /// violated (duplicate environment keys, a compose file without a
    /// service name).
    ManifestParseError,
    /// A collaborator step could not be carried out: an external command
    /// could not be spawned, a mandatory lifecycle command reported
    /// failure, or the ephemeral override document could not be staged.
    ProviderCommandFailed,
    /// The generic copy entry point was handed a host path that is absent.
    SourceFileMissingForCopy,
    /// The manifest configured both a Dockerfile and a compose file, or
    /// neither.
    AmbiguousOrMissingBuildTarget,
}

impl Error {
    /// A short human-readable description of the error.
    pub fn message(&self) -> (r: &'static str)
        ensures
            self is ManifestNotFound ==> r@ == "could not find the devcontainer manifest"@,
            self is ManifestParseError ==> r@ == "the devcontainer manifest is malformed"@,
            self is ProviderCommandFailed ==> r@ == "a backend command failed"@,
            self is SourceFileMissingForCopy ==> r@ == "the file to copy does not exist"@,
            self is AmbiguousOrMissingBuildTarget ==> r@
                == "exactly one of a Dockerfile and a compose file must be configured"@,
    {
        match self {
            Error::ManifestNotFound => "could not find the devcontainer manifest",
            Error::ManifestParseError => "the devcontainer manifest is malformed",
            Error::ProviderCommandFailed => "a backend command failed",
            Error::SourceFileMissingForCopy => "the file to copy does not exist",
            Error::AmbiguousOrMissingBuildTarget => "exactly one of a Dockerfile and a compose file must be configured",
        }
    }
}

} // verus!
