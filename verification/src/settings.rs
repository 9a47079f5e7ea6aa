//! Process-wide settings: which backend family to use and which dotfiles
//! to inject into freshly created targets.

use vstd::prelude::*;

verus! {

/// The backend family that drives containers.
#[derive(Clone, Copy, Debug, PartialEq, Eq, Structural)]
pub enum Provider {
    /// The docker family: `docker` and `docker compose`.
    Docker,
    /// The podman family: `podman` and `podman-compose`.
    Podman,
}

impl Default for Provider {
    /// Docker is the default backend family.
    fn default() -> (r: Self)
        ensures
            r == Provider::Docker,
    {
        Provider::Docker
    }
}

/// Settings loaded once at process start and read-only thereafter.
pub struct Settings {
    /// Paths relative to the invoking user's home directory, copied into
    /// the target's home directory after creation.
    pub dotfiles: Vec<String>,
    /// The backend family.
    pub provider: Provider,
}

impl Default for Settings {
    /// With no settings file, no dotfiles are injected and docker drives
    /// the containers.
    fn default() -> (r: Self)
        ensures
            r.dotfiles@.len() == 0,
            r.provider == Provider::Docker,
    {
        Settings { dotfiles: Vec::new(), provider: Provider::Docker }
    }
}

} // verus!
