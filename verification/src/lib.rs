//! Manages the lifecycle of a development container described by a
//! declarative manifest, across four interchangeable backends: single
//! containers driven by docker or podman, and compose stacks driven by
//! docker compose or podman-compose.
//!
//! The heart of the library is the provider abstraction and the
//! orchestration sequence around it: a [`manifest::Config`] and the
//! process-wide [`settings::Settings`] select a [`provider::Backend`],
//! which translates a fixed set of lifecycle operations into the backing
//! tool's command grammar — purely, without running anything. The
//! [`devcontainer::Devcontainer`] drives those operations through a
//! [`command::Executor`], the one capability that touches the outside
//! world, and every entry point's contract pins the exact sequence of
//! commands it hands that executor. The properties that matter — repeated
//! runs against a live target provision nothing, a rebuild tears down
//! before it runs, compose manifests route exclusively through the
//! compose grammar, a missing host file is skipped without backend work —
//! are proved in [`laws`] over those same contracts.

use vstd::prelude::*;

pub mod command;
pub mod compose_override;
pub mod devcontainer;
pub mod errors;
pub mod laws;
pub mod manifest;
pub mod provider;
pub mod settings;
pub mod text;

pub use text::default_remote_user;
pub use text::default_workspace_folder;

verus! {

} // verus!
