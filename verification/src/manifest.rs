//! The manifest: the immutable, validated view of a project's devcontainer
//! configuration, and the pure accessors derived from it.

use vstd::prelude::*;

use crate::errors::Error;
use crate::text::env_views;
use crate::text::ident_char;
use crate::text::ident_char_exec;
use crate::text::is_space_exec;
use crate::text::lemma_trim_seq_window;
use crate::text::trim_seq;

verus! {

/// Whether `run` stops the backend once the interactive session ends.
#[derive(Clone, Copy, Debug, PartialEq, Eq, Structural)]
pub enum ShutdownAction {
    /// Leave the container or stack running.
    LeaveRunning,
    /// Stop the single container.
    StopContainer,
    /// Stop the compose stack.
    StopCompose,
}

impl Default for ShutdownAction {
    /// The default is to stop the container when the session ends.
    fn default() -> (r: Self)
        ensures
            r == ShutdownAction::StopContainer,
    {
        ShutdownAction::StopContainer
    }
}

/// The build source of a single-container manifest: a Dockerfile and its
/// build arguments.
pub struct Build {
    /// The Dockerfile path, relative to the manifest's directory.
    pub dockerfile: Option<String>,
    /// `--build-arg` key/value pairs, in manifest order, keys unique.
    pub args: Vec<(String, String)>,
}

/// The parsed project descriptor. Exactly one of the Dockerfile and the
/// compose file is configured in a well-formed manifest.
pub struct Config {
    /// The human-readable label; never used directly as an identifier.
    pub name: String,
    /// The Dockerfile build source, when the project builds one container.
    pub build: Option<Build>,
    /// Ports forwarded host:container, in manifest order.
    pub forward_ports: Vec<u16>,
    /// Shell command run once inside the target after first creation.
    pub on_create_command: Option<String>,
    /// Shell command run after `on_create_command`.
    pub update_content_command: Option<String>,
    /// Shell command run after `update_content_command`.
    pub post_create_command: Option<String>,
    /// The user lifecycle commands and the interactive session run as.
    pub remote_user: String,
    /// Extra creation flags supplied by the user, appended last so they can
    /// override earlier flags.
    pub run_args: Vec<String>,
    /// Environment entries injected into the target; keys are unique and
    /// their manifest order is kept.
    pub remote_env: Vec<(String, String)>,
    /// The compose file path, when the project is a compose stack.
    pub docker_compose_file: Option<String>,
    /// The compose service that lifecycle commands address.
    pub service: Option<String>,
    /// The working directory inside the target.
    pub workspace_folder: String,
    /// Whether `run` stops the backend once the session ends.
    pub shutdown_action: ShutdownAction,
}

/// The identifier derived from a human-readable name: the name is trimmed,
/// spaces become hyphens, ASCII letters are lowercased, and the fixed
/// prefix is put in front.
pub open spec fn safe_name_seq(name: Seq<char>) -> Seq<char> {
    "devcon-"@ + trim_seq(name).map_values(|c: char| ident_char(c))
}

/// Whether the keys of an environment listing are pairwise distinct.
pub open spec fn env_keys_unique(es: Seq<(String, String)>) -> bool {
    forall|i: int, j: int| 0 <= i < j < es.len() ==> es[i].0@ != es[j].0@
}

impl Config {
    /// The human-readable name, as a character sequence.
    pub open spec fn name_seq(&self) -> Seq<char> {
        self.name@
    }

    /// The configured shutdown action.
    pub open spec fn shutdown_spec(&self) -> ShutdownAction {
        self.shutdown_action
    }

    /// The configured Dockerfile path, when the build source names one.
    pub open spec fn dockerfile_spec(&self) -> Option<Seq<char>> {
        match self.build {
            Some(ref b) => match b.dockerfile {
                Some(ref f) => Some(f@),
                None => None,
            },
            None => None,
        }
    }

    /// Whether the manifest names a Dockerfile.
    pub open spec fn has_dockerfile(&self) -> bool {
        self.dockerfile_spec() is Some
    }

    /// Whether the manifest names a compose file.
    pub open spec fn is_compose_spec(&self) -> bool {
        self.docker_compose_file is Some
    }

    /// A well-formed manifest names exactly one build source, names the
    /// compose service whenever it names a compose file, and lists each
    /// environment key once.
    pub open spec fn wf(&self) -> bool {
        &&& self.has_dockerfile() != self.is_compose_spec()
        &&& self.is_compose_spec() ==> self.service is Some
        &&& env_keys_unique(self.remote_env@)
    }

    /// Validates and assembles a manifest from its parsed fields.
    ///
    /// Fails with `AmbiguousOrMissingBuildTarget` when both or neither of
    /// the Dockerfile and the compose file are configured, and with
    /// `ManifestParseError` when a compose manifest names no service or an
    /// environment key repeats.
    #[allow(clippy::too_many_arguments)]
    pub fn new(
        name: String,
        build: Option<Build>,
        forward_ports: Vec<u16>,
        on_create_command: Option<String>,
        update_content_command: Option<String>,
        post_create_command: Option<String>,
        remote_user: String,
        run_args: Vec<String>,
        remote_env: Vec<(String, String)>,
        docker_compose_file: Option<String>,
        service: Option<String>,
        workspace_folder: String,
        shutdown_action: ShutdownAction,
    ) -> (r: Result<Config, Error>)
        ensures
            match r {
                Ok(c) => {
                    &&& c.wf()
                    &&& c.name_seq() == name@
                    &&& c.build == build
                    &&& c.forward_ports == forward_ports
                    &&& c.on_create_command == on_create_command
                    &&& c.update_content_command == update_content_command
                    &&& c.post_create_command == post_create_command
                    &&& c.remote_user == remote_user
                    &&& c.run_args == run_args
                    &&& c.remote_env == remote_env
                    &&& c.docker_compose_file == docker_compose_file
                    &&& c.service == service
                    &&& c.workspace_folder == workspace_folder
                    &&& c.shutdown_spec() == shutdown_action
                },
                Err(e) => {
                    let c = Config {
                        name,
                        build,
                        forward_ports,
                        on_create_command,
                        update_content_command,
                        post_create_command,
                        remote_user,
                        run_args,
                        remote_env,
                        docker_compose_file,
                        service,
                        workspace_folder,
                        shutdown_action,
                    };
                    &&& !c.wf()
                    &&& (e == Error::AmbiguousOrMissingBuildTarget <==> c.has_dockerfile()
                        == c.is_compose_spec())
                    &&& (c.has_dockerfile() != c.is_compose_spec() ==> e
                        == Error::ManifestParseError)
                },
            },
    {
        let c = Config {
            name,
            build,
            forward_ports,
            on_create_command,
            update_content_command,
            post_create_command,
            remote_user,
            run_args,
            remote_env,
            docker_compose_file,
            service,
            workspace_folder,
            shutdown_action,
        };
        let has_df = match c.build {
            Some(ref b) => b.dockerfile.is_some(),
            None => false,
        };
        if has_df == c.docker_compose_file.is_some() {
            return Err(Error::AmbiguousOrMissingBuildTarget);
        }
        if c.docker_compose_file.is_some() && c.service.is_none() {
            return Err(Error::ManifestParseError);
        }
        if !env_keys_unique_exec(&c.remote_env) {
            return Err(Error::ManifestParseError);
        }
        Ok(c)
    }

    /// The configured Dockerfile path, if any.
    pub fn dockerfile(&self) -> (r: Option<String>)
        ensures
            match r {
                Some(f) => self.dockerfile_spec() == Some(f@),
                None => self.dockerfile_spec() is None,
            },
    {
        match &self.build {
            Some(b) => match &b.dockerfile {
                Some(f) => Some(f.clone()),
                None => None,
            },
            None => None,
        }
    }

    /// The configured build arguments, or none when no build source is
    /// configured.
    pub fn build_args(&self) -> (r: Vec<(String, String)>)
        ensures
            match self.build {
                Some(ref b) => env_views(r@) == env_views(b.args@),
                None => r@.len() == 0,
            },
    {
        match &self.build {
            Some(b) => clone_pairs(&b.args),
            None => Vec::new(),
        }
    }

    /// The identifier used for every backend operation, derived from the
    /// manifest's name alone.
    pub fn safe_name(&self) -> (r: String)
        ensures
            r@ == safe_name_seq(self.name_seq()),
    {
        let t = self.name.as_str();
        let n = t.unicode_len();
        let mut i: usize = 0;
        while i < n && is_space_exec(t.get_char(i))
            invariant
                0 <= i <= n,
                n == t@.len(),
                t@ == self.name_seq(),
                forall|k: int| 0 <= k < i ==> crate::text::is_space_char(t@[k]),
            decreases n - i,
        {
            i = i + 1;
        }
        let mut j: usize = n;
        while j > i && is_space_exec(t.get_char(j - 1))
            invariant
                i <= j <= n,
                n == t@.len(),
                t@ == self.name_seq(),
                forall|k: int| j <= k < n ==> crate::text::is_space_char(t@[k]),
            decreases j,
        {
            j = j - 1;
        }
        proof {
            lemma_trim_seq_window(t@, i as int, j as int);
        }
        let mut out = String::from_str("devcon-");
        let mut k: usize = i;
        while k < j
            invariant
                i <= k <= j <= n,
                n == t@.len(),
                t@ == self.name_seq(),
                trim_seq(t@) == t@.subrange(i as int, j as int),
                out@ == "devcon-"@ + t@.subrange(i as int, k as int).map_values(
                    |c: char| ident_char(c),
                ),
            decreases j - k,
        {
            let c = ident_char_exec(t.get_char(k));
            crate::text::push_char(&mut out, c);
            proof {
                assert(t@.subrange(i as int, k + 1int).map_values(|c: char| ident_char(c))
                    =~= t@.subrange(i as int, k as int).map_values(|c: char| ident_char(c)).push(
                    ident_char(t@[k as int]),
                ));
                assert(out@ =~= "devcon-"@ + t@.subrange(i as int, k + 1int).map_values(
                    |c: char| ident_char(c),
                ));
            }
            k = k + 1;
        }
        out
    }

    /// Whether `run` should stop the backend when the session ends.
    pub fn should_shutdown(&self) -> (r: bool)
        ensures
            r == (self.shutdown_spec() != ShutdownAction::LeaveRunning),
    {
        !matches!(self.shutdown_action, ShutdownAction::LeaveRunning)
    }

    /// Whether the manifest describes a compose stack.
    pub fn is_compose(&self) -> (r: bool)
        ensures
            r == self.is_compose_spec(),
    {
        self.docker_compose_file.is_some()
    }
}

/// Clones a listing of string pairs.
pub fn clone_pairs(es: &Vec<(String, String)>) -> (r: Vec<(String, String)>)
    ensures
        env_views(r@) == env_views(es@),
{
    let mut out: Vec<(String, String)> = Vec::new();
    let mut i: usize = 0;
    while i < es.len()
        invariant
            0 <= i <= es@.len(),
            env_views(out@) == env_views(es@.take(i as int)),
        decreases es@.len() - i,
    {
        let k = es[i].0.clone();
        let v = es[i].1.clone();
        let ghost prev = out@;
        out.push((k, v));
        proof {
            assert((k, v) == es@[i as int]);
            crate::text::lemma_env_views_push(prev, es@[i as int]);
            assert(es@.take(i + 1int) == es@.take(i as int).push(es@[i as int]));
            crate::text::lemma_env_views_push(es@.take(i as int), es@[i as int]);
            assert(env_views(out@) =~= env_views(es@.take(i + 1int)));
        }
        i = i + 1;
    }
    proof {
        assert(es@.take(es@.len() as int) == es@);
    }
    out
}

/// Decides whether the keys of an environment listing are pairwise
/// distinct.
pub fn env_keys_unique_exec(es: &Vec<(String, String)>) -> (r: bool)
    ensures
        r == env_keys_unique(es@),
{
    let n = es.len();
    let mut i: usize = 0;
    while i < n
        invariant
            0 <= i <= n,
            n == es@.len(),
            forall|a: int, b: int| 0 <= a < b < es@.len() && a < i ==> es@[a].0@ != es@[b].0@,
        decreases n - i,
    {
        let mut j: usize = i + 1;
        while j < n
            invariant
                i < j <= n,
                i < n,
                n == es@.len(),
                forall|b: int| i < b < j ==> es@[i as int].0@ != es@[b].0@,
            decreases n - j,
        {
            if es[i].0.eq(&es[j].0) {
                return false;
            }
            j = j + 1;
        }
        i = i + 1;
    }
    true
}

} // verus!
