//! The orchestrator: a manifest bound to a provider, driven through the
//! build / create / start / initialize / attach / stop lifecycle. Every
//! backend effect goes through an [`Executor`], and every public entry
//! point pins the exact event sequence it leaves in the executor's log.

use vstd::prelude::*;

use crate::command::opt_view;
use crate::command::EventV;
use crate::command::Executor;
use crate::command::PathKind;
use crate::command::Reply;
use crate::command::ReplyV;
use crate::compose_override::render_override;
use crate::errors::Error;
use crate::manifest::safe_name_seq;
use crate::manifest::Config;
use crate::manifest::ShutdownAction;
use crate::provider::docker::Docker;
use crate::provider::docker_compose::DockerCompose;
use crate::provider::podman::Podman;
use crate::provider::podman_compose::PodmanCompose;
use crate::provider::op_is_query;
use crate::provider::op_must_succeed;
use crate::provider::Backend;
use crate::provider::Op;
use crate::provider::OpX;
use crate::settings::Provider;
use crate::settings::Settings;
use crate::provider::kv_seq;
use crate::provider::kv_string;
use crate::text::arg_views;
use crate::text::clone_strings;
use crate::text::env_views;
use crate::text::has_slash;
use crate::text::is_blank;
use crate::text::is_blank_seq;
use crate::text::parent_dir;
use crate::text::parent_seq;
use crate::text::port_pair;
use crate::text::port_pair_string;
use crate::text::push_char;

verus! {

/// The `-p host:host` token pairs for the forwarded ports, in manifest
/// order.
pub open spec fn port_tokens(ports: Seq<u16>) -> Seq<Seq<char>>
    decreases ports.len(),
{
    if ports.len() == 0 {
        Seq::<Seq<char>>::empty()
    } else {
        port_tokens(ports.drop_last()) + seq!["-p"@, port_pair(ports.last())]
    }
}

/// The `-e KEY=VALUE` token pairs for the environment entries, in
/// manifest order.
pub open spec fn env_tokens(es: Seq<(Seq<char>, Seq<char>)>) -> Seq<Seq<char>>
    decreases es.len(),
{
    if es.len() == 0 {
        Seq::<Seq<char>>::empty()
    } else {
        env_tokens(es.drop_last()) + seq!["-e"@, kv_seq(es.last().0, es.last().1)]
    }
}

/// The backend-agnostic creation flags derived from a manifest: port
/// mappings, environment entries, the workspace working directory, then
/// the user-supplied flags last so they can override everything prior.
pub open spec fn create_args_spec(c: Config) -> Seq<Seq<char>> {
    port_tokens(c.forward_ports@) + env_tokens(env_views(c.remote_env@)) + seq![
        "-w"@,
        c.workspace_folder@,
    ] + arg_views(c.run_args@)
}

/// The build arguments a manifest carries, or none without a build source.
pub open spec fn build_args_views(c: Config) -> Seq<(Seq<char>, Seq<char>)> {
    match c.build {
        Some(b) => env_views(b.args@),
        None => Seq::<(Seq<char>, Seq<char>)>::empty(),
    }
}

/// A path under the project's manifest directory.
pub open spec fn config_file_path(dir: Seq<char>, file: Seq<char>) -> Seq<char> {
    dir + "/.devcontainer/"@ + file
}

/// Whether `expanded` is what tilde expansion may turn `input` into: the
/// input unchanged, or — when it starts with a tilde — some home
/// directory followed by the remainder.
pub open spec fn tilde_expansion_of(expanded: Seq<char>, input: Seq<char>) -> bool {
    expanded == input || (input.len() >= 1 && input[0] == '~' && exists|h: Seq<char>|
        expanded == h + input.skip(1))
}

/// Expands a leading tilde to the invoking user's home directory.
///
/// Relies on `shellexpand::tilde`: an input that starts with `~` alone or
/// `~/` is rewritten to the home directory followed by the remainder
/// after the tilde; any other input — including one naming another user
/// or one whose home directory cannot be determined — comes back
/// unchanged.
#[verifier::external_body]
fn expand_tilde(s: &str) -> (r: String)
    ensures
        tilde_expansion_of(r@, s@),
{
    shellexpand::tilde(s).to_string()
}

/// Joins the manifest directory, the manifest subdirectory and a file
/// name into one path.
fn config_file_string(dir: &String, file: &String) -> (r: String)
    ensures
        r@ == config_file_path(dir@, file@),
{
    let mut r = dir.clone();
    r.append("/.devcontainer/");
    r.append(file.as_str());
    r
}

/// A manifest bound to its provider and settings, with the host-side
/// source paths of the files to inject resolved once at load time.
pub struct Devcontainer {
    /// The validated manifest.
    pub config: Config,
    /// The provider selected for it.
    pub provider: Backend,
    /// The process-wide settings.
    pub settings: Settings,
    /// The resolved host path of the user's git configuration.
    pub gitconfig_source: String,
    /// The resolved host path of each configured dotfile, aligned with
    /// `settings.dotfiles`.
    pub dotfile_sources: Vec<String>,
}

impl Devcontainer {
    /// A well-formed orchestrator: a well-formed manifest, and one
    /// resolved source per configured dotfile.
    pub open spec fn wf(&self) -> bool {
        &&& self.config.wf()
        &&& self.dotfile_sources@.len() == self.settings.dotfiles@.len()
    }

    /// The backend-agnostic creation flags: `-p host:host` per forwarded
    /// port in manifest order, `-e KEY=VALUE` per environment entry in
    /// manifest order, the workspace working directory, then the
    /// user-supplied flags.
    pub fn create_args(&self) -> (r: Vec<String>)
        ensures
            arg_views(r@) == create_args_spec(self.config),
    {
        let mut args: Vec<String> = Vec::new();
        let ports = &self.config.forward_ports;
        let mut i: usize = 0;
        while i < ports.len()
            invariant
                0 <= i <= ports@.len(),
                arg_views(args@) == port_tokens(ports@.take(i as int)),
            decreases ports@.len() - i,
        {
            crate::provider::push_str_tok(&mut args, "-p");
            crate::provider::push_tok(&mut args, port_pair_string(ports[i]));
            proof {
                assert(ports@.take(i + 1int).drop_last() == ports@.take(i as int));
                assert(ports@.take(i + 1int).last() == ports@[i as int]);
                assert(arg_views(args@) =~= port_tokens(ports@.take(i + 1int)));
            }
            i = i + 1;
        }
        proof {
            assert(ports@.take(ports@.len() as int) == ports@);
        }
        let ghost after_ports = port_tokens(ports@);
        let es = &self.config.remote_env;
        let mut j: usize = 0;
        while j < es.len()
            invariant
                0 <= j <= es@.len(),
                arg_views(args@) == after_ports + env_tokens(env_views(es@.take(j as int))),
            decreases es@.len() - j,
        {
            crate::provider::push_str_tok(&mut args, "-e");
            crate::provider::push_tok(&mut args, kv_string(&es[j].0, &es[j].1));
            proof {
                let evs = env_views(es@.take(j + 1int));
                assert(es@.take(j as int).push(es@[j as int]) == es@.take(j + 1int));
                crate::text::lemma_env_views_push(es@.take(j as int), es@[j as int]);
                assert(env_views(es@.take(j as int)).push((es@[j as int].0@, es@[j as int].1@))
                    =~= evs);
                assert(evs.drop_last() =~= env_views(es@.take(j as int)));
                assert(evs.last() == (es@[j as int].0@, es@[j as int].1@));
                assert(arg_views(args@) =~= after_ports + env_tokens(evs));
            }
            j = j + 1;
        }
        proof {
            assert(es@.take(es@.len() as int) == es@);
        }
        crate::provider::push_str_tok(&mut args, "-w");
        crate::provider::push_tok(&mut args, self.config.workspace_folder.clone());
        let ghost after_w = after_ports + env_tokens(env_views(es@)) + seq![
            "-w"@,
            self.config.workspace_folder@,
        ];
        proof {
            assert(arg_views(args@) =~= after_w);
        }
        let ra = &self.config.run_args;
        let mut k: usize = 0;
        while k < ra.len()
            invariant
                0 <= k <= ra@.len(),
                arg_views(args@) == after_w + arg_views(ra@.take(k as int)),
            decreases ra@.len() - k,
        {
            crate::provider::push_tok(&mut args, ra[k].clone());
            proof {
                assert(ra@.take(k as int).push(ra@[k as int]) == ra@.take(k + 1int));
                crate::text::lemma_arg_views_push(ra@.take(k as int), ra@[k as int]);
                assert(arg_views(args@) =~= after_w + arg_views(ra@.take(k + 1int)));
            }
            k = k + 1;
        }
        proof {
            assert(ra@.take(ra@.len() as int) == ra@);
            assert(arg_views(args@) =~= create_args_spec(self.config));
        }
        args
    }

    /// Loads an orchestrator: selects the provider for the manifest and
    /// settings, and resolves the host paths of the files to inject.
    pub fn load(
        directory: String,
        config: Config,
        settings: Settings,
        ssh_auth_sock: Option<String>,
    ) -> (r: Devcontainer)
        requires
            config.wf(),
        ensures
            r.wf(),
            r.config == config,
            r.settings == settings,
            backend_selected(r.provider, config, settings),
            backend_fields_ok(r.provider, config, directory@, opt_view(ssh_auth_sock)),
            tilde_expansion_of(r.gitconfig_source@, "~/.gitconfig"@),
            forall|k: int| 0 <= k < settings.dotfiles@.len() ==> tilde_expansion_of(
                #[trigger] r.dotfile_sources@[k]@,
                "~/"@ + settings.dotfiles@[k]@,
            ),
    {
        let provider = build_provider(&directory, &settings, &config, ssh_auth_sock);
        let gitconfig_source = expand_tilde("~/.gitconfig");
        let mut dotfile_sources: Vec<String> = Vec::new();
        let n = settings.dotfiles.len();
        let mut i: usize = 0;
        while i < n
            invariant
                0 <= i <= n,
                n == settings.dotfiles@.len(),
                dotfile_sources@.len() == i,
                forall|k: int| 0 <= k < i ==> tilde_expansion_of(
                    #[trigger] dotfile_sources@[k]@,
                    "~/"@ + settings.dotfiles@[k]@,
                ),
            decreases n - i,
        {
            let mut tilded = String::from_str("~/");
            tilded.append(settings.dotfiles[i].as_str());
            let expanded = expand_tilde(tilded.as_str());
            dotfile_sources.push(expanded);
            i = i + 1;
        }
        Devcontainer { config, provider, settings, gitconfig_source, dotfile_sources }
    }
}

/// Which provider variant a manifest and settings select: the backend
/// family comes from the settings, and compose manifests route through
/// the compose variants exclusively.
pub open spec fn backend_selected(b: Backend, c: Config, s: Settings) -> bool {
    &&& (b is Docker <==> s.provider == Provider::Docker && !c.is_compose_spec())
    &&& (b is DockerCompose <==> s.provider == Provider::Docker && c.is_compose_spec())
    &&& (b is Podman <==> s.provider == Provider::Podman && !c.is_compose_spec())
    &&& (b is PodmanCompose <==> s.provider == Provider::Podman && c.is_compose_spec())
}

/// The fields every provider instance is bound to at construction.
pub open spec fn backend_fields_ok(
    b: Backend,
    c: Config,
    dir: Seq<char>,
    ssh: Option<Seq<char>>,
) -> bool {
    match b {
        Backend::Docker(d) => {
            &&& env_views(d.build_args@) == build_args_views(c)
            &&& d.command@ == "docker"@
            &&& d.directory@ == dir
            &&& d.file@ == config_file_path(dir, c.dockerfile_spec().unwrap())
            &&& d.name@ == safe_name_seq(c.name_seq())
            &&& arg_views(d.run_args@) == arg_views(c.run_args@)
            &&& d.user@ == c.remote_user@
            &&& d.workspace_folder@ == c.workspace_folder@
        },
        Backend::Podman(p) => {
            &&& env_views(p.build_args@) == build_args_views(c)
            &&& p.command@ == "podman"@
            &&& p.directory@ == dir
            &&& p.file@ == config_file_path(dir, c.dockerfile_spec().unwrap())
            &&& p.forward_ports@ == c.forward_ports@
            &&& p.name@ == safe_name_seq(c.name_seq())
            &&& arg_views(p.run_args@) == arg_views(c.run_args@)
            &&& opt_view(p.ssh_auth_sock) == ssh
            &&& p.user@ == c.remote_user@
            &&& p.workspace_folder@ == c.workspace_folder@
        },
        Backend::DockerCompose(d) => {
            &&& env_views(d.build_args@) == build_args_views(c)
            &&& d.command@ == "docker"@
            &&& d.directory@ == dir
            &&& d.file@ == config_file_path(dir, c.docker_compose_file.unwrap()@)
            &&& d.forward_ports@ == c.forward_ports@
            &&& d.name@ == safe_name_seq(c.name_seq())
            &&& arg_views(d.run_args@) == arg_views(c.run_args@)
            &&& d.service@ == c.service.unwrap()@
            &&& opt_view(d.ssh_auth_sock) == ssh
            &&& d.user@ == c.remote_user@
            &&& d.workspace_folder@ == c.workspace_folder@
        },
        Backend::PodmanCompose(p) => {
            &&& env_views(p.build_args@) == build_args_views(c)
            &&& p.command@ == "podman-compose"@
            &&& p.directory@ == dir
            &&& p.file@ == config_file_path(dir, c.docker_compose_file.unwrap()@)
            &&& p.name@ == safe_name_seq(c.name_seq())
            &&& p.podman_command@ == "podman"@
            &&& arg_views(p.run_args@) == arg_views(c.run_args@)
            &&& p.service@ == c.service.unwrap()@
            &&& p.user@ == c.remote_user@
            &&& p.workspace_folder@ == c.workspace_folder@
        },
    }
}

/// Selects and binds the provider for a manifest: the settings pick the
/// backend family, the manifest picks single-container or compose, and
/// every manifest-derived field is bound at construction.
pub fn build_provider(
    directory: &String,
    settings: &Settings,
    config: &Config,
    ssh_auth_sock: Option<String>,
) -> (r: Backend)
    requires
        config.wf(),
    ensures
        backend_selected(r, *config, *settings),
        backend_fields_ok(r, *config, directory@, opt_view(ssh_auth_sock)),
{
    let is_compose = config.is_compose();
    let name = config.safe_name();
    let build_args = config.build_args();
    proof {
        assert(env_views(build_args@) == build_args_views(*config));
    }
    let run_args = clone_strings(&config.run_args);
    let user = config.remote_user.clone();
    let workspace_folder = config.workspace_folder.clone();
    let dir = directory.clone();
    match settings.provider {
        Provider::Docker => {
            if is_compose {
                let file = match &config.docker_compose_file {
                    Some(f) => config_file_string(directory, f),
                    None => {
                        proof {
                            assert(false);
                        }
                        String::new()
                    },
                };
                let service = match &config.service {
                    Some(s) => s.clone(),
                    None => {
                        proof {
                            assert(false);
                        }
                        String::new()
                    },
                };
                Backend::DockerCompose(
                    DockerCompose {
                        build_args,
                        command: String::from_str("docker"),
                        directory: dir,
                        file,
                        forward_ports: clone_ports(&config.forward_ports),
                        name,
                        run_args,
                        service,
                        ssh_auth_sock,
                        user,
                        workspace_folder,
                    },
                )
            } else {
                let file = match config.dockerfile() {
                    Some(f) => config_file_string(directory, &f),
                    None => {
                        proof {
                            assert(false);
                        }
                        String::new()
                    },
                };
                Backend::Docker(
                    Docker {
                        build_args,
                        command: String::from_str("docker"),
                        directory: dir,
                        file,
                        name,
                        run_args,
                        user,
                        workspace_folder,
                    },
                )
            }
        },
        Provider::Podman => {
            if is_compose {
                let file = match &config.docker_compose_file {
                    Some(f) => config_file_string(directory, f),
                    None => {
                        proof {
                            assert(false);
                        }
                        String::new()
                    },
                };
                let service = match &config.service {
                    Some(s) => s.clone(),
                    None => {
                        proof {
                            assert(false);
                        }
                        String::new()
                    },
                };
                Backend::PodmanCompose(
                    PodmanCompose {
                        build_args,
                        command: String::from_str("podman-compose"),
                        directory: dir,
                        file,
                        name,
                        podman_command: String::from_str("podman"),
                        run_args,
                        service,
                        user,
                        workspace_folder,
                    },
                )
            } else {
                let file = match config.dockerfile() {
                    Some(f) => config_file_string(directory, &f),
                    None => {
                        proof {
                            assert(false);
                        }
                        String::new()
                    },
                };
                Backend::Podman(
                    Podman {
                        build_args,
                        command: String::from_str("podman"),
                        directory: dir,
                        file,
                        forward_ports: clone_ports(&config.forward_ports),
                        name,
                        run_args,
                        ssh_auth_sock,
                        user,
                        workspace_folder,
                    },
                )
            }
        },
    }
}

/// Reads one event as the command of an operation, carried out with the
/// given override path: the event must run exactly the command the
/// provider prescribes, and the outcome determines the result. A reply
/// that could not be spawned fails; a query answers whether the captured
/// output holds anything beyond whitespace; a mandatory operation fails
/// on an unsuccessful exit; any other operation surfaces its flag.
pub open spec fn parse_cmd_event(
    d: Devcontainer,
    op: Op,
    ov: Option<Seq<char>>,
    log: Seq<EventV>,
    i: int,
) -> Option<(int, Result<bool, Error>)> {
    if i < log.len() {
        match log[i] {
            EventV::Ran { cmd, reply } => {
                if d.provider.cmd_spec(op, ov) == Some(cmd) {
                    match reply {
                        ReplyV::NoSpawn => Some((i + 1, Err(Error::ProviderCommandFailed))),
                        ReplyV::Done { success, output } => if op_is_query(op) {
                            Some((i + 1, Ok(!is_blank_seq(output))))
                        } else if op_must_succeed(op) && !success {
                            Some((i + 1, Err(Error::ProviderCommandFailed)))
                        } else {
                            Some((i + 1, Ok(success)))
                        },
                    }
                } else {
                    None
                }
            },
            _ => None,
        }
    } else {
        None
    }
}

/// Reads the events of one lifecycle operation starting at `i`: nothing
/// for a no-op, a staged override document followed by the command for
/// the docker compose operations that consume one, and the bare command
/// otherwise. Returns where the operation's events end and its result,
/// or nothing when the log does not show that operation.
pub open spec fn parse_op(d: Devcontainer, op: Op, log: Seq<EventV>, i: int) -> Option<
    (int, Result<bool, Error>),
> {
    if d.provider.op_is_noop(op) {
        Some((i, Ok(true)))
    } else if d.provider.needs_override_spec(op) {
        if i < log.len() {
            match log[i] {
                EventV::Wrote { contents, dest } => {
                    if contents == d.provider.override_contents() {
                        match dest {
                            None => Some((i + 1, Err(Error::ProviderCommandFailed))),
                            Some(p) => parse_cmd_event(d, op, Some(p), log, i + 1),
                        }
                    } else {
                        None
                    }
                },
                _ => None,
            }
        } else {
            None
        }
    } else {
        parse_cmd_event(d, op, None, log, i)
    }
}

/// A parsed operation stays parsed when the log grows.
pub proof fn lemma_parse_op_stable(
    d: Devcontainer,
    op: Op,
    log1: Seq<EventV>,
    log2: Seq<EventV>,
    i: int,
    j: int,
    r: Result<bool, Error>,
)
    requires
        log1.is_prefix_of(log2),
        0 <= i <= log1.len(),
        parse_op(d, op, log1, i) == Some((j, r)),
    ensures
        parse_op(d, op, log2, i) == Some((j, r)),
        i <= j <= log1.len(),
{
    if d.provider.op_is_noop(op) {
    } else if d.provider.needs_override_spec(op) {
        crate::command::lemma_prefix_index(log1, log2, i);
        match log1[i] {
            EventV::Wrote { contents, dest } => {
                match dest {
                    None => {},
                    Some(p) => {
                        crate::command::lemma_prefix_index(log1, log2, i + 1);
                    },
                }
            },
            _ => {},
        }
    } else {
        crate::command::lemma_prefix_index(log1, log2, i);
    }
}

impl Devcontainer {
    /// Carries one lifecycle operation out through the executor: stages
    /// the override document when the operation consumes one, issues the
    /// prescribed command, and turns the reply into the operation's
    /// result. The executor's log gains exactly the events of that
    /// operation.
    fn perform<E: Executor>(&self, x: &mut E, op: OpX) -> (r: Result<bool, Error>)
        ensures
            old(x).log().is_prefix_of(final(x).log()),
            parse_op(*self, op@, final(x).log(), old(x).log().len() as int) == Some(
                (final(x).log().len() as int, r),
            ),
    {
        let ghost l0 = old(x).log();
        let is_query = matches!(op, OpX::Exists | OpX::Running);
        let must = matches!(op, OpX::Build { .. } | OpX::Create { .. } | OpX::Start);
        let ov: Option<String>;
        if self.provider.needs_override(&op) {
            let doc = match &self.provider {
                Backend::DockerCompose(d) => render_override(&d.ssh_auth_sock, &d.service),
                _ => {
                    proof {
                        assert(false);
                    }
                    String::new()
                },
            };
            match x.stage_override(doc) {
                Some(p) => {
                    proof {
                        crate::command::lemma_prefix_push(l0, x.log().last());
                    }
                    ov = Some(p);
                },
                None => {
                    proof {
                        crate::command::lemma_prefix_push(l0, x.log().last());
                    }
                    return Err(Error::ProviderCommandFailed);
                },
            }
        } else {
            ov = None;
            proof {
                crate::command::lemma_prefix_refl(l0);
            }
        }
        let ghost l1 = x.log();
        let c = self.provider.command_for(op, ov);
        match c {
            None => Ok(true),
            Some(cmd) => {
                let reply = x.execute(cmd);
                proof {
                    crate::command::lemma_prefix_push(l1, x.log().last());
                    crate::command::lemma_prefix_trans(l0, l1, x.log());
                }
                match reply {
                    Reply::NoSpawn => Err(Error::ProviderCommandFailed),
                    Reply::Done { success, output } => {
                        if is_query {
                            Ok(!is_blank(&output))
                        } else if must && !success {
                            Err(Error::ProviderCommandFailed)
                        } else {
                            Ok(success)
                        }
                    },
                }
            },
        }
    }
}

/// What became of one file-injection request.
#[derive(Clone, Copy, Debug, PartialEq, Eq, Structural)]
pub enum CopyOutcome {
    /// The host source does not exist; nothing was asked of the backend.
    Skipped,
    /// The destination directory was prepared and the copy was issued.
    Copied,
}

/// The in-target shell command that prepares a destination directory.
pub open spec fn mkdir_cmd_seq(basedir: Seq<char>) -> Seq<char> {
    "mkdir -p "@ + basedir
}

/// The home directory of the remote user inside the target.
pub open spec fn home_seq(user: Seq<char>) -> Seq<char> {
    if user == "root"@ {
        "/root"@
    } else {
        "/home/"@ + user
    }
}

/// Where a configured dotfile lands inside the target.
pub open spec fn dotfile_dest_seq(user: Seq<char>, file: Seq<char>) -> Seq<char> {
    home_seq(user) + seq!['/'] + file
}

/// Where the git configuration lands inside the target.
pub open spec fn gitconfig_dest_seq(user: Seq<char>) -> Seq<char> {
    "/home/"@ + user + "/.gitconfig"@
}

/// Reads the events of one file injection starting at `i`: the host
/// source is inspected first; a missing source ends the protocol at once
/// with a skipped outcome and nothing asked of the backend. Otherwise
/// the destination's parent directory is prepared inside the target and
/// the copy is issued — with the parent directory itself as destination
/// when the source is a directory, so the whole tree is copied in.
pub open spec fn parse_copy(
    d: Devcontainer,
    src: Seq<char>,
    dest: Seq<char>,
    log: Seq<EventV>,
    i: int,
) -> Option<(int, Result<CopyOutcome, Error>)> {
    if i < log.len() {
        match log[i] {
            EventV::PathChecked { path, kind } => {
                if path == src {
                    if kind == PathKind::Missing {
                        Some((i + 1, Ok(CopyOutcome::Skipped)))
                    } else {
                        let basedir = parent_seq(dest);
                        let destination = if kind == PathKind::Dir {
                            basedir
                        } else {
                            dest
                        };
                        match parse_op(d, Op::Exec { command: mkdir_cmd_seq(basedir) }, log, i + 1) {
                            None => None,
                            Some((j, r1)) => match r1 {
                                Err(e) => Some((j, Err(e))),
                                Ok(_) => match parse_op(
                                    d,
                                    Op::Cp { source: src, dest: destination },
                                    log,
                                    j,
                                ) {
                                    None => None,
                                    Some((k, r2)) => match r2 {
                                        Err(e) => Some((k, Err(e))),
                                        Ok(_) => Some((k, Ok(CopyOutcome::Copied))),
                                    },
                                },
                            },
                        }
                    }
                } else {
                    None
                }
            },
            _ => None,
        }
    } else {
        None
    }
}

/// A parsed file injection stays parsed when the log grows.
pub proof fn lemma_parse_copy_stable(
    d: Devcontainer,
    src: Seq<char>,
    dest: Seq<char>,
    log1: Seq<EventV>,
    log2: Seq<EventV>,
    i: int,
    j: int,
    r: Result<CopyOutcome, Error>,
)
    requires
        log1.is_prefix_of(log2),
        0 <= i <= log1.len(),
        parse_copy(d, src, dest, log1, i) == Some((j, r)),
    ensures
        parse_copy(d, src, dest, log2, i) == Some((j, r)),
        i <= j <= log1.len(),
{
    crate::command::lemma_prefix_index(log1, log2, i);
    match log1[i] {
        EventV::PathChecked { path, kind } => {
            if kind != PathKind::Missing {
                let basedir = parent_seq(dest);
                let destination = if kind == PathKind::Dir {
                    basedir
                } else {
                    dest
                };
                let step1 = parse_op(d, Op::Exec { command: mkdir_cmd_seq(basedir) }, log1, i + 1);
                match step1 {
                    Some((j1, r1)) => {
                        lemma_parse_op_stable(
                            d,
                            Op::Exec { command: mkdir_cmd_seq(basedir) },
                            log1,
                            log2,
                            i + 1,
                            j1,
                            r1,
                        );
                        match r1 {
                            Ok(_) => {
                                let step2 = parse_op(
                                    d,
                                    Op::Cp { source: src, dest: destination },
                                    log1,
                                    j1,
                                );
                                match step2 {
                                    Some((j2, r2)) => {
                                        lemma_parse_op_stable(
                                            d,
                                            Op::Cp { source: src, dest: destination },
                                            log1,
                                            log2,
                                            j1,
                                            j2,
                                            r2,
                                        );
                                    },
                                    None => {},
                                }
                            },
                            Err(_) => {},
                        }
                    },
                    None => {},
                }
            }
        },
        _ => {},
    }
}

/// Reads the events of an optional lifecycle command: nothing when the
/// manifest configures none, one best-effort in-target shell command
/// otherwise.
pub open spec fn parse_opt_exec(
    d: Devcontainer,
    c: Option<Seq<char>>,
    log: Seq<EventV>,
    i: int,
) -> Option<(int, Result<(), Error>)> {
    match c {
        None => Some((i, Ok(()))),
        Some(cmd) => match parse_op(d, Op::Exec { command: cmd }, log, i) {
            None => None,
            Some((j, r)) => match r {
                Err(e) => Some((j, Err(e))),
                Ok(_) => Some((j, Ok(()))),
            },
        },
    }
}

/// A parsed optional command stays parsed when the log grows.
pub proof fn lemma_parse_opt_exec_stable(
    d: Devcontainer,
    c: Option<Seq<char>>,
    log1: Seq<EventV>,
    log2: Seq<EventV>,
    i: int,
    j: int,
    r: Result<(), Error>,
)
    requires
        log1.is_prefix_of(log2),
        0 <= i <= log1.len(),
        parse_opt_exec(d, c, log1, i) == Some((j, r)),
    ensures
        parse_opt_exec(d, c, log2, i) == Some((j, r)),
        i <= j <= log1.len(),
{
    match c {
        None => {},
        Some(cmd) => {
            match parse_op(d, Op::Exec { command: cmd }, log1, i) {
                Some((j1, r1)) => {
                    lemma_parse_op_stable(d, Op::Exec { command: cmd }, log1, log2, i, j1, r1);
                },
                None => {},
            }
        },
    }
}

/// Reads the events of the dotfile injection from the `k`-th configured
/// dotfile on: each is copied in turn, and a failure aborts the rest.
pub open spec fn parse_dotfiles(d: Devcontainer, k: int, log: Seq<EventV>, i: int) -> Option<
    (int, Result<(), Error>),
>
    decreases d.settings.dotfiles@.len() - k,
{
    if k >= d.settings.dotfiles@.len() {
        Some((i, Ok(())))
    } else {
        match parse_copy(
            d,
            d.dotfile_sources@[k]@,
            dotfile_dest_seq(d.config.remote_user@, d.settings.dotfiles@[k]@),
            log,
            i,
        ) {
            None => None,
            Some((j, r)) => match r {
                Err(e) => Some((j, Err(e))),
                Ok(_) => parse_dotfiles(d, k + 1, log, j),
            },
        }
    }
}

/// A parsed dotfile injection stays parsed when the log grows.
pub proof fn lemma_parse_dotfiles_stable(
    d: Devcontainer,
    k: int,
    log1: Seq<EventV>,
    log2: Seq<EventV>,
    i: int,
    j: int,
    r: Result<(), Error>,
)
    requires
        log1.is_prefix_of(log2),
        0 <= i <= log1.len(),
        parse_dotfiles(d, k, log1, i) == Some((j, r)),
    ensures
        parse_dotfiles(d, k, log2, i) == Some((j, r)),
        i <= j <= log1.len(),
    decreases d.settings.dotfiles@.len() - k,
{
    if k >= d.settings.dotfiles@.len() {
    } else {
        let src = d.dotfile_sources@[k]@;
        let dest = dotfile_dest_seq(d.config.remote_user@, d.settings.dotfiles@[k]@);
        match parse_copy(d, src, dest, log1, i) {
            Some((j1, r1)) => {
                lemma_parse_copy_stable(d, src, dest, log1, log2, i, j1, r1);
                match r1 {
                    Ok(_) => {
                        lemma_parse_dotfiles_stable(d, k + 1, log1, log2, j1, j, r);
                    },
                    Err(_) => {},
                }
            },
            None => {},
        }
    }
}

/// Reads the events of the post-create injection: the three lifecycle
/// commands in their fixed order, then the git configuration, then every
/// configured dotfile.
pub open spec fn parse_post_create(d: Devcontainer, log: Seq<EventV>, i: int) -> Option<
    (int, Result<(), Error>),
> {
    match parse_opt_exec(d, opt_view(d.config.on_create_command), log, i) {
        None => None,
        Some((j1, r1)) => match r1 {
            Err(e) => Some((j1, Err(e))),
            Ok(_) => match parse_opt_exec(d, opt_view(d.config.update_content_command), log, j1) {
                None => None,
                Some((j2, r2)) => match r2 {
                    Err(e) => Some((j2, Err(e))),
                    Ok(_) => match parse_opt_exec(
                        d,
                        opt_view(d.config.post_create_command),
                        log,
                        j2,
                    ) {
                        None => None,
                        Some((j3, r3)) => match r3 {
                            Err(e) => Some((j3, Err(e))),
                            Ok(_) => match parse_copy(
                                d,
                                d.gitconfig_source@,
                                gitconfig_dest_seq(d.config.remote_user@),
                                log,
                                j3,
                            ) {
                                None => None,
                                Some((j4, r4)) => match r4 {
                                    Err(e) => Some((j4, Err(e))),
                                    Ok(_) => parse_dotfiles(d, 0, log, j4),
                                },
                            },
                        },
                    },
                },
            },
        },
    }
}

/// A parsed post-create injection stays parsed when the log grows.
pub proof fn lemma_parse_post_create_stable(
    d: Devcontainer,
    log1: Seq<EventV>,
    log2: Seq<EventV>,
    i: int,
    j: int,
    r: Result<(), Error>,
)
    requires
        log1.is_prefix_of(log2),
        0 <= i <= log1.len(),
        parse_post_create(d, log1, i) == Some((j, r)),
    ensures
        parse_post_create(d, log2, i) == Some((j, r)),
        i <= j <= log1.len(),
{
    match parse_opt_exec(d, opt_view(d.config.on_create_command), log1, i) {
        Some((j1, r1)) => {
            lemma_parse_opt_exec_stable(
                d,
                opt_view(d.config.on_create_command),
                log1,
                log2,
                i,
                j1,
                r1,
            );
            if r1 is Ok {
                match parse_opt_exec(d, opt_view(d.config.update_content_command), log1, j1) {
                    Some((j2, r2)) => {
                        lemma_parse_opt_exec_stable(
                            d,
                            opt_view(d.config.update_content_command),
                            log1,
                            log2,
                            j1,
                            j2,
                            r2,
                        );
                        if r2 is Ok {
                            match parse_opt_exec(d, opt_view(d.config.post_create_command), log1, j2) {
                                Some((j3, r3)) => {
                                    lemma_parse_opt_exec_stable(
                                        d,
                                        opt_view(d.config.post_create_command),
                                        log1,
                                        log2,
                                        j2,
                                        j3,
                                        r3,
                                    );
                                    if r3 is Ok {
                                        match parse_copy(
                                            d,
                                            d.gitconfig_source@,
                                            gitconfig_dest_seq(d.config.remote_user@),
                                            log1,
                                            j3,
                                        ) {
                                            Some((j4, r4)) => {
                                                lemma_parse_copy_stable(
                                                    d,
                                                    d.gitconfig_source@,
                                                    gitconfig_dest_seq(d.config.remote_user@),
                                                    log1,
                                                    log2,
                                                    j3,
                                                    j4,
                                                    r4,
                                                );
                                                if r4 is Ok {
                                                    match parse_dotfiles(d, 0, log1, j4) {
                                                        Some((j5, r5)) => {
                                                            lemma_parse_dotfiles_stable(
                                                                d,
                                                                0,
                                                                log1,
                                                                log2,
                                                                j4,
                                                                j5,
                                                                r5,
                                                            );
                                                        },
                                                        None => {},
                                                    }
                                                }
                                            },
                                            None => {},
                                        }
                                    }
                                },
                                None => {},
                            }
                        }
                    },
                    None => {},
                }
            }
        },
        None => {},
    }
}

/// Reads the events that make sure the target exists: the existence
/// query, then — only when the target is absent — a mandatory build and
/// a mandatory create.
pub open spec fn parse_create(d: Devcontainer, use_cache: bool, log: Seq<EventV>, i: int) -> Option<
    (int, Result<(), Error>),
> {
    match parse_op(d, Op::Exists, log, i) {
        None => None,
        Some((j, rq)) => match rq {
            Err(e) => Some((j, Err(e))),
            Ok(true) => Some((j, Ok(()))),
            Ok(false) => match parse_op(d, Op::Build { use_cache }, log, j) {
                None => None,
                Some((k, rb)) => match rb {
                    Err(e) => Some((k, Err(e))),
                    Ok(_) => match parse_op(
                        d,
                        Op::Create { extra: create_args_spec(d.config) },
                        log,
                        k,
                    ) {
                        None => None,
                        Some((m, rc)) => match rc {
                            Err(e) => Some((m, Err(e))),
                            Ok(_) => Some((m, Ok(()))),
                        },
                    },
                },
            },
        },
    }
}

/// A parsed provisioning phase stays parsed when the log grows.
pub proof fn lemma_parse_create_stable(
    d: Devcontainer,
    use_cache: bool,
    log1: Seq<EventV>,
    log2: Seq<EventV>,
    i: int,
    j: int,
    r: Result<(), Error>,
)
    requires
        log1.is_prefix_of(log2),
        0 <= i <= log1.len(),
        parse_create(d, use_cache, log1, i) == Some((j, r)),
    ensures
        parse_create(d, use_cache, log2, i) == Some((j, r)),
        i <= j <= log1.len(),
{
    match parse_op(d, Op::Exists, log1, i) {
        Some((j1, rq)) => {
            lemma_parse_op_stable(d, Op::Exists, log1, log2, i, j1, rq);
            if rq == Ok::<bool, Error>(false) {
                match parse_op(d, Op::Build { use_cache }, log1, j1) {
                    Some((j2, rb)) => {
                        lemma_parse_op_stable(d, Op::Build { use_cache }, log1, log2, j1, j2, rb);
                        if rb is Ok {
                            match parse_op(
                                d,
                                Op::Create { extra: create_args_spec(d.config) },
                                log1,
                                j2,
                            ) {
                                Some((j3, rc)) => {
                                    lemma_parse_op_stable(
                                        d,
                                        Op::Create { extra: create_args_spec(d.config) },
                                        log1,
                                        log2,
                                        j2,
                                        j3,
                                        rc,
                                    );
                                },
                                None => {},
                            }
                        }
                    },
                    None => {},
                }
            }
        },
        None => {},
    }
}

/// Reads the events that make sure the target runs: the running query,
/// then — only when it is not running — a mandatory start.
pub open spec fn parse_start_phase(d: Devcontainer, log: Seq<EventV>, i: int) -> Option<
    (int, Result<(), Error>),
> {
    match parse_op(d, Op::Running, log, i) {
        None => None,
        Some((j, rq)) => match rq {
            Err(e) => Some((j, Err(e))),
            Ok(true) => Some((j, Ok(()))),
            Ok(false) => match parse_op(d, Op::Start, log, j) {
                None => None,
                Some((k, rs)) => match rs {
                    Err(e) => Some((k, Err(e))),
                    Ok(_) => Some((k, Ok(()))),
                },
            },
        },
    }
}

/// A parsed start phase stays parsed when the log grows.
pub proof fn lemma_parse_start_phase_stable(
    d: Devcontainer,
    log1: Seq<EventV>,
    log2: Seq<EventV>,
    i: int,
    j: int,
    r: Result<(), Error>,
)
    requires
        log1.is_prefix_of(log2),
        0 <= i <= log1.len(),
        parse_start_phase(d, log1, i) == Some((j, r)),
    ensures
        parse_start_phase(d, log2, i) == Some((j, r)),
        i <= j <= log1.len(),
{
    match parse_op(d, Op::Running, log1, i) {
        Some((j1, rq)) => {
            lemma_parse_op_stable(d, Op::Running, log1, log2, i, j1, rq);
            if rq == Ok::<bool, Error>(false) {
                match parse_op(d, Op::Start, log1, j1) {
                    Some((j2, rs)) => {
                        lemma_parse_op_stable(d, Op::Start, log1, log2, j1, j2, rs);
                    },
                    None => {},
                }
            }
        },
        None => {},
    }
}

/// Reads the closing events of a run: the best-effort restart that makes
/// lifecycle-command side effects take hold, the blocking attach, and —
/// when the manifest asks for it — the stop after the session ends.
pub open spec fn parse_finish(d: Devcontainer, log: Seq<EventV>, i: int) -> Option<
    (int, Result<(), Error>),
> {
    match parse_op(d, Op::Restart, log, i) {
        None => None,
        Some((j, r1)) => match r1 {
            Err(e) => Some((j, Err(e))),
            Ok(_) => match parse_op(d, Op::Attach, log, j) {
                None => None,
                Some((k, r2)) => match r2 {
                    Err(e) => Some((k, Err(e))),
                    Ok(_) => if d.config.shutdown_spec() != ShutdownAction::LeaveRunning {
                        match parse_op(d, Op::Stop, log, k) {
                            None => None,
                            Some((m, r3)) => match r3 {
                                Err(e) => Some((m, Err(e))),
                                Ok(_) => Some((m, Ok(()))),
                            },
                        }
                    } else {
                        Some((k, Ok(())))
                    },
                },
            },
        },
    }
}

/// Reads the events of one full run starting at `i`: provisioning when
/// absent, starting when stopped, the post-create injection, then
/// restart, attach and the optional stop.
pub open spec fn parse_run(d: Devcontainer, use_cache: bool, log: Seq<EventV>, i: int) -> Option<
    (int, Result<(), Error>),
> {
    match parse_create(d, use_cache, log, i) {
        None => None,
        Some((j, r1)) => match r1 {
            Err(e) => Some((j, Err(e))),
            Ok(_) => match parse_start_phase(d, log, j) {
                None => None,
                Some((k, r2)) => match r2 {
                    Err(e) => Some((k, Err(e))),
                    Ok(_) => match parse_post_create(d, log, k) {
                        None => None,
                        Some((m, r3)) => match r3 {
                            Err(e) => Some((m, Err(e))),
                            Ok(_) => parse_finish(d, log, m),
                        },
                    },
                },
            },
        },
    }
}

/// Reads the events of a rebuild: the target's existence is queried
/// first, and only when it exists are the stop and the irrevocable
/// removal issued — in that order — before the full run is carried out
/// from scratch.
pub open spec fn parse_rebuild(d: Devcontainer, use_cache: bool, log: Seq<EventV>, i: int) -> Option<
    (int, Result<(), Error>),
> {
    match parse_op(d, Op::Exists, log, i) {
        None => None,
        Some((j, rq)) => match rq {
            Err(e) => Some((j, Err(e))),
            Ok(true) => match parse_op(d, Op::Stop, log, j) {
                None => None,
                Some((k, r1)) => match r1 {
                    Err(e) => Some((k, Err(e))),
                    Ok(_) => match parse_op(d, Op::Rm, log, k) {
                        None => None,
                        Some((m, r2)) => match r2 {
                            Err(e) => Some((m, Err(e))),
                            Ok(_) => parse_run(d, use_cache, log, m),
                        },
                    },
                },
            },
            Ok(false) => parse_run(d, use_cache, log, j),
        },
    }
}

impl Devcontainer {
    /// The home directory of the remote user inside the target.
    fn homedir(&self) -> (r: String)
        ensures
            r@ == home_seq(self.config.remote_user@),
    {
        let root = String::from_str("root");
        if self.config.remote_user.eq(&root) {
            String::from_str("/root")
        } else {
            let mut h = String::from_str("/home/");
            h.append(self.config.remote_user.as_str());
            h
        }
    }

    /// Makes sure the target exists: queries the backend, and builds and
    /// creates only when it does not. Build and create are mandatory:
    /// their failure aborts the sequence.
    fn create<E: Executor>(&self, x: &mut E, use_cache: bool) -> (r: Result<(), Error>)
        ensures
            old(x).log().is_prefix_of(final(x).log()),
            parse_create(*self, use_cache, final(x).log(), old(x).log().len() as int) == Some(
                (final(x).log().len() as int, r),
            ),
    {
        let ghost l0 = old(x).log();
        let ghost i0 = l0.len() as int;
        let rq = self.perform(x, OpX::Exists);
        let ghost l1 = x.log();
        let ghost i1 = l1.len() as int;
        let exists_now = match rq {
            Err(e) => {
                return Err(e);
            },
            Ok(b) => b,
        };
        if exists_now {
            return Ok(());
        }
        let rb = self.perform(x, OpX::Build { use_cache });
        let ghost l2 = x.log();
        let ghost i2 = l2.len() as int;
        proof {
            crate::command::lemma_prefix_trans(l0, l1, l2);
            lemma_parse_op_stable(*self, Op::Exists, l1, l2, i0, i1, Ok(false));
        }
        match rb {
            Err(e) => {
                return Err(e);
            },
            Ok(_) => {},
        }
        let extra = self.create_args();
        let rc = self.perform(x, OpX::Create { extra });
        let ghost l3 = x.log();
        proof {
            crate::command::lemma_prefix_trans(l0, l2, l3);
            crate::command::lemma_prefix_trans(l1, l2, l3);
            lemma_parse_op_stable(*self, Op::Exists, l1, l3, i0, i1, Ok(false));
            lemma_parse_op_stable(*self, Op::Build { use_cache }, l2, l3, i1, i2, rb);
            assert(Op::Create { extra: arg_views(extra@) } == Op::Create {
                extra: create_args_spec(self.config),
            });
        }
        match rc {
            Err(e) => Err(e),
            Ok(_) => Ok(()),
        }
    }

    /// Runs one optional lifecycle command inside the target, best
    /// effort: a failed exit is surfaced, not fatal.
    fn exec_optional<E: Executor>(&self, x: &mut E, c: &Option<String>) -> (r: Result<(), Error>)
        ensures
            old(x).log().is_prefix_of(final(x).log()),
            parse_opt_exec(*self, opt_view(*c), final(x).log(), old(x).log().len() as int) == Some(
                (final(x).log().len() as int, r),
            ),
    {
        match c {
            None => {
                proof {
                    crate::command::lemma_prefix_refl(old(x).log());
                }
                Ok(())
            },
            Some(cmd) => {
                match self.perform(x, OpX::Exec { command: cmd.clone() }) {
                    Err(e) => Err(e),
                    Ok(_) => Ok(()),
                }
            },
        }
    }

    /// Injects one host file into the target. A missing host source is
    /// skipped silently — the backend is never asked anything for it;
    /// this one policy holds for every injection, the generic entry
    /// point included. Otherwise the destination's parent directory is
    /// prepared inside the target first, and the copy is issued with the
    /// parent directory as destination when the source is a directory.
    pub fn copy<E: Executor>(&self, x: &mut E, source: &String, dest: &String) -> (r: Result<
        CopyOutcome,
        Error,
    >)
        requires
            has_slash(dest@),
            dest@ != seq!['/'],
        ensures
            old(x).log().is_prefix_of(final(x).log()),
            parse_copy(*self, source@, dest@, final(x).log(), old(x).log().len() as int) == Some(
                (final(x).log().len() as int, r),
            ),
    {
        let ghost l0 = old(x).log();
        let ghost i0 = l0.len() as int;
        let kind = x.check_host_path(source);
        let ghost l1 = x.log();
        let ghost i1 = l1.len() as int;
        proof {
            crate::command::lemma_prefix_push(l0, l1.last());
        }
        if matches!(kind, PathKind::Missing) {
            return Ok(CopyOutcome::Skipped);
        }
        let basedir = parent_dir(dest);
        let destination = if matches!(kind, PathKind::Dir) {
            basedir.clone()
        } else {
            dest.clone()
        };
        let mut mk = String::from_str("mkdir -p ");
        mk.append(basedir.as_str());
        let ghost mk_view = mk@;
        let r1 = self.perform(x, OpX::Exec { command: mk });
        let ghost l2 = x.log();
        let ghost i2 = l2.len() as int;
        proof {
            crate::command::lemma_prefix_trans(l0, l1, l2);
            crate::command::lemma_prefix_index(l1, l2, i0);
        }
        match r1 {
            Err(e) => {
                return Err(e);
            },
            Ok(_) => {},
        }
        let r2 = self.perform(x, OpX::Cp { source: source.clone(), dest: destination });
        let ghost l3 = x.log();
        proof {
            crate::command::lemma_prefix_trans(l0, l2, l3);
            crate::command::lemma_prefix_trans(l1, l2, l3);
            crate::command::lemma_prefix_index(l1, l3, i0);
            lemma_parse_op_stable(*self, Op::Exec { command: mk_view }, l2, l3, i1, i2, r1);
        }
        match r2 {
            Err(e) => Err(e),
            Ok(_) => Ok(CopyOutcome::Copied),
        }
    }

    /// Copies the user's git configuration into the remote user's home,
    /// skipping silently when the host has none.
    fn copy_gitconfig<E: Executor>(&self, x: &mut E) -> (r: Result<CopyOutcome, Error>)
        ensures
            old(x).log().is_prefix_of(final(x).log()),
            parse_copy(
                *self,
                self.gitconfig_source@,
                gitconfig_dest_seq(self.config.remote_user@),
                final(x).log(),
                old(x).log().len() as int,
            ) == Some((final(x).log().len() as int, r)),
    {
        let mut dest = String::from_str("/home/");
        dest.append(self.config.remote_user.as_str());
        dest.append("/.gitconfig");
        proof {
            reveal_strlit("/home/");
            reveal_strlit("/.gitconfig");
            assert(dest@[0] == '/');
            assert(has_slash(dest@));
            assert(dest@.len() > 1);
            assert(dest@ != seq!['/']);
        }
        let src = self.gitconfig_source.clone();
        self.copy(x, &src, &dest)
    }

    /// Copies the configured dotfiles into the remote user's home, from
    /// the `k`-th on, skipping each one the host does not have.
    fn copy_dotfiles_from<E: Executor>(&self, x: &mut E, k: usize) -> (r: Result<(), Error>)
        requires
            self.wf(),
            k <= self.settings.dotfiles@.len(),
        ensures
            old(x).log().is_prefix_of(final(x).log()),
            parse_dotfiles(*self, k as int, final(x).log(), old(x).log().len() as int) == Some(
                (final(x).log().len() as int, r),
            ),
        decreases self.settings.dotfiles@.len() - k,
    {
        let ghost l0 = old(x).log();
        let ghost i0 = l0.len() as int;
        if k == self.settings.dotfiles.len() {
            proof {
                crate::command::lemma_prefix_refl(l0);
            }
            return Ok(());
        }
        let source = self.dotfile_sources[k].clone();
        let file = self.settings.dotfiles[k].clone();
        let mut dest = self.homedir();
        let ghost home = dest@;
        push_char(&mut dest, '/');
        dest.append(file.as_str());
        proof {
            reveal_strlit("/root");
            reveal_strlit("/home/");
            assert(dest@ =~= home + seq!['/'] + file@);
            assert(dest@[home.len() as int] == '/');
            assert(has_slash(dest@));
            assert(home.len() >= 5);
            assert(dest@ != seq!['/']);
            assert(dest@ == dotfile_dest_seq(
                self.config.remote_user@,
                self.settings.dotfiles@[k as int]@,
            ));
        }
        let c = self.copy(x, &source, &dest);
        let ghost l1 = x.log();
        let ghost i1 = l1.len() as int;
        match c {
            Err(e) => {
                return Err(e);
            },
            Ok(_) => {},
        }
        let rest = self.copy_dotfiles_from(x, k + 1);
        let ghost l2 = x.log();
        proof {
            crate::command::lemma_prefix_trans(l0, l1, l2);
            lemma_parse_copy_stable(
                *self,
                source@,
                dotfile_dest_seq(self.config.remote_user@, self.settings.dotfiles@[k as int]@),
                l1,
                l2,
                i0,
                i1,
                c,
            );
        }
        rest
    }

    /// Runs the post-create injection: the three lifecycle commands in
    /// their fixed order, then the git configuration, then every
    /// configured dotfile. Safe to repeat on every invocation.
    fn post_create<E: Executor>(&self, x: &mut E) -> (r: Result<(), Error>)
        requires
            self.wf(),
        ensures
            old(x).log().is_prefix_of(final(x).log()),
            parse_post_create(*self, final(x).log(), old(x).log().len() as int) == Some(
                (final(x).log().len() as int, r),
            ),
    {
        let ghost l0 = old(x).log();
        let ghost i0 = l0.len() as int;
        let r1 = self.exec_optional(x, &self.config.on_create_command);
        let ghost l1 = x.log();
        let ghost i1 = l1.len() as int;
        match r1 {
            Err(e) => {
                return Err(e);
            },
            Ok(_) => {},
        }
        let r2 = self.exec_optional(x, &self.config.update_content_command);
        let ghost l2 = x.log();
        let ghost i2 = l2.len() as int;
        proof {
            crate::command::lemma_prefix_trans(l0, l1, l2);
            lemma_parse_opt_exec_stable(
                *self,
                opt_view(self.config.on_create_command),
                l1,
                l2,
                i0,
                i1,
                r1,
            );
        }
        match r2 {
            Err(e) => {
                return Err(e);
            },
            Ok(_) => {},
        }
        let r3 = self.exec_optional(x, &self.config.post_create_command);
        let ghost l3 = x.log();
        let ghost i3 = l3.len() as int;
        proof {
            crate::command::lemma_prefix_trans(l0, l2, l3);
            lemma_parse_opt_exec_stable(
                *self,
                opt_view(self.config.on_create_command),
                l2,
                l3,
                i0,
                i1,
                r1,
            );
            lemma_parse_opt_exec_stable(
                *self,
                opt_view(self.config.update_content_command),
                l2,
                l3,
                i1,
                i2,
                r2,
            );
        }
        match r3 {
            Err(e) => {
                return Err(e);
            },
            Ok(_) => {},
        }
        let r4 = self.copy_gitconfig(x);
        let ghost l4 = x.log();
        let ghost i4 = l4.len() as int;
        proof {
            crate::command::lemma_prefix_trans(l0, l3, l4);
            lemma_parse_opt_exec_stable(
                *self,
                opt_view(self.config.on_create_command),
                l3,
                l4,
                i0,
                i1,
                r1,
            );
            lemma_parse_opt_exec_stable(
                *self,
                opt_view(self.config.update_content_command),
                l3,
                l4,
                i1,
                i2,
                r2,
            );
            lemma_parse_opt_exec_stable(
                *self,
                opt_view(self.config.post_create_command),
                l3,
                l4,
                i2,
                i3,
                r3,
            );
        }
        match r4 {
            Err(e) => {
                return Err(e);
            },
            Ok(_) => {},
        }
        let r5 = self.copy_dotfiles_from(x, 0);
        let ghost l5 = x.log();
        proof {
            crate::command::lemma_prefix_trans(l0, l4, l5);
            lemma_parse_opt_exec_stable(
                *self,
                opt_view(self.config.on_create_command),
                l4,
                l5,
                i0,
                i1,
                r1,
            );
            lemma_parse_opt_exec_stable(
                *self,
                opt_view(self.config.update_content_command),
                l4,
                l5,
                i1,
                i2,
                r2,
            );
            lemma_parse_opt_exec_stable(
                *self,
                opt_view(self.config.post_create_command),
                l4,
                l5,
                i2,
                i3,
                r3,
            );
            lemma_parse_copy_stable(
                *self,
                self.gitconfig_source@,
                gitconfig_dest_seq(self.config.remote_user@),
                l4,
                l5,
                i3,
                i4,
                r4,
            );
        }
        r5
    }

    /// Drives the full lifecycle once: makes sure the target exists and
    /// runs, injects lifecycle commands and host files, restarts so
    /// their side effects take hold, attaches until the interactive
    /// session ends, and stops the target when the manifest asks for it.
    #[verifier::rlimit(60)]
    pub fn run<E: Executor>(&self, x: &mut E, use_cache: bool) -> (r: Result<(), Error>)
        requires
            self.wf(),
        ensures
            old(x).log().is_prefix_of(final(x).log()),
            parse_run(*self, use_cache, final(x).log(), old(x).log().len() as int) == Some(
                (final(x).log().len() as int, r),
            ),
    {
        let ghost l0 = old(x).log();
        let ghost i0 = l0.len() as int;
        let rc = self.create(x, use_cache);
        let ghost l1 = x.log();
        let ghost i1 = l1.len() as int;
        match rc {
            Err(e) => {
                return Err(e);
            },
            Ok(_) => {},
        }
        let rq = self.perform(x, OpX::Running);
        let ghost l2 = x.log();
        let ghost i2 = l2.len() as int;
        proof {
            crate::command::lemma_prefix_trans(l0, l1, l2);
            lemma_parse_create_stable(*self, use_cache, l1, l2, i0, i1, rc);
        }
        let running = match rq {
            Err(e) => {
                return Err(e);
            },
            Ok(b) => b,
        };
        if !running {
            let rs = self.perform(x, OpX::Start);
            let ghost l3 = x.log();
            proof {
                crate::command::lemma_prefix_trans(l0, l2, l3);
                crate::command::lemma_prefix_trans(l1, l2, l3);
                lemma_parse_create_stable(*self, use_cache, l2, l3, i0, i1, rc);
                lemma_parse_op_stable(*self, Op::Running, l2, l3, i1, i2, rq);
            }
            match rs {
                Err(e) => {
                    return Err(e);
                },
                Ok(_) => {},
            }
        }
        let ghost ls = x.log();
        let ghost is_ = ls.len() as int;
        proof {
            assert(parse_start_phase(*self, ls, i1) == Some((is_, Ok::<(), Error>(()))));
        }
        let rpc = self.post_create(x);
        let ghost l4 = x.log();
        let ghost i4 = l4.len() as int;
        proof {
            crate::command::lemma_prefix_trans(l0, ls, l4);
            lemma_parse_create_stable(*self, use_cache, ls, l4, i0, i1, rc);
            lemma_parse_start_phase_stable(*self, ls, l4, i1, is_, Ok(()));
        }
        match rpc {
            Err(e) => {
                return Err(e);
            },
            Ok(_) => {},
        }
        let rr = self.perform(x, OpX::Restart);
        let ghost l5 = x.log();
        let ghost i5 = l5.len() as int;
        proof {
            crate::command::lemma_prefix_trans(l0, l4, l5);
            lemma_parse_create_stable(*self, use_cache, l4, l5, i0, i1, rc);
            lemma_parse_start_phase_stable(*self, l4, l5, i1, is_, Ok(()));
            lemma_parse_post_create_stable(*self, l4, l5, is_, i4, rpc);
        }
        match rr {
            Err(e) => {
                return Err(e);
            },
            Ok(_) => {},
        }
        let ra = self.perform(x, OpX::Attach);
        let ghost l6 = x.log();
        let ghost i6 = l6.len() as int;
        proof {
            crate::command::lemma_prefix_trans(l0, l5, l6);
            lemma_parse_create_stable(*self, use_cache, l5, l6, i0, i1, rc);
            lemma_parse_start_phase_stable(*self, l5, l6, i1, is_, Ok(()));
            lemma_parse_post_create_stable(*self, l5, l6, is_, i4, rpc);
            lemma_parse_op_stable(*self, Op::Restart, l5, l6, i4, i5, rr);
        }
        match ra {
            Err(e) => {
                return Err(e);
            },
            Ok(_) => {},
        }
        if self.config.should_shutdown() {
            let rst = self.perform(x, OpX::Stop);
            let ghost l7 = x.log();
            proof {
                crate::command::lemma_prefix_trans(l0, l6, l7);
                lemma_parse_create_stable(*self, use_cache, l6, l7, i0, i1, rc);
                lemma_parse_start_phase_stable(*self, l6, l7, i1, is_, Ok(()));
                lemma_parse_post_create_stable(*self, l6, l7, is_, i4, rpc);
                lemma_parse_op_stable(*self, Op::Restart, l6, l7, i4, i5, rr);
                lemma_parse_op_stable(*self, Op::Attach, l6, l7, i5, i6, ra);
            }
            match rst {
                Err(e) => {
                    return Err(e);
                },
                Ok(_) => {},
            }
            Ok(())
        } else {
            Ok(())
        }
    }

    /// Rebuilds from scratch: when the target exists it is stopped and
    /// irrevocably removed — compose-managed images included — before
    /// the full run is carried out; the skip-if-exists shortcut of `run`
    /// then finds nothing and provisions anew.
    pub fn rebuild<E: Executor>(&self, x: &mut E, use_cache: bool) -> (r: Result<(), Error>)
        requires
            self.wf(),
        ensures
            old(x).log().is_prefix_of(final(x).log()),
            parse_rebuild(*self, use_cache, final(x).log(), old(x).log().len() as int) == Some(
                (final(x).log().len() as int, r),
            ),
    {
        let ghost l0 = old(x).log();
        let ghost i0 = l0.len() as int;
        let rq = self.perform(x, OpX::Exists);
        let ghost l1 = x.log();
        let ghost i1 = l1.len() as int;
        let exists_now = match rq {
            Err(e) => {
                return Err(e);
            },
            Ok(b) => b,
        };
        if exists_now {
            let r1 = self.perform(x, OpX::Stop);
            let ghost l2 = x.log();
            let ghost i2 = l2.len() as int;
            proof {
                crate::command::lemma_prefix_trans(l0, l1, l2);
                lemma_parse_op_stable(*self, Op::Exists, l1, l2, i0, i1, rq);
            }
            match r1 {
                Err(e) => {
                    return Err(e);
                },
                Ok(_) => {},
            }
            let r2 = self.perform(x, OpX::Rm);
            let ghost l3 = x.log();
            let ghost i3 = l3.len() as int;
            proof {
                crate::command::lemma_prefix_trans(l0, l2, l3);
                crate::command::lemma_prefix_trans(l1, l2, l3);
                lemma_parse_op_stable(*self, Op::Exists, l1, l3, i0, i1, rq);
                lemma_parse_op_stable(*self, Op::Stop, l2, l3, i1, i2, r1);
            }
            match r2 {
                Err(e) => {
                    return Err(e);
                },
                Ok(_) => {},
            }
            let rr = self.run(x, use_cache);
            let ghost l4 = x.log();
            proof {
                crate::command::lemma_prefix_trans(l0, l3, l4);
                crate::command::lemma_prefix_trans(l1, l3, l4);
                crate::command::lemma_prefix_trans(l2, l3, l4);
                lemma_parse_op_stable(*self, Op::Exists, l1, l4, i0, i1, rq);
                lemma_parse_op_stable(*self, Op::Stop, l2, l4, i1, i2, r1);
                lemma_parse_op_stable(*self, Op::Rm, l3, l4, i2, i3, r2);
            }
            rr
        } else {
            let rr = self.run(x, use_cache);
            let ghost l4 = x.log();
            proof {
                crate::command::lemma_prefix_trans(l0, l1, l4);
                lemma_parse_op_stable(*self, Op::Exists, l1, l4, i0, i1, rq);
            }
            rr
        }
    }
}

/// Clones a port listing.
fn clone_ports(v: &Vec<u16>) -> (r: Vec<u16>)
    ensures
        r@ == v@,
{
    let mut out: Vec<u16> = Vec::new();
    let mut i: usize = 0;
    while i < v.len()
        invariant
            0 <= i <= v@.len(),
            out@ == v@.take(i as int),
        decreases v@.len() - i,
    {
        out.push(v[i]);
        proof {
            assert(out@ =~= v@.take(i + 1int));
        }
        i = i + 1;
    }
    proof {
        assert(v@.take(v@.len() as int) == v@);
    }
    out
}

} // verus!
