//! The docker compose backend. Identity is a project name, creation is
//! folded into `up`, and every stateful operation re-supplies the compose
//! file together with a freshly staged override document that forwards the
//! host SSH agent.

use vstd::prelude::*;

use crate::command::opt_view;
use crate::command::Cmd;
use crate::command::CmdV;
use crate::provider::build_arg_tokens;
use crate::provider::cp_args;
use crate::provider::dc_prefix;
use crate::provider::dc_prefix_vec;
use crate::provider::nocache_tokens;
use crate::provider::op_is_query;
use crate::provider::down_tokens;
use crate::provider::push_build_args;
use crate::provider::push_down_toks;
use crate::provider::push_exec_toks;
use crate::provider::push_str_tok;
use crate::provider::push_tok;
use crate::provider::colon_string;
use crate::provider::single_exec_args;
use crate::provider::Op;
use crate::provider::OpX;
use crate::text::arg_views;
use crate::text::env_views;

verus! {

/// A compose stack driven by `docker compose`.
pub struct DockerCompose {
    /// `--build-arg` key/value pairs, in manifest order.
    pub build_args: Vec<(String, String)>,
    /// The backend program, `docker`.
    pub command: String,
    /// The project directory.
    pub directory: String,
    /// The compose file path.
    pub file: String,
    /// Ports forwarded host:container, in manifest order.
    pub forward_ports: Vec<u16>,
    /// The identifier: the compose project name.
    pub name: String,
    /// User-supplied creation flags.
    pub run_args: Vec<String>,
    /// The compose service lifecycle commands address.
    pub service: String,
    /// The host SSH agent socket, when the environment defines one.
    pub ssh_auth_sock: Option<String>,
    /// The user lifecycle commands run as.
    pub user: String,
    /// The working directory inside the service container.
    pub workspace_folder: String,
}

impl DockerCompose {
    /// The command each operation translates to; `ov` is the staged
    /// override path for the operations that consume one. Creation is a
    /// no-op.
    pub open spec fn cmd_spec(&self, op: Op, ov: Option<Seq<char>>) -> Option<CmdV> {
        match op {
            Op::Create { .. } => None,
            _ => Some(
                CmdV {
                    program: self.command@,
                    args: match op {
                        Op::Build { use_cache } => dc_prefix(self.file@, ov, self.name@) + seq![
                            "build"@,
                        ] + nocache_tokens(use_cache) + build_arg_tokens(
                            env_views(self.build_args@),
                        ),
                        Op::Start => dc_prefix(self.file@, ov, self.name@) + seq![
                            "up"@,
                            "--detach"@,
                        ],
                        Op::Stop => dc_prefix(self.file@, ov, self.name@) + seq!["stop"@],
                        Op::Restart => dc_prefix(self.file@, ov, self.name@) + seq!["restart"@],
                        Op::Attach => dc_prefix(self.file@, ov, self.name@) + seq![
                            "exec"@,
                            "-u"@,
                            self.user@,
                            "-w"@,
                            self.workspace_folder@,
                            self.service@,
                            "zsh"@,
                        ],
                        Op::Rm => dc_prefix(self.file@, ov, self.name@) + down_tokens(),
                        Op::Exists => dc_prefix(self.file@, None, self.name@) + seq![
                            "ps"@,
                            "-aq"@,
                        ],
                        Op::Running => dc_prefix(self.file@, None, self.name@) + seq![
                            "ps"@,
                            "-q"@,
                            "--status=running"@,
                        ],
                        Op::Cp { source, dest } => dc_prefix(self.file@, ov, self.name@) + cp_args(
                            source,
                            self.service@,
                            dest,
                        ),
                        Op::Exec { command } => dc_prefix(self.file@, ov, self.name@)
                            + single_exec_args(
                            self.user@,
                            self.workspace_folder@,
                            self.service@,
                            command,
                        ),
                        Op::Create { .. } => Seq::<Seq<char>>::empty(),
                    },
                    capture: op_is_query(op),
                },
            ),
        }
    }

    /// Translates one operation into the docker compose command grammar.
    pub fn command_for(&self, op: OpX, ov: Option<String>) -> (c: Option<Cmd>)
        requires
            ov is Some <==> !(op@ is Create) && !(op@ is Exists) && !(op@ is Running),
        ensures
            match c {
                Some(cmd) => self.cmd_spec(op@, opt_view(ov)) == Some(cmd@),
                None => self.cmd_spec(op@, opt_view(ov)) is None && op@ is Create,
            },
    {
        match op {
            OpX::Create { .. } => None,
            OpX::Build { use_cache } => {
                let mut args = dc_prefix_vec(&self.file, &ov, &self.name);
                push_str_tok(&mut args, "build");
                if !use_cache {
                    push_str_tok(&mut args, "--no-cache");
                }
                push_build_args(&mut args, &self.build_args);
                proof {
                    assert(arg_views(args@) =~= dc_prefix(self.file@, opt_view(ov), self.name@)
                        + seq!["build"@] + nocache_tokens(use_cache) + build_arg_tokens(
                        env_views(self.build_args@),
                    ));
                }
                Some(Cmd { program: self.command.clone(), args, capture: false })
            },
            OpX::Start => {
                let mut args = dc_prefix_vec(&self.file, &ov, &self.name);
                push_str_tok(&mut args, "up");
                push_str_tok(&mut args, "--detach");
                proof {
                    assert(arg_views(args@) =~= dc_prefix(self.file@, opt_view(ov), self.name@)
                        + seq!["up"@, "--detach"@]);
                }
                Some(Cmd { program: self.command.clone(), args, capture: false })
            },
            OpX::Stop => {
                let mut args = dc_prefix_vec(&self.file, &ov, &self.name);
                push_str_tok(&mut args, "stop");
                proof {
                    assert(arg_views(args@) =~= dc_prefix(self.file@, opt_view(ov), self.name@)
                        + seq!["stop"@]);
                }
                Some(Cmd { program: self.command.clone(), args, capture: false })
            },
            OpX::Restart => {
                let mut args = dc_prefix_vec(&self.file, &ov, &self.name);
                push_str_tok(&mut args, "restart");
                proof {
                    assert(arg_views(args@) =~= dc_prefix(self.file@, opt_view(ov), self.name@)
                        + seq!["restart"@]);
                }
                Some(Cmd { program: self.command.clone(), args, capture: false })
            },
            OpX::Attach => {
                let mut args = dc_prefix_vec(&self.file, &ov, &self.name);
                push_str_tok(&mut args, "exec");
                push_str_tok(&mut args, "-u");
                push_tok(&mut args, self.user.clone());
                push_str_tok(&mut args, "-w");
                push_tok(&mut args, self.workspace_folder.clone());
                push_tok(&mut args, self.service.clone());
                push_str_tok(&mut args, "zsh");
                proof {
                    assert(arg_views(args@) =~= dc_prefix(self.file@, opt_view(ov), self.name@)
                        + seq![
                        "exec"@,
                        "-u"@,
                        self.user@,
                        "-w"@,
                        self.workspace_folder@,
                        self.service@,
                        "zsh"@,
                    ]);
                }
                Some(Cmd { program: self.command.clone(), args, capture: false })
            },
            OpX::Rm => {
                let mut args = dc_prefix_vec(&self.file, &ov, &self.name);
                push_down_toks(&mut args);
                Some(Cmd { program: self.command.clone(), args, capture: false })
            },
            OpX::Exists => {
                let none_ov: Option<String> = None;
                let mut args = dc_prefix_vec(&self.file, &none_ov, &self.name);
                push_str_tok(&mut args, "ps");
                push_str_tok(&mut args, "-aq");
                proof {
                    assert(arg_views(args@) =~= dc_prefix(self.file@, None, self.name@) + seq![
                        "ps"@,
                        "-aq"@,
                    ]);
                }
                Some(Cmd { program: self.command.clone(), args, capture: true })
            },
            OpX::Running => {
                let none_ov: Option<String> = None;
                let mut args = dc_prefix_vec(&self.file, &none_ov, &self.name);
                push_str_tok(&mut args, "ps");
                push_str_tok(&mut args, "-q");
                push_str_tok(&mut args, "--status=running");
                proof {
                    assert(arg_views(args@) =~= dc_prefix(self.file@, None, self.name@) + seq![
                        "ps"@,
                        "-q"@,
                        "--status=running"@,
                    ]);
                }
                Some(Cmd { program: self.command.clone(), args, capture: true })
            },
            OpX::Cp { source, dest } => {
                let mut args = dc_prefix_vec(&self.file, &ov, &self.name);
                push_str_tok(&mut args, "cp");
                push_tok(&mut args, source.clone());
                push_tok(&mut args, colon_string(&self.service, &dest));
                proof {
                    assert(arg_views(args@) =~= dc_prefix(self.file@, opt_view(ov), self.name@)
                        + cp_args(source@, self.service@, dest@));
                }
                Some(Cmd { program: self.command.clone(), args, capture: false })
            },
            OpX::Exec { command } => {
                let mut args = dc_prefix_vec(&self.file, &ov, &self.name);
                push_exec_toks(&mut args, &self.user, &self.workspace_folder, &self.service, command);
                Some(Cmd { program: self.command.clone(), args, capture: false })
            },
        }
    }
}

} // verus!
