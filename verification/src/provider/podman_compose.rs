//! The podman-compose backend. Identity is a project name, creation is
//! folded into `up`, and every operation re-supplies the compose file.

use vstd::prelude::*;

use crate::command::Cmd;
use crate::command::CmdV;
use crate::provider::build_arg_tokens;
use crate::provider::colon_string;
use crate::provider::cp_args;
use crate::provider::down_tokens;
use crate::provider::nocache_tokens;
use crate::provider::op_is_query;
use crate::provider::pc_prefix;
use crate::provider::pc_prefix_vec;
use crate::provider::push_build_args;
use crate::provider::push_down_toks;
use crate::provider::push_exec_toks;
use crate::provider::push_str_tok;
use crate::provider::push_tok;
use crate::provider::single_exec_args;
use crate::provider::Op;
use crate::provider::OpX;
use crate::text::arg_views;
use crate::text::env_views;

verus! {

/// A compose stack driven by the podman-compose command-line tool.
pub struct PodmanCompose {
    /// `--build-arg` key/value pairs, in manifest order.
    pub build_args: Vec<(String, String)>,
    /// The backend program, `podman-compose`.
    pub command: String,
    /// The project directory.
    pub directory: String,
    /// The compose file path.
    pub file: String,
    /// The identifier: the compose project name.
    pub name: String,
    /// The plain podman program, for operations compose does not cover.
    pub podman_command: String,
    /// User-supplied creation flags.
    pub run_args: Vec<String>,
    /// The compose service lifecycle commands address.
    pub service: String,
    /// The user lifecycle commands run as.
    pub user: String,
    /// The working directory inside the service container.
    pub workspace_folder: String,
}

impl PodmanCompose {
    /// The command each operation translates to. Creation is a no-op.
    pub open spec fn cmd_spec(&self, op: Op) -> Option<CmdV> {
        match op {
            Op::Create { .. } => None,
            _ => Some(
                CmdV {
                    program: self.command@,
                    args: pc_prefix(self.file@, self.name@) + match op {
                        Op::Build { use_cache } => seq!["build"@] + nocache_tokens(use_cache)
                            + build_arg_tokens(env_views(self.build_args@)),
                        Op::Start => seq!["up"@, "--detach"@],
                        Op::Stop => seq!["stop"@],
                        Op::Restart => seq!["restart"@],
                        Op::Attach => seq![
                            "exec"@,
                            "-u"@,
                            self.user@,
                            "-w"@,
                            self.workspace_folder@,
                            self.service@,
                            "zsh"@,
                        ],
                        Op::Rm => down_tokens(),
                        Op::Exists => seq!["ps"@, "-aq"@],
                        Op::Running => seq!["ps"@, "-q"@],
                        Op::Cp { source, dest } => cp_args(source, self.name@, dest),
                        Op::Exec { command } => single_exec_args(
                            self.user@,
                            self.workspace_folder@,
                            self.service@,
                            command,
                        ),
                        Op::Create { .. } => Seq::<Seq<char>>::empty(),
                    },
                    capture: op_is_query(op),
                },
            ),
        }
    }

    /// Translates one operation into the podman-compose command grammar.
    pub fn command_for(&self, op: OpX) -> (c: Option<Cmd>)
        ensures
            match c {
                Some(cmd) => self.cmd_spec(op@) == Some(cmd@),
                None => self.cmd_spec(op@) is None && op@ is Create,
            },
    {
        match op {
            OpX::Create { .. } => None,
            OpX::Build { use_cache } => {
                let mut args = pc_prefix_vec(&self.file, &self.name);
                push_str_tok(&mut args, "build");
                if !use_cache {
                    push_str_tok(&mut args, "--no-cache");
                }
                push_build_args(&mut args, &self.build_args);
                proof {
                    assert(arg_views(args@) =~= pc_prefix(self.file@, self.name@) + (seq!["build"@]
                        + nocache_tokens(use_cache) + build_arg_tokens(
                        env_views(self.build_args@),
                    )));
                }
                Some(Cmd { program: self.command.clone(), args, capture: false })
            },
            OpX::Start => {
                let mut args = pc_prefix_vec(&self.file, &self.name);
                push_str_tok(&mut args, "up");
                push_str_tok(&mut args, "--detach");
                proof {
                    assert(arg_views(args@) =~= pc_prefix(self.file@, self.name@) + seq![
                        "up"@,
                        "--detach"@,
                    ]);
                }
                Some(Cmd { program: self.command.clone(), args, capture: false })
            },
            OpX::Stop => {
                let mut args = pc_prefix_vec(&self.file, &self.name);
                push_str_tok(&mut args, "stop");
                proof {
                    assert(arg_views(args@) =~= pc_prefix(self.file@, self.name@) + seq!["stop"@]);
                }
                Some(Cmd { program: self.command.clone(), args, capture: false })
            },
            OpX::Restart => {
                let mut args = pc_prefix_vec(&self.file, &self.name);
                push_str_tok(&mut args, "restart");
                proof {
                    assert(arg_views(args@) =~= pc_prefix(self.file@, self.name@) + seq![
                        "restart"@,
                    ]);
                }
                Some(Cmd { program: self.command.clone(), args, capture: false })
            },
            OpX::Attach => {
                let mut args = pc_prefix_vec(&self.file, &self.name);
                push_str_tok(&mut args, "exec");
                push_str_tok(&mut args, "-u");
                push_tok(&mut args, self.user.clone());
                push_str_tok(&mut args, "-w");
                push_tok(&mut args, self.workspace_folder.clone());
                push_tok(&mut args, self.service.clone());
                push_str_tok(&mut args, "zsh");
                proof {
                    assert(arg_views(args@) =~= pc_prefix(self.file@, self.name@) + seq![
                        "exec"@,
                        "-u"@,
                        self.user@,
                        "-w"@,
                        self.workspace_folder@,
                        self.service@,
                        "zsh"@,
                    ]);
                }
                Some(Cmd { program: self.command.clone(), args, capture: false })
            },
            OpX::Rm => {
                let mut args = pc_prefix_vec(&self.file, &self.name);
                push_down_toks(&mut args);
                Some(Cmd { program: self.command.clone(), args, capture: false })
            },
            OpX::Exists => {
                let mut args = pc_prefix_vec(&self.file, &self.name);
                push_str_tok(&mut args, "ps");
                push_str_tok(&mut args, "-aq");
                proof {
                    assert(arg_views(args@) =~= pc_prefix(self.file@, self.name@) + seq![
                        "ps"@,
                        "-aq"@,
                    ]);
                }
                Some(Cmd { program: self.command.clone(), args, capture: true })
            },
            OpX::Running => {
                let mut args = pc_prefix_vec(&self.file, &self.name);
                push_str_tok(&mut args, "ps");
                push_str_tok(&mut args, "-q");
                proof {
                    assert(arg_views(args@) =~= pc_prefix(self.file@, self.name@) + seq![
                        "ps"@,
                        "-q"@,
                    ]);
                }
                Some(Cmd { program: self.command.clone(), args, capture: true })
            },
            OpX::Cp { source, dest } => {
                let mut args = pc_prefix_vec(&self.file, &self.name);
                push_str_tok(&mut args, "cp");
                push_tok(&mut args, source.clone());
                push_tok(&mut args, colon_string(&self.name, &dest));
                proof {
                    assert(arg_views(args@) =~= pc_prefix(self.file@, self.name@) + cp_args(
                        source@,
                        self.name@,
                        dest@,
                    ));
                }
                Some(Cmd { program: self.command.clone(), args, capture: false })
            },
            OpX::Exec { command } => {
                let mut args = pc_prefix_vec(&self.file, &self.name);
                push_exec_toks(&mut args, &self.user, &self.workspace_folder, &self.service, command);
                Some(Cmd { program: self.command.clone(), args, capture: false })
            },
        }
    }
}

} // verus!
