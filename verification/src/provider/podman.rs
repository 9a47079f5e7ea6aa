//! The podman single-container backend.

use vstd::prelude::*;

use crate::command::opt_view;
use crate::command::Cmd;
use crate::command::CmdV;
use crate::provider::cp_args;
use crate::provider::op_is_query;
use crate::provider::single_build_args;
use crate::provider::single_build_cmd;
use crate::provider::single_cp_cmd;
use crate::provider::single_create_args;
use crate::provider::single_create_cmd;
use crate::provider::single_exec_args;
use crate::provider::single_exec_cmd;
use crate::provider::single_ps_args;
use crate::provider::single_ps_cmd;
use crate::provider::single_verb_cmd;
use crate::provider::verb_args;
use crate::provider::Op;
use crate::provider::OpX;
use crate::text::env_views;

verus! {

/// A single container driven by the podman command-line tool. Creation
/// keeps the host user's id mapping, disables SELinux labeling, and
/// forwards the host SSH agent inline when one is available.
pub struct Podman {
    /// `--build-arg` key/value pairs, in manifest order.
    pub build_args: Vec<(String, String)>,
    /// The backend program, `podman`.
    pub command: String,
    /// The project directory: build context and bind-mount source.
    pub directory: String,
    /// The Dockerfile path.
    pub file: String,
    /// Ports forwarded host:container, in manifest order.
    pub forward_ports: Vec<u16>,
    /// The identifier: container name and image tag stem.
    pub name: String,
    /// User-supplied creation flags.
    pub run_args: Vec<String>,
    /// The host SSH agent socket, when the environment defines one.
    pub ssh_auth_sock: Option<String>,
    /// The user lifecycle commands run as.
    pub user: String,
    /// The working directory inside the container.
    pub workspace_folder: String,
}

impl Podman {
    /// The command each operation translates to.
    pub open spec fn cmd_spec(&self, op: Op) -> CmdV {
        CmdV {
            program: self.command@,
            args: match op {
                Op::Build { use_cache } => single_build_args(
                    self.name@,
                    self.file@,
                    env_views(self.build_args@),
                    self.directory@,
                    use_cache,
                ),
                Op::Create { extra } => single_create_args(
                    true,
                    opt_view(self.ssh_auth_sock),
                    self.directory@,
                    self.workspace_folder@,
                    extra,
                    self.name@,
                    self.user@,
                ),
                Op::Start => verb_args("start"@, self.name@),
                Op::Stop => verb_args("stop"@, self.name@),
                Op::Restart => verb_args("restart"@, self.name@),
                Op::Attach => verb_args("attach"@, self.name@),
                Op::Rm => verb_args("rm"@, self.name@),
                Op::Exists => single_ps_args(true, self.name@),
                Op::Running => single_ps_args(false, self.name@),
                Op::Cp { source, dest } => cp_args(source, self.name@, dest),
                Op::Exec { command } => single_exec_args(
                    self.user@,
                    self.workspace_folder@,
                    self.name@,
                    command,
                ),
            },
            capture: op_is_query(op),
        }
    }

    /// Translates one operation into the podman command grammar.
    pub fn command_for(&self, op: OpX) -> (c: Cmd)
        ensures
            c@ == self.cmd_spec(op@),
    {
        match op {
            OpX::Build { use_cache } => single_build_cmd(
                &self.command,
                &self.name,
                &self.file,
                &self.build_args,
                &self.directory,
                use_cache,
            ),
            OpX::Create { extra } => single_create_cmd(
                &self.command,
                true,
                &self.ssh_auth_sock,
                &self.directory,
                &self.workspace_folder,
                &extra,
                &self.name,
                &self.user,
            ),
            OpX::Start => single_verb_cmd(&self.command, "start", &self.name),
            OpX::Stop => single_verb_cmd(&self.command, "stop", &self.name),
            OpX::Restart => single_verb_cmd(&self.command, "restart", &self.name),
            OpX::Attach => single_verb_cmd(&self.command, "attach", &self.name),
            OpX::Rm => single_verb_cmd(&self.command, "rm", &self.name),
            OpX::Exists => single_ps_cmd(&self.command, true, &self.name),
            OpX::Running => single_ps_cmd(&self.command, false, &self.name),
            OpX::Cp { source, dest } => single_cp_cmd(&self.command, &source, &self.name, &dest),
            OpX::Exec { command } => single_exec_cmd(
                &self.command,
                &self.user,
                &self.workspace_folder,
                &self.name,
                command,
            ),
        }
    }
}

} // verus!
