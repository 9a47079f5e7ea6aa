//! The laws of the library: properties that relate several functions, or
//! hold of every trace the orchestrator can leave behind, stated and
//! proved over the same spec functions the functions' own contracts use.

use vstd::prelude::*;

use crate::command::CmdV;
use crate::command::EventV;
use crate::command::PathKind;
use crate::devcontainer::create_args_spec;
use crate::devcontainer::env_tokens;
use crate::devcontainer::parse_copy;
use crate::devcontainer::parse_create;
use crate::devcontainer::parse_dotfiles;
use crate::devcontainer::parse_finish;
use crate::devcontainer::parse_op;
use crate::devcontainer::parse_opt_exec;
use crate::devcontainer::parse_post_create;
use crate::devcontainer::parse_rebuild;
use crate::devcontainer::parse_run;
use crate::devcontainer::parse_start_phase;
use crate::devcontainer::port_tokens;
use crate::devcontainer::CopyOutcome;
use crate::devcontainer::Devcontainer;
use crate::errors::Error;
use crate::manifest::Config;
use crate::provider::kv_seq;
use crate::provider::Op;
use crate::text::arg_views;
use crate::text::env_views;
use crate::text::is_blank_seq;
use crate::text::port_pair;

verus! {

/// In every well-formed manifest exactly one of the Dockerfile and the
/// compose file is configured: one of `dockerfile()` and the compose file
/// reference is present and the other absent.
pub proof fn lemma_build_target_exclusive(c: Config)
    requires
        c.wf(),
    ensures
        (c.dockerfile_spec() is Some) != (c.docker_compose_file is Some),
{
}

/// The derived identifier is a pure function of the manifest's name:
/// two manifests with the same name get the same identifier, whatever
/// else they configure.
pub proof fn lemma_safe_name_pure(c1: Config, c2: Config)
    requires
        c1.name_seq() == c2.name_seq(),
    ensures
        crate::manifest::safe_name_seq(c1.name_seq()) == crate::manifest::safe_name_seq(
            c2.name_seq(),
        ),
{
}

/// The port mapping tokens: two per forwarded port, `-p` then the
/// `host:host` pair, in manifest order.
pub proof fn lemma_port_tokens_shape(ports: Seq<u16>)
    ensures
        port_tokens(ports).len() == 2 * ports.len(),
        forall|k: int| 0 <= k < ports.len() ==> #[trigger] port_tokens(ports)[2 * k] == "-p"@,
        forall|k: int| 0 <= k < ports.len() ==> port_tokens(ports)[2 * k + 1] == port_pair(
            #[trigger] ports[k],
        ),
    decreases ports.len(),
{
    if ports.len() > 0 {
        lemma_port_tokens_shape(ports.drop_last());
        assert forall|k: int| 0 <= k < ports.len() implies port_tokens(ports)[2 * k] == "-p"@
            && port_tokens(ports)[2 * k + 1] == port_pair(#[trigger] ports[k]) by {
            if k < ports.len() - 1 {
                assert(ports.drop_last()[k] == ports[k]);
            }
        }
    }
}

/// The environment tokens: two per entry, `-e` then the `KEY=VALUE`
/// pair, in manifest order.
pub proof fn lemma_env_tokens_shape(es: Seq<(Seq<char>, Seq<char>)>)
    ensures
        env_tokens(es).len() == 2 * es.len(),
        forall|k: int| 0 <= k < es.len() ==> #[trigger] env_tokens(es)[2 * k] == "-e"@,
        forall|k: int| 0 <= k < es.len() ==> env_tokens(es)[2 * k + 1] == kv_seq(
            (#[trigger] es[k]).0,
            es[k].1,
        ),
    decreases es.len(),
{
    if es.len() > 0 {
        lemma_env_tokens_shape(es.drop_last());
        assert forall|k: int| 0 <= k < es.len() implies env_tokens(es)[2 * k] == "-e"@
            && env_tokens(es)[2 * k + 1] == kv_seq((#[trigger] es[k]).0, es[k].1) by {
            if k < es.len() - 1 {
                assert(es.drop_last()[k] == es[k]);
            }
        }
    }
}

/// With no environment entries, the creation flags are exactly the port
/// mappings, the workspace working directory, and the user-supplied
/// flags: no `-e` token stems from the manifest's environment.
pub proof fn lemma_create_args_without_env(c: Config)
    requires
        c.remote_env@.len() == 0,
    ensures
        create_args_spec(c) == port_tokens(c.forward_ports@) + seq!["-w"@, c.workspace_folder@]
            + arg_views(c.run_args@),
{
    assert(env_views(c.remote_env@) =~= Seq::<(Seq<char>, Seq<char>)>::empty());
    assert(env_tokens(env_views(c.remote_env@)) =~= Seq::<Seq<char>>::empty());
    assert(create_args_spec(c) =~= port_tokens(c.forward_ports@) + seq![
        "-w"@,
        c.workspace_folder@,
    ] + arg_views(c.run_args@));
}

/// The creation flags put the port mappings first, in manifest order,
/// then the environment entries, then the workspace working directory,
/// then the user-supplied flags.
pub proof fn lemma_create_args_layout(c: Config)
    ensures
        create_args_spec(c).len() == 2 * c.forward_ports@.len() + 2 * c.remote_env@.len() + 2
            + c.run_args@.len(),
        forall|k: int| 0 <= k < c.forward_ports@.len() ==> create_args_spec(c)[2 * k] == "-p"@
            && create_args_spec(c)[2 * k + 1] == port_pair(#[trigger] c.forward_ports@[k]),
        forall|k: int| 0 <= k < c.remote_env@.len() ==> create_args_spec(c)[2 * c.forward_ports@.len()
            + 2 * k] == "-e"@ && create_args_spec(c)[2 * c.forward_ports@.len() + 2 * k + 1]
            == kv_seq((#[trigger] c.remote_env@[k]).0@, c.remote_env@[k].1@),
        create_args_spec(c)[2 * c.forward_ports@.len() as int + 2 * c.remote_env@.len() as int]
            == "-w"@,
        create_args_spec(c)[2 * c.forward_ports@.len() as int + 2 * c.remote_env@.len() as int + 1]
            == c.workspace_folder@,
        forall|k: int| 0 <= k < c.run_args@.len() ==> create_args_spec(c)[2 * c.forward_ports@.len()
            + 2 * c.remote_env@.len() + 2 + k] == (#[trigger] c.run_args@[k])@,
{
    lemma_port_tokens_shape(c.forward_ports@);
    lemma_env_tokens_shape(env_views(c.remote_env@));
    let p = c.forward_ports@.len() as int;
    assert forall|k: int| 0 <= k < c.remote_env@.len() implies create_args_spec(c)[2 * p + 2 * k]
        == "-e"@ && create_args_spec(c)[2 * p + 2 * k + 1] == kv_seq(
        (#[trigger] c.remote_env@[k]).0@,
        c.remote_env@[k].1@,
    ) by {
        let evs = env_views(c.remote_env@);
        assert(env_tokens(evs)[2 * k] == "-e"@);
        assert(env_tokens(evs)[2 * k + 1] == kv_seq(evs[k].0, evs[k].1));
        assert(evs[k] == (c.remote_env@[k].0@, c.remote_env@[k].1@));
    }
}

/// Among the flag positions — the even indices before the user-supplied
/// flags — `-p` appears exactly for the forwarded ports and `-e` exactly
/// for the environment entries: a manifest without environment entries
/// yields no `-e` flag, and no flag beyond the ports yields `-p`.
pub proof fn lemma_create_args_flag_positions(c: Config, t: int)
    requires
        0 <= t < 2 * c.forward_ports@.len() + 2 * c.remote_env@.len() + 2,
        t % 2 == 0,
    ensures
        (create_args_spec(c)[t] == "-p"@ <==> t < 2 * c.forward_ports@.len()),
        (create_args_spec(c)[t] == "-e"@ <==> 2 * c.forward_ports@.len() <= t < 2
            * c.forward_ports@.len() + 2 * c.remote_env@.len()),
{
    lemma_create_args_layout(c);
    reveal_strlit("-p");
    reveal_strlit("-e");
    reveal_strlit("-w");
    assert("-p"@.len() == 2 && "-p"@[1] == 'p');
    assert("-e"@.len() == 2 && "-e"@[1] == 'e');
    assert("-w"@.len() == 2 && "-w"@[1] == 'w');
    let p = c.forward_ports@.len() as int;
    let e = c.remote_env@.len() as int;
    if t < 2 * p {
        let k = t / 2;
        assert(t == 2 * k && 0 <= k < p);
        assert(port_pair(c.forward_ports@[k]) == port_pair(c.forward_ports@[k]));
        assert(create_args_spec(c)[2 * k] == "-p"@);
    } else if t < 2 * p + 2 * e {
        let k = (t - 2 * p) / 2;
        assert(t == 2 * p + 2 * k && 0 <= k < e);
        assert(c.remote_env@[k] == c.remote_env@[k]);
        assert(create_args_spec(c)[2 * p + 2 * k] == "-e"@);
    } else {
        assert(t == 2 * p + 2 * e);
        assert(create_args_spec(c)[t] == "-w"@);
    }
}

/// A rebuild queries the target's existence first, and issues the stop
/// and the removal — in that order, before the run — exactly when the
/// target exists; when it does not, the run begins at once with no stop
/// and no removal.
pub proof fn lemma_rebuild_stops_and_removes_first(
    d: Devcontainer,
    use_cache: bool,
    log: Seq<EventV>,
    i: int,
    end: int,
    r: Result<(), Error>,
)
    requires
        0 <= i <= log.len(),
        parse_rebuild(d, use_cache, log, i) == Some((end, r)),
    ensures
        parse_op(d, Op::Exists, log, i) is Some,
        (match parse_op(d, Op::Exists, log, i) {
            Some((j, rq)) => rq == Ok::<bool, Error>(true) ==> (match parse_op(
                d,
                Op::Stop,
                log,
                j,
            ) {
                Some((k, rs)) => rs is Ok ==> (match parse_op(d, Op::Rm, log, k) {
                    Some((m, rr)) => rr is Ok ==> parse_run(d, use_cache, log, m) == Some(
                        (end, r),
                    ),
                    None => false,
                }),
                None => false,
            }),
            None => false,
        }),
        (match parse_op(d, Op::Exists, log, i) {
            Some((j, rq)) => rq == Ok::<bool, Error>(false) ==> parse_run(d, use_cache, log, j)
                == Some((end, r)),
            None => false,
        }),
{
}

/// Whether a command is what the provider prescribes for an operation,
/// with an override path exactly when the operation consumes one.
pub open spec fn cmd_of_op(d: Devcontainer, op: Op, c: CmdV) -> bool {
    exists|ov: Option<Seq<char>>| #![auto]
        d.provider.needs_override_spec(op) == (ov is Some) && d.provider.cmd_spec(op, ov) == Some(
            c,
        )
}

/// The operations that provision a target: build, create and start.
pub open spec fn provisioning_op(op: Op) -> bool {
    op is Build || op is Create || op is Start
}

/// The operations that only observe or maintain a provisioned target.
pub open spec fn benign_op(op: Op) -> bool {
    op is Exec || op is Cp || op is Restart || op is Attach || op is Stop || op is Exists
        || op is Running
}

/// Whether a command is one of this provider's provisioning commands.
pub open spec fn is_provisioning_cmd(d: Devcontainer, c: CmdV) -> bool {
    exists|op: Op| #![auto] provisioning_op(op) && cmd_of_op(d, op, c)
}

/// Whether an event runs one of this provider's provisioning commands.
pub open spec fn is_provisioning_event(d: Devcontainer, e: EventV) -> bool {
    match e {
        EventV::Ran { cmd, .. } => is_provisioning_cmd(d, cmd),
        _ => false,
    }
}

/// Whether every command the event runs is some operation's command.
pub open spec fn ran_cmd_of_any(d: Devcontainer, e: EventV) -> bool {
    match e {
        EventV::Ran { cmd, .. } => exists|op: Op| #![auto] cmd_of_op(d, op, cmd),
        _ => true,
    }
}

/// Whether every command the event runs is a benign operation's command.
pub open spec fn ran_cmd_benign(d: Devcontainer, e: EventV) -> bool {
    match e {
        EventV::Ran { cmd, .. } => exists|op: Op| #![auto] benign_op(op) && cmd_of_op(d, op, cmd),
        _ => true,
    }
}

/// Two distinct roles give two distinct commands: a benign operation's
/// command never coincides with a provisioning operation's command. The
/// two are told apart by the capture flag for the listing queries and by
/// a fixed argument position otherwise.
proof fn lemma_benign_not_provisioning(d: Devcontainer, op1: Op, op2: Op, c1: CmdV, c2: CmdV)
    requires
        benign_op(op1),
        provisioning_op(op2),
        cmd_of_op(d, op1, c1),
        cmd_of_op(d, op2, c2),
    ensures
        c1 != c2,
{
    reveal_strlit("exec");
    reveal_strlit("cp");
    reveal_strlit("restart");
    reveal_strlit("attach");
    reveal_strlit("stop");
    reveal_strlit("build");
    reveal_strlit("create");
    reveal_strlit("start");
    reveal_strlit("up");
    // every pair of a benign head token and a provisioning head token is
    // told apart by its length or its first character
    assert("exec"@.len() == 4 && "exec"@[0] == 'e');
    assert("cp"@.len() == 2 && "cp"@[0] == 'c');
    assert("restart"@.len() == 7 && "restart"@[0] == 'r');
    assert("attach"@.len() == 6 && "attach"@[0] == 'a');
    assert("stop"@.len() == 4 && "stop"@[0] == 's');
    assert("build"@.len() == 5 && "build"@[0] == 'b');
    assert("create"@.len() == 6 && "create"@[0] == 'c');
    assert("start"@.len() == 5 && "start"@[0] == 's');
    assert("up"@.len() == 2 && "up"@[0] == 'u');
    let ov1 = choose|ov: Option<Seq<char>>| #![auto]
        d.provider.needs_override_spec(op1) == (ov is Some) && d.provider.cmd_spec(op1, ov)
            == Some(c1);
    let ov2 = choose|ov: Option<Seq<char>>| #![auto]
        d.provider.needs_override_spec(op2) == (ov is Some) && d.provider.cmd_spec(op2, ov)
            == Some(c2);
    match d.provider {
        crate::provider::Backend::Docker(_) | crate::provider::Backend::Podman(_) => {
            assert(!c2.capture);
            assert(c2.args.len() > 0 && (c2.args[0] == "build"@ || c2.args[0] == "create"@
                || c2.args[0] == "start"@));
            if op1 is Exists || op1 is Running {
                assert(c1.capture);
            } else {
                assert(c1.args.len() > 0 && (c1.args[0] == "exec"@ || c1.args[0] == "cp"@
                    || c1.args[0] == "restart"@ || c1.args[0] == "attach"@ || c1.args[0]
                    == "stop"@));
                assert(c1.args[0] != c2.args[0]);
            }
        },
        crate::provider::Backend::DockerCompose(_) => {
            assert(!(op2 is Create));
            assert(!c2.capture);
            assert(c2.args.len() > 7 && (c2.args[7] == "build"@ || c2.args[7] == "up"@));
            if op1 is Exists || op1 is Running {
                assert(c1.capture);
            } else {
                assert(c1.args.len() > 7 && (c1.args[7] == "exec"@ || c1.args[7] == "cp"@
                    || c1.args[7] == "restart"@ || c1.args[7] == "stop"@));
                assert(c1.args[7] != c2.args[7]);
            }
        },
        crate::provider::Backend::PodmanCompose(_) => {
            assert(!(op2 is Create));
            assert(!c2.capture);
            assert(c2.args.len() > 4 && (c2.args[4] == "build"@ || c2.args[4] == "up"@));
            if op1 is Exists || op1 is Running {
                assert(c1.capture);
            } else {
                assert(c1.args.len() > 4 && (c1.args[4] == "exec"@ || c1.args[4] == "cp"@
                    || c1.args[4] == "restart"@ || c1.args[4] == "stop"@));
                assert(c1.args[4] != c2.args[4]);
            }
        },
    }
}

/// A benign operation's command is never a provisioning command.
proof fn lemma_benign_cmd_not_provisioning(d: Devcontainer, op1: Op, c: CmdV)
    requires
        benign_op(op1),
        cmd_of_op(d, op1, c),
    ensures
        !is_provisioning_cmd(d, c),
{
    assert forall|op2: Op| provisioning_op(op2) implies !cmd_of_op(d, op2, c) by {
        if cmd_of_op(d, op2, c) {
            lemma_benign_not_provisioning(d, op1, op2, c, c);
        }
    }
}

/// An event that runs a benign command is no provisioning event.
proof fn lemma_benign_event_not_provisioning(d: Devcontainer, e: EventV)
    requires
        ran_cmd_benign(d, e),
    ensures
        !is_provisioning_event(d, e),
{
    match e {
        EventV::Ran { cmd, .. } => {
            let op1 = choose|op: Op| #![auto] benign_op(op) && cmd_of_op(d, op, cmd);
            lemma_benign_cmd_not_provisioning(d, op1, cmd);
        },
        _ => {},
    }
}

/// Every event one operation leaves behind runs that operation's command
/// — or runs nothing at all.
proof fn lemma_op_events(d: Devcontainer, op: Op, log: Seq<EventV>, i: int, j: int, r: Result<
    bool,
    Error,
>)
    requires
        0 <= i,
        parse_op(d, op, log, i) == Some((j, r)),
    ensures
        i <= j,
        forall|k: int| i <= k < j ==> #[trigger] ran_cmd_of_any(d, log[k]),
        benign_op(op) ==> forall|k: int| i <= k < j ==> #[trigger] ran_cmd_benign(d, log[k]),
{
    if d.provider.op_is_noop(op) {
    } else if d.provider.needs_override_spec(op) {
        match log[i] {
            EventV::Wrote { contents, dest } => {
                match dest {
                    None => {},
                    Some(p) => {
                        match log[i + 1] {
                            EventV::Ran { cmd, reply } => {
                                assert(d.provider.needs_override_spec(op) == (Some(p) is Some)
                                    && d.provider.cmd_spec(op, Some(p)) == Some(cmd));
                                assert(cmd_of_op(d, op, cmd));
                            },
                            _ => {},
                        }
                    },
                }
            },
            _ => {},
        }
    } else {
        match log[i] {
            EventV::Ran { cmd, reply } => {
                assert(d.provider.needs_override_spec(op) == (None::<Seq<char>> is Some)
                    && d.provider.cmd_spec(op, None) == Some(cmd));
                assert(cmd_of_op(d, op, cmd));
            },
            _ => {},
        }
    }
}

/// Every event a file injection leaves behind runs a benign command or
/// runs nothing.
proof fn lemma_copy_events(
    d: Devcontainer,
    src: Seq<char>,
    dest: Seq<char>,
    log: Seq<EventV>,
    i: int,
    j: int,
    r: Result<CopyOutcome, Error>,
)
    requires
        0 <= i,
        parse_copy(d, src, dest, log, i) == Some((j, r)),
    ensures
        i <= j,
        forall|k: int| i <= k < j ==> #[trigger] ran_cmd_benign(d, log[k]),
{
    match log[i] {
        EventV::PathChecked { path, kind } => {
            if kind != PathKind::Missing {
                let basedir = crate::text::parent_seq(dest);
                let destination = if kind == PathKind::Dir {
                    basedir
                } else {
                    dest
                };
                let mk = Op::Exec { command: crate::devcontainer::mkdir_cmd_seq(basedir) };
                match parse_op(d, mk, log, i + 1) {
                    Some((j1, r1)) => {
                        lemma_op_events(d, mk, log, i + 1, j1, r1);
                        if r1 is Ok {
                            let cp = Op::Cp { source: src, dest: destination };
                            match parse_op(d, cp, log, j1) {
                                Some((j2, r2)) => {
                                    lemma_op_events(d, cp, log, j1, j2, r2);
                                },
                                None => {},
                            }
                        }
                    },
                    None => {},
                }
            }
        },
        _ => {},
    }
}

/// Every event the dotfile injection leaves behind runs a benign command
/// or runs nothing.
proof fn lemma_dotfiles_events(
    d: Devcontainer,
    k0: int,
    log: Seq<EventV>,
    i: int,
    j: int,
    r: Result<(), Error>,
)
    requires
        0 <= i,
        parse_dotfiles(d, k0, log, i) == Some((j, r)),
    ensures
        i <= j,
        forall|k: int| i <= k < j ==> #[trigger] ran_cmd_benign(d, log[k]),
    decreases d.settings.dotfiles@.len() - k0,
{
    if k0 >= d.settings.dotfiles@.len() {
    } else {
        let src = d.dotfile_sources@[k0]@;
        let dst = crate::devcontainer::dotfile_dest_seq(
            d.config.remote_user@,
            d.settings.dotfiles@[k0]@,
        );
        match parse_copy(d, src, dst, log, i) {
            Some((j1, r1)) => {
                lemma_copy_events(d, src, dst, log, i, j1, r1);
                if r1 is Ok {
                    lemma_dotfiles_events(d, k0 + 1, log, j1, j, r);
                }
            },
            None => {},
        }
    }
}

/// Every event an optional lifecycle command leaves behind runs a benign
/// command or runs nothing.
proof fn lemma_opt_exec_events(
    d: Devcontainer,
    c: Option<Seq<char>>,
    log: Seq<EventV>,
    i: int,
    j: int,
    r: Result<(), Error>,
)
    requires
        0 <= i,
        parse_opt_exec(d, c, log, i) == Some((j, r)),
    ensures
        i <= j,
        forall|k: int| i <= k < j ==> #[trigger] ran_cmd_benign(d, log[k]),
{
    match c {
        None => {},
        Some(cmd) => {
            match parse_op(d, Op::Exec { command: cmd }, log, i) {
                Some((j1, r1)) => {
                    lemma_op_events(d, Op::Exec { command: cmd }, log, i, j1, r1);
                },
                None => {},
            }
        },
    }
}

/// Every event the post-create injection leaves behind runs a benign
/// command or runs nothing.
proof fn lemma_post_create_events(
    d: Devcontainer,
    log: Seq<EventV>,
    i: int,
    j: int,
    r: Result<(), Error>,
)
    requires
        0 <= i,
        parse_post_create(d, log, i) == Some((j, r)),
    ensures
        i <= j,
        forall|k: int| i <= k < j ==> #[trigger] ran_cmd_benign(d, log[k]),
{
    let oc = crate::command::opt_view(d.config.on_create_command);
    let uc = crate::command::opt_view(d.config.update_content_command);
    let pc = crate::command::opt_view(d.config.post_create_command);
    match parse_opt_exec(d, oc, log, i) {
        Some((j1, r1)) => {
            lemma_opt_exec_events(d, oc, log, i, j1, r1);
            if r1 is Ok {
                match parse_opt_exec(d, uc, log, j1) {
                    Some((j2, r2)) => {
                        lemma_opt_exec_events(d, uc, log, j1, j2, r2);
                        if r2 is Ok {
                            match parse_opt_exec(d, pc, log, j2) {
                                Some((j3, r3)) => {
                                    lemma_opt_exec_events(d, pc, log, j2, j3, r3);
                                    if r3 is Ok {
                                        let gdest = crate::devcontainer::gitconfig_dest_seq(
                                            d.config.remote_user@,
                                        );
                                        match parse_copy(d, d.gitconfig_source@, gdest, log, j3) {
                                            Some((j4, r4)) => {
                                                lemma_copy_events(
                                                    d,
                                                    d.gitconfig_source@,
                                                    gdest,
                                                    log,
                                                    j3,
                                                    j4,
                                                    r4,
                                                );
                                                if r4 is Ok {
                                                    match parse_dotfiles(d, 0, log, j4) {
                                                        Some((j5, r5)) => {
                                                            lemma_dotfiles_events(
                                                                d,
                                                                0,
                                                                log,
                                                                j4,
                                                                j5,
                                                                r5,
                                                            );
                                                        },
                                                        None => {},
                                                    }
                                                }
                                            },
                                            None => {},
                                        }
                                    }
                                },
                                None => {},
                            }
                        }
                    },
                    None => {},
                }
            }
        },
        None => {},
    }
}

/// Every event the closing phase leaves behind runs a benign command or
/// runs nothing.
proof fn lemma_finish_events(d: Devcontainer, log: Seq<EventV>, i: int, j: int, r: Result<
    (),
    Error,
>)
    requires
        0 <= i,
        parse_finish(d, log, i) == Some((j, r)),
    ensures
        i <= j,
        forall|k: int| i <= k < j ==> #[trigger] ran_cmd_benign(d, log[k]),
{
    match parse_op(d, Op::Restart, log, i) {
        Some((j1, r1)) => {
            lemma_op_events(d, Op::Restart, log, i, j1, r1);
            if r1 is Ok {
                match parse_op(d, Op::Attach, log, j1) {
                    Some((j2, r2)) => {
                        lemma_op_events(d, Op::Attach, log, j1, j2, r2);
                        if r2 is Ok && d.config.shutdown_spec()
                            != crate::manifest::ShutdownAction::LeaveRunning {
                            match parse_op(d, Op::Stop, log, j2) {
                                Some((j3, r3)) => {
                                    lemma_op_events(d, Op::Stop, log, j2, j3, r3);
                                },
                                None => {},
                            }
                        }
                    },
                    None => {},
                }
            }
        },
        None => {},
    }
}

/// Every event the provisioning phase leaves behind runs some operation's
/// command or runs nothing.
proof fn lemma_create_events(
    d: Devcontainer,
    use_cache: bool,
    log: Seq<EventV>,
    i: int,
    j: int,
    r: Result<(), Error>,
)
    requires
        0 <= i,
        parse_create(d, use_cache, log, i) == Some((j, r)),
    ensures
        i <= j,
        forall|k: int| i <= k < j ==> #[trigger] ran_cmd_of_any(d, log[k]),
{
    match parse_op(d, Op::Exists, log, i) {
        Some((j1, rq)) => {
            lemma_op_events(d, Op::Exists, log, i, j1, rq);
            if rq == Ok::<bool, Error>(false) {
                match parse_op(d, Op::Build { use_cache }, log, j1) {
                    Some((j2, rb)) => {
                        lemma_op_events(d, Op::Build { use_cache }, log, j1, j2, rb);
                        if rb is Ok {
                            let cr = Op::Create { extra: create_args_spec(d.config) };
                            match parse_op(d, cr, log, j2) {
                                Some((j3, rc)) => {
                                    lemma_op_events(d, cr, log, j2, j3, rc);
                                },
                                None => {},
                            }
                        }
                    },
                    None => {},
                }
            }
        },
        None => {},
    }
}

/// Every event the start phase leaves behind runs some operation's
/// command or runs nothing.
proof fn lemma_start_phase_events(
    d: Devcontainer,
    log: Seq<EventV>,
    i: int,
    j: int,
    r: Result<(), Error>,
)
    requires
        0 <= i,
        parse_start_phase(d, log, i) == Some((j, r)),
    ensures
        i <= j,
        forall|k: int| i <= k < j ==> #[trigger] ran_cmd_of_any(d, log[k]),
{
    match parse_op(d, Op::Running, log, i) {
        Some((j1, rq)) => {
            lemma_op_events(d, Op::Running, log, i, j1, rq);
            if rq == Ok::<bool, Error>(false) {
                match parse_op(d, Op::Start, log, j1) {
                    Some((j2, rs)) => {
                        lemma_op_events(d, Op::Start, log, j1, j2, rs);
                    },
                    None => {},
                }
            }
        },
        None => {},
    }
}

/// Every event a full run leaves behind runs some operation's command or
/// runs nothing.
proof fn lemma_run_events(
    d: Devcontainer,
    use_cache: bool,
    log: Seq<EventV>,
    i: int,
    j: int,
    r: Result<(), Error>,
)
    requires
        0 <= i,
        parse_run(d, use_cache, log, i) == Some((j, r)),
    ensures
        i <= j,
        forall|k: int| i <= k < j ==> #[trigger] ran_cmd_of_any(d, log[k]),
{
    match parse_create(d, use_cache, log, i) {
        Some((j1, r1)) => {
            lemma_create_events(d, use_cache, log, i, j1, r1);
            if r1 is Ok {
                match parse_start_phase(d, log, j1) {
                    Some((j2, r2)) => {
                        lemma_start_phase_events(d, log, j1, j2, r2);
                        if r2 is Ok {
                            match parse_post_create(d, log, j2) {
                                Some((j3, r3)) => {
                                    lemma_post_create_events(d, log, j2, j3, r3);
                                    assert forall|k: int| j2 <= k < j3 implies #[trigger]
                                        ran_cmd_of_any(d, log[k]) by {
                                        assert(ran_cmd_benign(d, log[k]));
                                        match log[k] {
                                            EventV::Ran { cmd, .. } => {
                                                let op = choose|op: Op| #![auto]
                                                    benign_op(op) && cmd_of_op(d, op, cmd);
                                                assert(cmd_of_op(d, op, cmd));
                                            },
                                            _ => {},
                                        }
                                    }
                                    if r3 is Ok {
                                        match parse_finish(d, log, j3) {
                                            Some((j4, r4)) => {
                                                lemma_finish_events(d, log, j3, j4, r4);
                                                assert forall|k: int| j3 <= k < j4 implies
                                                    #[trigger] ran_cmd_of_any(d, log[k]) by {
                                                    assert(ran_cmd_benign(d, log[k]));
                                                    match log[k] {
                                                        EventV::Ran { cmd, .. } => {
                                                            let op = choose|op: Op| #![auto]
                                                                benign_op(op) && cmd_of_op(
                                                                    d,
                                                                    op,
                                                                    cmd,
                                                                );
                                                            assert(cmd_of_op(d, op, cmd));
                                                        },
                                                        _ => {},
                                                    }
                                                }
                                            },
                                            None => {},
                                        }
                                    }
                                },
                                None => {},
                            }
                        }
                    },
                    None => {},
                }
            }
        },
        None => {},
    }
}

/// Against a target that already exists and already runs, a run performs
/// no build, no create and no start: after the two affirmative queries
/// only the post-create injection, the restart, the attach and the
/// optional stop remain, none of which issues a provisioning command.
pub proof fn lemma_run_idempotent_when_live(
    d: Devcontainer,
    use_cache: bool,
    log: Seq<EventV>,
    i: int,
    end: int,
    r: Result<(), Error>,
)
    requires
        0 <= i <= log.len(),
        parse_run(d, use_cache, log, i) == Some((end, r)),
        // the backend answered the existence query: the target is there
        (match log[i] {
            EventV::Ran { reply: crate::command::ReplyV::Done { output, .. }, .. } => !is_blank_seq(
                output,
            ),
            _ => false,
        }),
        // and the running query: it is live
        i + 1 < log.len(),
        (match log[i + 1] {
            EventV::Ran { reply: crate::command::ReplyV::Done { output, .. }, .. } => !is_blank_seq(
                output,
            ),
            _ => false,
        }),
    ensures
        forall|k: int| i <= k < end ==> !is_provisioning_event(d, #[trigger] log[k]),
{
    assert(!d.provider.op_is_noop(Op::Exists));
    assert(!d.provider.needs_override_spec(Op::Exists));
    assert(parse_op(d, Op::Exists, log, i) == Some((i + 1, Ok::<bool, Error>(true))));
    assert(parse_create(d, use_cache, log, i) == Some((i + 1, Ok::<(), Error>(()))));
    assert(parse_op(d, Op::Running, log, i + 1) == Some((i + 2, Ok::<bool, Error>(true))));
    assert(parse_start_phase(d, log, i + 1) == Some((i + 2, Ok::<(), Error>(()))));
    match parse_post_create(d, log, i + 2) {
        Some((j3, r3)) => {
            lemma_post_create_events(d, log, i + 2, j3, r3);
            if r3 is Ok {
                match parse_finish(d, log, j3) {
                    Some((j4, r4)) => {
                        lemma_finish_events(d, log, j3, j4, r4);
                    },
                    None => {},
                }
            }
            assert forall|k: int| i <= k < end implies !is_provisioning_event(
                d,
                #[trigger] log[k],
            ) by {
                if k == i {
                    lemma_op_events(d, Op::Exists, log, i, i + 1, Ok(true));
                    assert(ran_cmd_benign(d, log[i]));
                    lemma_benign_event_not_provisioning(d, log[k]);
                } else if k == i + 1 {
                    lemma_op_events(d, Op::Running, log, i + 1, i + 2, Ok(true));
                    assert(ran_cmd_benign(d, log[k]));
                    lemma_benign_event_not_provisioning(d, log[k]);
                } else {
                    assert(ran_cmd_benign(d, log[k]));
                    lemma_benign_event_not_provisioning(d, log[k]);
                }
            }
        },
        None => {},
    }
}

/// A compose manifest routes exclusively through a compose backend, and
/// no command of a whole run is the single-container `create`: every
/// command the trace runs leads with the compose grammar's own tokens.
#[verifier::rlimit(60)]
pub proof fn lemma_compose_never_creates(
    d: Devcontainer,
    use_cache: bool,
    log: Seq<EventV>,
    i: int,
    end: int,
    r: Result<(), Error>,
)
    requires
        0 <= i <= log.len(),
        parse_run(d, use_cache, log, i) == Some((end, r)),
        d.provider.is_compose_backend(),
    ensures
        forall|k: int| i <= k < end ==> (match #[trigger] log[k] {
            EventV::Ran { cmd, .. } => cmd.args.len() > 0 && cmd.args[0] != "create"@,
            _ => true,
        }),
{
    reveal_strlit("compose");
    reveal_strlit("-f");
    reveal_strlit("create");
    lemma_run_events(d, use_cache, log, i, end, r);
    assert forall|k: int| i <= k < end implies (match #[trigger] log[k] {
        EventV::Ran { cmd, .. } => cmd.args.len() > 0 && cmd.args[0] != "create"@,
        _ => true,
    }) by {
        match log[k] {
            EventV::Ran { cmd, .. } => {
                assert(ran_cmd_of_any(d, log[k]));
                let op = choose|op: Op| #![auto] cmd_of_op(d, op, cmd);
                let ov = choose|ov: Option<Seq<char>>| #![auto]
                    d.provider.needs_override_spec(op) == (ov is Some) && d.provider.cmd_spec(
                        op,
                        ov,
                    ) == Some(cmd);
                match d.provider {
                    crate::provider::Backend::DockerCompose(_) => {
                        assert(cmd.args.len() > 0 && cmd.args[0] == "compose"@);
                    },
                    crate::provider::Backend::PodmanCompose(_) => {
                        assert(cmd.args.len() > 0 && cmd.args[0] == "-f"@);
                    },
                    _ => {},
                }
            },
            _ => {},
        }
    }
}

/// A file injection whose host source is missing is skipped: its outcome
/// is the non-error skip, it ends with the host check, and no command —
/// in particular no copy — reaches the backend.
pub proof fn lemma_copy_missing_is_skipped(
    d: Devcontainer,
    src: Seq<char>,
    dest: Seq<char>,
    log: Seq<EventV>,
    i: int,
    end: int,
    r: Result<CopyOutcome, Error>,
)
    requires
        0 <= i <= log.len(),
        parse_copy(d, src, dest, log, i) == Some((end, r)),
        log[i] matches EventV::PathChecked { kind: PathKind::Missing, .. },
    ensures
        r == Ok::<CopyOutcome, Error>(CopyOutcome::Skipped),
        end == i + 1,
        forall|k: int| i <= k < end ==> !(#[trigger] log[k] matches EventV::Ran { .. }),
{
}

} // verus!
