//! The backend providers: a closed set of four variants that translate the
//! fixed lifecycle operation contract into the command grammar of the
//! backing tool. Everything here is pure: a provider turns an operation
//! into a [`Cmd`]; it never runs one.

use vstd::prelude::*;

use crate::command::Cmd;
use crate::command::CmdV;
use crate::text::arg_views;
use crate::text::env_views;
use crate::text::lemma_arg_views_push;

pub mod docker;
pub mod docker_compose;
pub mod podman;
pub mod podman_compose;

use docker::Docker;
use docker_compose::DockerCompose;
use podman::Podman;
use podman_compose::PodmanCompose;

verus! {

/// One lifecycle operation, with its payload.
pub enum OpX {
    /// Build the image or stack; `use_cache == false` forces a clean build.
    Build {
        /// Whether the backend may reuse cached layers.
        use_cache: bool,
    },
    /// Materialize the container from the built image, without starting it.
    Create {
        /// The backend-agnostic creation flags, from the manifest.
        extra: Vec<String>,
    },
    /// Start the existing container or stack.
    Start,
    /// Stop the running container or stack.
    Stop,
    /// Restart the container or stack.
    Restart,
    /// Take over the primary shell interactively.
    Attach,
    /// Destroy the container or stack.
    Rm,
    /// Query whether the target exists at all.
    Exists,
    /// Query whether the target is currently running.
    Running,
    /// Copy a host path into the target.
    Cp {
        /// The host source path.
        source: String,
        /// The destination path inside the target.
        dest: String,
    },
    /// Run a shell command inside the target.
    Exec {
        /// The shell command.
        command: String,
    },
}

/// The mathematical value of a lifecycle operation.
pub enum Op {
    /// Build the image or stack.
    Build {
        /// Whether cached layers may be reused.
        use_cache: bool,
    },
    /// Materialize the container.
    Create {
        /// The creation flags.
        extra: Seq<Seq<char>>,
    },
    /// Start the target.
    Start,
    /// Stop the target.
    Stop,
    /// Restart the target.
    Restart,
    /// Attach to the target.
    Attach,
    /// Destroy the target.
    Rm,
    /// Query existence.
    Exists,
    /// Query running state.
    Running,
    /// Copy into the target.
    Cp {
        /// The host source path.
        source: Seq<char>,
        /// The destination inside the target.
        dest: Seq<char>,
    },
    /// Run a shell command inside the target.
    Exec {
        /// The shell command.
        command: Seq<char>,
    },
}

impl View for OpX {
    type V = Op;

    open spec fn view(&self) -> Op {
        match self {
            OpX::Build { use_cache } => Op::Build { use_cache: *use_cache },
            OpX::Create { extra } => Op::Create { extra: arg_views(extra@) },
            OpX::Start => Op::Start,
            OpX::Stop => Op::Stop,
            OpX::Restart => Op::Restart,
            OpX::Attach => Op::Attach,
            OpX::Rm => Op::Rm,
            OpX::Exists => Op::Exists,
            OpX::Running => Op::Running,
            OpX::Cp { source, dest } => Op::Cp { source: source@, dest: dest@ },
            OpX::Exec { command } => Op::Exec { command: command@ },
        }
    }
}

/// Whether an operation must report success for the lifecycle to go on.
/// Build, create and start abort the remaining sequence when they fail;
/// the other operations are best-effort and only surface their flag.
pub open spec fn op_must_succeed(op: Op) -> bool {
    op is Build || op is Create || op is Start
}

/// Whether an operation is a query whose captured output carries the
/// answer.
pub open spec fn op_is_query(op: Op) -> bool {
    op is Exists || op is Running
}

/// The image tag for a single-container build.
pub open spec fn tag_seq(name: Seq<char>) -> Seq<char> {
    "devcon/"@ + name
}

/// A `KEY=VALUE` token.
pub open spec fn kv_seq(k: Seq<char>, v: Seq<char>) -> Seq<char> {
    k + "="@ + v
}

/// The `--build-arg KEY=VALUE` token pairs for a build-argument listing,
/// in listing order.
pub open spec fn build_arg_tokens(pairs: Seq<(Seq<char>, Seq<char>)>) -> Seq<Seq<char>>
    decreases pairs.len(),
{
    if pairs.len() == 0 {
        Seq::<Seq<char>>::empty()
    } else {
        build_arg_tokens(pairs.drop_last()) + seq![
            "--build-arg"@,
            kv_seq(pairs.last().0, pairs.last().1),
        ]
    }
}

/// The `--no-cache` token, present exactly when the cache is bypassed.
pub open spec fn nocache_tokens(use_cache: bool) -> Seq<Seq<char>> {
    if use_cache {
        Seq::<Seq<char>>::empty()
    } else {
        seq!["--no-cache"@]
    }
}

/// The bind-mount argument tying the project directory to the workspace
/// folder inside the target.
pub open spec fn bind_seq(dir: Seq<char>, wsf: Seq<char>) -> Seq<char> {
    "type=bind,source="@ + dir + ",target="@ + wsf
}

/// The name filter for listing queries.
pub open spec fn filter_seq(name: Seq<char>) -> Seq<char> {
    "name="@ + name
}

/// Two parts joined by a colon, as in `target:path` copy destinations.
pub open spec fn colon_seq(a: Seq<char>, b: Seq<char>) -> Seq<char> {
    a + seq![':'] + b
}

/// The inline SSH-agent forwarding flags: present exactly when the host
/// defines an agent socket.
pub open spec fn ssh_tokens(ssh: Option<Seq<char>>) -> Seq<Seq<char>> {
    match ssh {
        Some(sock) => seq![
            "--volume"@,
            sock + ":/ssh-agent"@,
            "--env"@,
            "SSH_AUTH_SOCK=/ssh-agent"@,
        ],
        None => Seq::<Seq<char>>::empty(),
    }
}

/// The podman hardening flags: user-namespace mapping and SELinux labeling
/// are relaxed so host UID mapping and volume access work unprivileged.
pub open spec fn hardening_tokens(podman: bool) -> Seq<Seq<char>> {
    if podman {
        seq!["--userns=keep-id"@, "--security-opt"@, "label=disable"@]
    } else {
        Seq::<Seq<char>>::empty()
    }
}

/// The arguments of a single-container build.
pub open spec fn single_build_args(
    name: Seq<char>,
    file: Seq<char>,
    build_args: Seq<(Seq<char>, Seq<char>)>,
    dir: Seq<char>,
    use_cache: bool,
) -> Seq<Seq<char>> {
    seq!["build"@, "-t"@, tag_seq(name), "-f"@, file] + nocache_tokens(use_cache)
        + build_arg_tokens(build_args) + seq![dir]
}

/// The arguments of a single-container creation.
pub open spec fn single_create_args(
    podman_hardening: bool,
    ssh: Option<Seq<char>>,
    dir: Seq<char>,
    wsf: Seq<char>,
    extra: Seq<Seq<char>>,
    name: Seq<char>,
    user: Seq<char>,
) -> Seq<Seq<char>> {
    seq!["create"@] + hardening_tokens(podman_hardening) + seq!["--mount"@, bind_seq(dir, wsf)]
        + ssh_tokens(ssh) + extra + seq![
        "-it"@,
        "--name"@,
        name,
        "-u"@,
        user,
        "-w"@,
        wsf,
        tag_seq(name),
        "zsh"@,
    ]
}

/// The arguments of a `verb <name>` lifecycle transition.
pub open spec fn verb_args(verb: Seq<char>, name: Seq<char>) -> Seq<Seq<char>> {
    seq![verb, name]
}

/// The arguments of a single-container listing query.
pub open spec fn single_ps_args(all: bool, name: Seq<char>) -> Seq<Seq<char>> {
    seq!["ps"@, if all { "-aq"@ } else { "-q"@ }, "--filter"@, filter_seq(name)]
}

/// The arguments of a copy into the target.
pub open spec fn cp_args(source: Seq<char>, target: Seq<char>, dest: Seq<char>) -> Seq<Seq<char>> {
    seq!["cp"@, source, colon_seq(target, dest)]
}

/// The arguments of an in-target shell command.
pub open spec fn single_exec_args(
    user: Seq<char>,
    wsf: Seq<char>,
    target: Seq<char>,
    command: Seq<char>,
) -> Seq<Seq<char>> {
    seq!["exec"@, "-u"@, user, "-w"@, wsf, target, "sh"@, "-c"@, command]
}

/// Appends one token.
pub fn push_tok(args: &mut Vec<String>, s: String)
    ensures
        arg_views(final(args)@) == arg_views(old(args)@).push(s@),
{
    let ghost prev = args@;
    args.push(s);
    proof {
        lemma_arg_views_push(prev, s);
    }
}

/// Appends one literal token.
pub fn push_str_tok(args: &mut Vec<String>, s: &str)
    ensures
        arg_views(final(args)@) == arg_views(old(args)@).push(s@),
{
    push_tok(args, String::from_str(s));
}

/// A `KEY=VALUE` token.
pub fn kv_string(k: &String, v: &String) -> (r: String)
    ensures
        r@ == kv_seq(k@, v@),
{
    let mut r = k.clone();
    r.append("=");
    r.append(v.as_str());
    r
}

/// The image tag for a single-container build.
pub fn tag_string(name: &String) -> (r: String)
    ensures
        r@ == tag_seq(name@),
{
    let mut r = String::from_str("devcon/");
    r.append(name.as_str());
    r
}

/// The bind-mount argument for the project directory.
pub fn bind_string(dir: &String, wsf: &String) -> (r: String)
    ensures
        r@ == bind_seq(dir@, wsf@),
{
    let mut r = String::from_str("type=bind,source=");
    r.append(dir.as_str());
    r.append(",target=");
    r.append(wsf.as_str());
    r
}

/// The name filter for listing queries.
pub fn filter_string(name: &String) -> (r: String)
    ensures
        r@ == filter_seq(name@),
{
    let mut r = String::from_str("name=");
    r.append(name.as_str());
    r
}

/// Two parts joined by a colon.
pub fn colon_string(a: &String, b: &String) -> (r: String)
    ensures
        r@ == colon_seq(a@, b@),
{
    let mut r = a.clone();
    crate::text::push_char(&mut r, ':');
    r.append(b.as_str());
    r
}

/// Appends the `--build-arg` token pairs for a build-argument listing.
pub fn push_build_args(args: &mut Vec<String>, pairs: &Vec<(String, String)>)
    ensures
        arg_views(final(args)@) == arg_views(old(args)@) + build_arg_tokens(env_views(pairs@)),
{
    let n = pairs.len();
    let mut i: usize = 0;
    while i < n
        invariant
            0 <= i <= n,
            n == pairs@.len(),
            arg_views(args@) == arg_views(old(args)@) + build_arg_tokens(
                env_views(pairs@.take(i as int)),
            ),
        decreases n - i,
    {
        push_str_tok(args, "--build-arg");
        push_tok(args, kv_string(&pairs[i].0, &pairs[i].1));
        proof {
            let evs = env_views(pairs@.take(i + 1int));
            assert(pairs@.take(i + 1int).drop_last() == pairs@.take(i as int));
            crate::text::lemma_env_views_push(pairs@.take(i as int), pairs@[i as int]);
            assert(env_views(pairs@.take(i as int)) == evs.drop_last()) by {
                assert(pairs@.take(i as int).push(pairs@[i as int]) == pairs@.take(i + 1int));
                assert(evs.push((pairs@[i as int].0@, pairs@[i as int].1@)).drop_last() =~= evs);
                assert(env_views(pairs@.take(i as int)).push(
                    (pairs@[i as int].0@, pairs@[i as int].1@),
                ) =~= evs);
            }
            assert(evs.len() == i + 1);
            assert(evs.last() == (pairs@[i as int].0@, pairs@[i as int].1@));
            assert(build_arg_tokens(evs) == build_arg_tokens(evs.drop_last()) + seq![
                "--build-arg"@,
                kv_seq(evs.last().0, evs.last().1),
            ]);
            assert(arg_views(args@) =~= arg_views(old(args)@) + build_arg_tokens(evs));
        }
        i = i + 1;
    }
    proof {
        assert(pairs@.take(n as int) == pairs@);
    }
}

/// The `verb <name>` commands shared by the single-container backends:
/// start, stop, restart, attach, rm.
pub fn single_verb_cmd(program: &String, verb: &str, name: &String) -> (c: Cmd)
    ensures
        c@ == (CmdV { program: program@, args: verb_args(verb@, name@), capture: false }),
{
    let mut args: Vec<String> = Vec::new();
    push_str_tok(&mut args, verb);
    push_tok(&mut args, name.clone());
    proof {
        assert(arg_views(args@) =~= seq![verb@, name@]);
    }
    Cmd { program: program.clone(), args, capture: false }
}

/// The listing queries shared by the single-container backends.
pub fn single_ps_cmd(program: &String, all: bool, name: &String) -> (c: Cmd)
    ensures
        c@ == (CmdV { program: program@, args: single_ps_args(all, name@), capture: true }),
{
    let mut args: Vec<String> = Vec::new();
    push_str_tok(&mut args, "ps");
    if all {
        push_str_tok(&mut args, "-aq");
    } else {
        push_str_tok(&mut args, "-q");
    }
    push_str_tok(&mut args, "--filter");
    push_tok(&mut args, filter_string(name));
    proof {
        assert(arg_views(args@) =~= seq![
            "ps"@,
            if all { "-aq"@ } else { "-q"@ },
            "--filter"@,
            filter_seq(name@),
        ]);
    }
    Cmd { program: program.clone(), args, capture: true }
}

/// The copy command shared by the single-container backends.
pub fn single_cp_cmd(program: &String, source: &String, target: &String, dest: &String) -> (c: Cmd)
    ensures
        c@ == (CmdV { program: program@, args: cp_args(source@, target@, dest@), capture: false }),
{
    let mut args: Vec<String> = Vec::new();
    push_str_tok(&mut args, "cp");
    push_tok(&mut args, source.clone());
    push_tok(&mut args, colon_string(target, dest));
    proof {
        assert(arg_views(args@) =~= seq!["cp"@, source@, colon_seq(target@, dest@)]);
    }
    Cmd { program: program.clone(), args, capture: false }
}

/// The in-target shell command shared by the single-container backends.
pub fn single_exec_cmd(
    program: &String,
    user: &String,
    wsf: &String,
    name: &String,
    command: String,
) -> (c: Cmd)
    ensures
        c@ == (CmdV {
            program: program@,
            args: single_exec_args(user@, wsf@, name@, command@),
            capture: false,
        }),
{
    let mut args: Vec<String> = Vec::new();
    push_str_tok(&mut args, "exec");
    push_str_tok(&mut args, "-u");
    push_tok(&mut args, user.clone());
    push_str_tok(&mut args, "-w");
    push_tok(&mut args, wsf.clone());
    push_tok(&mut args, name.clone());
    push_str_tok(&mut args, "sh");
    push_str_tok(&mut args, "-c");
    push_tok(&mut args, command);
    proof {
        assert(arg_views(args@) =~= seq![
            "exec"@,
            "-u"@,
            user@,
            "-w"@,
            wsf@,
            name@,
            "sh"@,
            "-c"@,
            command@,
        ]);
    }
    Cmd { program: program.clone(), args, capture: false }
}

/// The build command shared by the single-container backends.
pub fn single_build_cmd(
    program: &String,
    name: &String,
    file: &String,
    build_args: &Vec<(String, String)>,
    dir: &String,
    use_cache: bool,
) -> (c: Cmd)
    ensures
        c@ == (CmdV {
            program: program@,
            args: single_build_args(name@, file@, env_views(build_args@), dir@, use_cache),
            capture: false,
        }),
{
    let mut args: Vec<String> = Vec::new();
    push_str_tok(&mut args, "build");
    push_str_tok(&mut args, "-t");
    push_tok(&mut args, tag_string(name));
    push_str_tok(&mut args, "-f");
    push_tok(&mut args, file.clone());
    let ghost base = seq!["build"@, "-t"@, tag_seq(name@), "-f"@, file@];
    proof {
        assert(arg_views(args@) =~= base);
    }
    if !use_cache {
        push_str_tok(&mut args, "--no-cache");
    }
    proof {
        assert(arg_views(args@) =~= base + nocache_tokens(use_cache));
    }
    push_build_args(&mut args, build_args);
    push_tok(&mut args, dir.clone());
    proof {
        assert(arg_views(args@) =~= base + nocache_tokens(use_cache) + build_arg_tokens(
            env_views(build_args@),
        ) + seq![dir@]);
    }
    Cmd { program: program.clone(), args, capture: false }
}

/// The creation command shared by the single-container backends. The
/// podman variant hardens user-namespace and labeling behaviour and may
/// forward the host SSH agent inline.
pub fn single_create_cmd(
    program: &String,
    podman_hardening: bool,
    ssh: &Option<String>,
    dir: &String,
    wsf: &String,
    extra: &Vec<String>,
    name: &String,
    user: &String,
) -> (c: Cmd)
    ensures
        c@ == (CmdV {
            program: program@,
            args: single_create_args(
                podman_hardening,
                crate::command::opt_view(*ssh),
                dir@,
                wsf@,
                arg_views(extra@),
                name@,
                user@,
            ),
            capture: false,
        }),
{
    let mut args: Vec<String> = Vec::new();
    push_str_tok(&mut args, "create");
    if podman_hardening {
        push_str_tok(&mut args, "--userns=keep-id");
        push_str_tok(&mut args, "--security-opt");
        push_str_tok(&mut args, "label=disable");
    }
    let ghost hardened = seq!["create"@] + hardening_tokens(podman_hardening);
    proof {
        assert(arg_views(args@) =~= hardened);
    }
    push_str_tok(&mut args, "--mount");
    push_tok(&mut args, bind_string(dir, wsf));
    let ghost mounted = hardened + seq!["--mount"@, bind_seq(dir@, wsf@)];
    proof {
        assert(arg_views(args@) =~= mounted);
    }
    match ssh {
        Some(sock) => {
            push_str_tok(&mut args, "--volume");
            let mut vol = sock.clone();
            vol.append(":/ssh-agent");
            push_tok(&mut args, vol);
            push_str_tok(&mut args, "--env");
            push_str_tok(&mut args, "SSH_AUTH_SOCK=/ssh-agent");
        },
        None => {},
    }
    let ghost sshed = mounted + ssh_tokens(crate::command::opt_view(*ssh));
    proof {
        assert(arg_views(args@) =~= sshed);
    }
    let mut i: usize = 0;
    while i < extra.len()
        invariant
            0 <= i <= extra@.len(),
            arg_views(args@) == sshed + arg_views(extra@.take(i as int)),
        decreases extra@.len() - i,
    {
        push_tok(&mut args, extra[i].clone());
        proof {
            assert(extra@.take(i + 1int) == extra@.take(i as int).push(extra@[i as int]));
            lemma_arg_views_push(extra@.take(i as int), extra@[i as int]);
            assert(arg_views(args@) =~= sshed + arg_views(extra@.take(i + 1int)));
        }
        i = i + 1;
    }
    proof {
        assert(extra@.take(extra@.len() as int) == extra@);
    }
    push_str_tok(&mut args, "-it");
    push_str_tok(&mut args, "--name");
    push_tok(&mut args, name.clone());
    push_str_tok(&mut args, "-u");
    push_tok(&mut args, user.clone());
    push_str_tok(&mut args, "-w");
    push_tok(&mut args, wsf.clone());
    push_tok(&mut args, tag_string(name));
    push_str_tok(&mut args, "zsh");
    proof {
        assert(arg_views(args@) =~= single_create_args(
            podman_hardening,
            crate::command::opt_view(*ssh),
            dir@,
            wsf@,
            arg_views(extra@),
            name@,
            user@,
        ));
    }
    Cmd { program: program.clone(), args, capture: false }
}

/// The leading arguments every docker compose invocation re-supplies: the
/// compose file, the staged override file when one is consumed, and the
/// project name.
pub open spec fn dc_prefix(file: Seq<char>, ov: Option<Seq<char>>, name: Seq<char>) -> Seq<
    Seq<char>,
> {
    seq!["compose"@, "-f"@, file] + (match ov {
        Some(p) => seq!["-f"@, p],
        None => Seq::<Seq<char>>::empty(),
    }) + seq!["-p"@, name]
}

/// The leading arguments every podman-compose invocation re-supplies: the
/// compose file and the project name.
pub open spec fn pc_prefix(file: Seq<char>, name: Seq<char>) -> Seq<Seq<char>> {
    seq!["-f"@, file, "-p"@, name]
}

/// The teardown arguments of a compose stack: containers, orphans and
/// images all go.
pub open spec fn down_tokens() -> Seq<Seq<char>> {
    seq!["down"@, "--remove-orphans"@, "--rmi"@, "all"@]
}

/// Builds the leading docker compose arguments.
pub fn dc_prefix_vec(file: &String, ov: &Option<String>, name: &String) -> (v: Vec<String>)
    ensures
        arg_views(v@) == dc_prefix(file@, crate::command::opt_view(*ov), name@),
{
    let mut args: Vec<String> = Vec::new();
    push_str_tok(&mut args, "compose");
    push_str_tok(&mut args, "-f");
    push_tok(&mut args, file.clone());
    match ov {
        Some(p) => {
            push_str_tok(&mut args, "-f");
            push_tok(&mut args, p.clone());
        },
        None => {},
    }
    push_str_tok(&mut args, "-p");
    push_tok(&mut args, name.clone());
    proof {
        assert(arg_views(args@) =~= dc_prefix(file@, crate::command::opt_view(*ov), name@));
    }
    args
}

/// Builds the leading podman-compose arguments.
pub fn pc_prefix_vec(file: &String, name: &String) -> (v: Vec<String>)
    ensures
        arg_views(v@) == pc_prefix(file@, name@),
{
    let mut args: Vec<String> = Vec::new();
    push_str_tok(&mut args, "-f");
    push_tok(&mut args, file.clone());
    push_str_tok(&mut args, "-p");
    push_tok(&mut args, name.clone());
    proof {
        assert(arg_views(args@) =~= pc_prefix(file@, name@));
    }
    args
}

/// Appends the teardown arguments of a compose stack.
pub fn push_down_toks(args: &mut Vec<String>)
    ensures
        arg_views(final(args)@) == arg_views(old(args)@) + down_tokens(),
{
    push_str_tok(args, "down");
    push_str_tok(args, "--remove-orphans");
    push_str_tok(args, "--rmi");
    push_str_tok(args, "all");
    proof {
        assert(arg_views(args@) =~= arg_views(old(args)@) + down_tokens());
    }
}

/// Appends the in-target shell arguments of a compose exec.
pub fn push_exec_toks(args: &mut Vec<String>, user: &String, wsf: &String, service: &String, command: String)
    ensures
        arg_views(final(args)@) == arg_views(old(args)@) + single_exec_args(
            user@,
            wsf@,
            service@,
            command@,
        ),
{
    push_str_tok(args, "exec");
    push_str_tok(args, "-u");
    push_tok(args, user.clone());
    push_str_tok(args, "-w");
    push_tok(args, wsf.clone());
    push_tok(args, service.clone());
    push_str_tok(args, "sh");
    push_str_tok(args, "-c");
    push_tok(args, command);
    proof {
        assert(arg_views(args@) =~= arg_views(old(args)@) + single_exec_args(
            user@,
            wsf@,
            service@,
            command@,
        ));
    }
}

/// The four backend variants behind the one operation contract.
pub enum Backend {
    /// A single container driven by docker.
    Docker(Docker),
    /// A compose stack driven by docker.
    DockerCompose(DockerCompose),
    /// A single container driven by podman.
    Podman(Podman),
    /// A compose stack driven by podman-compose.
    PodmanCompose(PodmanCompose),
}

impl Backend {
    /// Whether this backend drives a compose stack.
    pub open spec fn is_compose_backend(&self) -> bool {
        self is DockerCompose || self is PodmanCompose
    }

    /// Whether an operation first stages the ephemeral compose override
    /// document. Only the docker compose variant consumes one, and its
    /// listing queries and its (no-op) create do not.
    pub open spec fn needs_override_spec(&self, op: Op) -> bool {
        self is DockerCompose && !(op is Create) && !(op is Exists) && !(op is Running)
    }

    /// Whether an operation is carried out without any external command:
    /// compose stacks fold creation into `up`.
    pub open spec fn op_is_noop(&self, op: Op) -> bool {
        self.is_compose_backend() && op is Create
    }

    /// The override document the docker compose variant stages before an
    /// operation that consumes one.
    pub open spec fn override_contents(&self) -> Seq<char> {
        match self {
            Backend::DockerCompose(d) => crate::compose_override::override_doc(
                crate::command::opt_view(d.ssh_auth_sock),
                d.service@,
            ),
            _ => Seq::<char>::empty(),
        }
    }

    /// The command an operation translates to, or nothing for a no-op.
    /// `ov` is the staged override path, present exactly when the
    /// operation consumes one.
    pub open spec fn cmd_spec(&self, op: Op, ov: Option<Seq<char>>) -> Option<CmdV> {
        match self {
            Backend::Docker(d) => Some(d.cmd_spec(op)),
            Backend::Podman(p) => Some(p.cmd_spec(op)),
            Backend::DockerCompose(d) => d.cmd_spec(op, ov),
            Backend::PodmanCompose(p) => p.cmd_spec(op),
        }
    }

    /// Decides whether an operation stages the override document.
    pub fn needs_override(&self, op: &OpX) -> (r: bool)
        ensures
            r == self.needs_override_spec(op@),
    {
        match self {
            Backend::DockerCompose(_) => !matches!(
                op,
                OpX::Create { .. } | OpX::Exists | OpX::Running
            ),
            _ => false,
        }
    }

    /// Translates one operation into the backend's command grammar.
    pub fn command_for(&self, op: OpX, ov: Option<String>) -> (c: Option<Cmd>)
        requires
            ov is Some <==> self.needs_override_spec(op@),
        ensures
            match c {
                Some(cmd) => self.cmd_spec(op@, crate::command::opt_view(ov)) == Some(cmd@),
                None => {
                    &&& self.cmd_spec(op@, crate::command::opt_view(ov)) is None
                    &&& self.op_is_noop(op@)
                },
            },
    {
        match self {
            Backend::Docker(d) => Some(d.command_for(op)),
            Backend::Podman(p) => Some(p.command_for(op)),
            Backend::DockerCompose(d) => d.command_for(op, ov),
            Backend::PodmanCompose(p) => p.command_for(op),
        }
    }
}

} // verus!
