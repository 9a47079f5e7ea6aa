//! External commands, the events they leave behind, and the executor
//! capability through which all backend work flows.
//!
//! Every backend operation is first rendered into a [`Cmd`] by pure,
//! verified code; an [`Executor`] then carries it out. The executor keeps
//! a ghost log of everything it was asked to do, so the orchestrator's
//! contracts can speak about the exact sequence of commands issued.

use vstd::prelude::*;

use crate::text::arg_views;

verus! {

/// One external command: a program, its arguments, and whether its output
/// is captured (queries) or its stdio is inherited (interactive work).
pub struct Cmd {
    /// The program to run.
    pub program: String,
    /// The argument tokens, in order.
    pub args: Vec<String>,
    /// Whether stdout is captured rather than inherited.
    pub capture: bool,
}

/// The mathematical value of a command.
pub struct CmdV {
    /// The program, as a character sequence.
    pub program: Seq<char>,
    /// The argument tokens, as character sequences.
    pub args: Seq<Seq<char>>,
    /// Whether stdout is captured.
    pub capture: bool,
}

impl View for Cmd {
    type V = CmdV;

    open spec fn view(&self) -> CmdV {
        CmdV { program: self.program@, args: arg_views(self.args@), capture: self.capture }
    }
}

/// What became of one external command.
pub enum Reply {
    /// The process could not be spawned at all.
    NoSpawn,
    /// The process ran to completion; `success` mirrors its exit status and
    /// `output` holds the captured stdout (empty when stdio was inherited).
    Done { success: bool, output: String },
}

/// The mathematical value of a reply.
pub enum ReplyV {
    /// The process could not be spawned.
    NoSpawn,
    /// The process ran to completion.
    Done { success: bool, output: Seq<char> },
}

impl View for Reply {
    type V = ReplyV;

    open spec fn view(&self) -> ReplyV {
        match self {
            Reply::NoSpawn => ReplyV::NoSpawn,
            Reply::Done { success, output } => ReplyV::Done { success: *success, output: output@ },
        }
    }
}

/// What a host path points at.
#[derive(Clone, Copy, Debug, PartialEq, Eq, Structural)]
pub enum PathKind {
    /// The path does not exist.
    Missing,
    /// The path names a regular file.
    File,
    /// The path names a directory.
    Dir,
}

/// The view of an optional string.
pub open spec fn opt_view(o: Option<String>) -> Option<Seq<char>> {
    match o {
        Some(s) => Some(s@),
        None => None,
    }
}

/// One entry of an executor's record.
pub enum Event {
    /// A command was handed to the executor.
    Ran {
        /// The command.
        cmd: Cmd,
        /// What became of it.
        reply: Reply,
    },
    /// A host path was inspected.
    PathChecked {
        /// The inspected path.
        path: String,
        /// What it pointed at.
        kind: PathKind,
    },
    /// An ephemeral override document was staged to disk.
    Wrote {
        /// The document text.
        contents: String,
        /// Where it was staged, or nothing when staging failed.
        dest: Option<String>,
    },
}

/// The mathematical value of an event.
pub enum EventV {
    /// A command was handed to the executor.
    Ran {
        /// The command.
        cmd: CmdV,
        /// What became of it.
        reply: ReplyV,
    },
    /// A host path was inspected.
    PathChecked {
        /// The inspected path.
        path: Seq<char>,
        /// What it pointed at.
        kind: PathKind,
    },
    /// An override document was staged.
    Wrote {
        /// The document text.
        contents: Seq<char>,
        /// Where it was staged, if anywhere.
        dest: Option<Seq<char>>,
    },
}

impl View for Event {
    type V = EventV;

    open spec fn view(&self) -> EventV {
        match self {
            Event::Ran { cmd, reply } => EventV::Ran { cmd: cmd@, reply: reply@ },
            Event::PathChecked { path, kind } => EventV::PathChecked { path: path@, kind: *kind },
            Event::Wrote { contents, dest } => EventV::Wrote {
                contents: contents@,
                dest: opt_view(*dest),
            },
        }
    }
}

/// The views of a recorded event listing.
pub open spec fn event_views(evs: Seq<Event>) -> Seq<EventV> {
    evs.map_values(|e: Event| e@)
}

/// Recording an event appends its view to the log.
pub proof fn lemma_event_views_push(evs: Seq<Event>, e: Event)
    ensures
        event_views(evs.push(e)) =~= event_views(evs).push(e@),
{
    assert forall|m: int| 0 <= m < evs.len() + 1 implies event_views(evs.push(e))[m] == event_views(
        evs,
    ).push(e@)[m] by {
        if m < evs.len() {
            assert(evs.push(e)[m] == evs[m]);
        } else {
            assert(evs.push(e)[m] == e);
        }
    }
}

/// Every log is a prefix of itself.
pub proof fn lemma_prefix_refl(a: Seq<EventV>)
    ensures
        a.is_prefix_of(a),
{
    assert(a =~= a.subrange(0, a.len() as int));
}

/// Appending one event keeps the old log a prefix.
pub proof fn lemma_prefix_push(a: Seq<EventV>, e: EventV)
    ensures
        a.is_prefix_of(a.push(e)),
{
    assert(a =~= a.push(e).subrange(0, a.len() as int));
}

/// Being a prefix is transitive.
pub proof fn lemma_prefix_trans(a: Seq<EventV>, b: Seq<EventV>, c: Seq<EventV>)
    requires
        a.is_prefix_of(b),
        b.is_prefix_of(c),
    ensures
        a.is_prefix_of(c),
{
    assert forall|i: int| 0 <= i < a.len() implies a[i] == c[i] by {
        assert(a[i] == b.subrange(0, a.len() as int)[i]);
        assert(b[i] == c.subrange(0, b.len() as int)[i]);
    }
    assert(a =~= c.subrange(0, a.len() as int));
}

/// A prefix agrees with the whole log on every index it covers.
pub proof fn lemma_prefix_index(a: Seq<EventV>, b: Seq<EventV>, i: int)
    requires
        a.is_prefix_of(b),
        0 <= i < a.len(),
    ensures
        a[i] == b[i],
{
    assert(a[i] == b.subrange(0, a.len() as int)[i]);
}

/// The capability through which all outside work flows: running external
/// commands, inspecting host paths, and staging ephemeral override
/// documents. The front end implements it over real processes and the
/// filesystem; tests drive the orchestrator with the scripted
/// implementation below.
///
/// Nothing is promised about any outcome: the log alone is pinned, so
/// everything proved over it holds whatever the outside world answers.
pub trait Executor {
    /// Everything this executor was asked to do, oldest first. An
    /// implementation that keeps no record — the process-spawning front
    /// end — leaves the default in place; everything proved over the log
    /// then speaks of the record-keeping implementations alone.
    closed spec fn log(&self) -> Seq<EventV> {
        Seq::<EventV>::empty()
    }

    /// Runs one external command to completion.
    fn execute(&mut self, cmd: Cmd) -> (r: Reply)
        ensures
            final(self).log() == old(self).log().push(EventV::Ran { cmd: cmd@, reply: r@ }),
    ;

    /// Reports what a host path points at.
    fn check_host_path(&mut self, path: &String) -> (r: PathKind)
        ensures
            final(self).log() == old(self).log().push(
                EventV::PathChecked { path: path@, kind: r },
            ),
    ;

    /// Writes an override document to a transient location and reports
    /// where, or nothing when it could not be written.
    fn stage_override(&mut self, contents: String) -> (r: Option<String>)
        ensures
            final(self).log() == old(self).log().push(
                EventV::Wrote { contents: contents@, dest: opt_view(r) },
            ),
    ;
}

/// One scripted answer for the scripted executor.
pub enum ScriptReply {
    /// The answer to an `execute` call.
    Run(Reply),
    /// The answer to a `check_host_path` call.
    Path(PathKind),
    /// The answer to a `stage_override` call.
    Stage(Option<String>),
}

/// Clones a reply.
pub fn clone_reply(r: &Reply) -> (c: Reply)
    ensures
        c@ == r@,
{
    match r {
        Reply::NoSpawn => Reply::NoSpawn,
        Reply::Done { success, output } => Reply::Done {
            success: *success,
            output: output.clone(),
        },
    }
}

/// Clones an optional string.
pub fn clone_opt(o: &Option<String>) -> (c: Option<String>)
    ensures
        opt_view(c) == opt_view(*o),
{
    match o {
        Some(s) => Some(s.clone()),
        None => None,
    }
}

/// An executor that answers from a pre-loaded script and records every
/// request, for exercising the orchestrator without any real backend.
///
/// Answers are consumed front to back; a missing or mismatched entry is
/// answered with a successful, empty-output completion (queries then
/// report absence), a missing host path, and a fixed staging location.
pub struct ScriptedExecutor {
    /// The pre-loaded answers.
    pub script: Vec<ScriptReply>,
    /// How many answers have been consumed.
    pub cursor: usize,
    /// Everything this executor was asked to do.
    pub events: Vec<Event>,
}

impl ScriptedExecutor {
    /// An executor that will answer from the given script.
    pub fn new(script: Vec<ScriptReply>) -> (r: ScriptedExecutor)
        ensures
            r.log() == Seq::<EventV>::empty(),
            r.events@.len() == 0,
    {
        let r = ScriptedExecutor { script, cursor: 0, events: Vec::new() };
        proof {
            assert(event_views(r.events@) =~= Seq::<EventV>::empty());
        }
        r
    }

    fn next_reply(&mut self) -> (r: Option<ScriptReply>)
        ensures
            final(self).events == old(self).events,
            final(self).script == old(self).script,
    {
        if self.cursor < self.script.len() {
            let r = match &self.script[self.cursor] {
                ScriptReply::Run(rep) => ScriptReply::Run(clone_reply(rep)),
                ScriptReply::Path(k) => ScriptReply::Path(*k),
                ScriptReply::Stage(o) => ScriptReply::Stage(clone_opt(o)),
            };
            self.cursor = self.cursor + 1;
            Some(r)
        } else {
            None
        }
    }
}

impl Executor for ScriptedExecutor {
    open spec fn log(&self) -> Seq<EventV> {
        event_views(self.events@)
    }

    fn execute(&mut self, cmd: Cmd) -> (r: Reply) {
        let scripted = self.next_reply();
        let r = match scripted {
            Some(ScriptReply::Run(rep)) => rep,
            _ => Reply::Done { success: true, output: String::new() },
        };
        let ghost prev = self.events@;
        let ev = Event::Ran { cmd, reply: clone_reply(&r) };
        proof {
            lemma_event_views_push(prev, ev);
        }
        self.events.push(ev);
        r
    }

    fn check_host_path(&mut self, path: &String) -> (r: PathKind) {
        let scripted = self.next_reply();
        let r = match scripted {
            Some(ScriptReply::Path(k)) => k,
            _ => PathKind::Missing,
        };
        let ghost prev = self.events@;
        let ev = Event::PathChecked { path: path.clone(), kind: r };
        proof {
            lemma_event_views_push(prev, ev);
        }
        self.events.push(ev);
        r
    }

    fn stage_override(&mut self, contents: String) -> (r: Option<String>) {
        let scripted = self.next_reply();
        let r = match scripted {
            Some(ScriptReply::Stage(o)) => o,
            _ => Some(String::from_str("/tmp/devcon-compose-override.yml")),
        };
        let ghost prev = self.events@;
        let ev = Event::Wrote { contents, dest: clone_opt(&r) };
        proof {
            lemma_event_views_push(prev, ev);
        }
        self.events.push(ev);
        r
    }
}

} // verus!
