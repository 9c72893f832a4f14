//! The order of the steps of one command, and what each outcome adds to
//! the output.
//!
//! A caller starts a [`Dispatch`] with the parsed command and the project
//! root it holds, then performs each [`Action`] that [`Dispatch::next`]
//! returns and reports how it ended, feeding the engine's own lines through
//! [`Dispatch::output`], until the action is `Finish` or `Abort`.

use vstd::prelude::*;

use crate::options::views;
use crate::output::{
    level_of, log_level, render_line, rendered, LineKind, OutputLine, PyCommandOutput,
};

verus! {

/// The sub-command that the engine parsed.
#[derive(Debug, Clone, Copy, PartialEq, Eq, Structural)]
pub enum CommandKind {
    Init,
    Aliases,
    Root,
    File,
    Pipeline,
    CheckIgnore,
    Storage,
}

/// Whether a command of `kind` needs a project root; `init` makes one and
/// `aliases` needs none.
pub open spec fn needs_project(kind: CommandKind) -> bool {
    kind != CommandKind::Init && kind != CommandKind::Aliases
}

/// What the dispatcher reads of a parsed command.
#[derive(Debug, Clone, Copy, PartialEq, Eq, Structural)]
pub struct CommandHeader {
    pub quiet: bool,
    pub verbosity: u8,
    pub has_from_ref: bool,
    pub skip_git: bool,
    pub kind: CommandKind,
}

/// Where a dispatch stands.
#[derive(Debug, Clone, Copy, PartialEq, Eq, Structural)]
pub enum Stage {
    Start,
    CheckingOut,
    Running,
    Automating,
    Done,
    Aborted,
}

/// The step that the caller performs next.
#[derive(Debug, Clone, Copy, PartialEq, Eq, Structural)]
pub enum Action {
    /// Check out the reference given with `--from-ref`.
    Checkout,
    /// Run the command against the project root.
    Execute(CommandKind),
    /// Record the project state and run the version-control automation;
    /// only after a command that ended well.
    Automate,
    /// Return the output and the project root.
    Finish,
    /// The automation failed: the call fails.
    Abort,
}

/// How the last action ended.
pub enum Event<R> {
    /// It ended well, or there was no action yet.
    Succeeded,
    /// `init` ended well and made this project root.
    Created(R),
    /// It failed with this message.
    Failed(String),
}

/// The mathematical form of an [`Event`].
pub enum EventView {
    Succeeded,
    Created,
    Failed(Seq<char>),
}

pub open spec fn event_view<R>(e: Event<R>) -> EventView {
    match e {
        Event::Succeeded => EventView::Succeeded,
        Event::Created(_) => EventView::Created,
        Event::Failed(m) => EventView::Failed(m@),
    }
}

/// The state of a dispatch.
pub struct DispatchView {
    pub header: CommandHeader,
    pub has_root: bool,
    pub stage: Stage,
    pub output: Seq<char>,
    /// The line that reports how the command ended, shown last.
    pub outcome: Option<(LineKind, Seq<char>)>,
    /// The error shown for a command that needs a project root and has none.
    pub missing_project: Seq<char>,
}

/// The message of a command that ended well.
pub open spec fn success_message() -> Seq<char> {
    "Command completed successfully."@
}

/// `s` with a line added at its level.
pub open spec fn emit(s: DispatchView, kind: LineKind, text: Seq<char>) -> DispatchView {
    DispatchView {
        output: s.output + rendered(level_of(s.header.quiet, s.header.verbosity), kind, text),
        ..s
    }
}

/// The end of a dispatch: the outcome line, then `Finish`.
pub open spec fn finish_step(s: DispatchView) -> (DispatchView, Action) {
    let t = match s.outcome {
        Some((kind, text)) => emit(s, kind, text),
        None => s,
    };
    (DispatchView { stage: Stage::Done, outcome: None, ..t }, Action::Finish)
}

/// After the command: the automation when it is not skipped and a project
/// root is present, else the end.
pub open spec fn automation_step(s: DispatchView) -> (DispatchView, Action) {
    if !s.header.skip_git && s.has_root {
        (DispatchView { stage: Stage::Automating, ..s }, Action::Automate)
    } else {
        finish_step(s)
    }
}

/// The command itself, unless it needs a project root that is absent: then
/// the error becomes the outcome and the dispatch ends.
pub open spec fn command_step(s: DispatchView) -> (DispatchView, Action) {
    if needs_project(s.header.kind) && !s.has_root {
        finish_step(
            DispatchView {
                outcome: Some((LineKind::Error, s.missing_project)),
                ..s
            },
        )
    } else {
        (DispatchView { stage: Stage::Running, ..s }, Action::Execute(s.header.kind))
    }
}

/// One transition: from a state and the way the last action ended to the
/// next state and action.
pub open spec fn step(s: DispatchView, e: EventView) -> (DispatchView, Action) {
    match s.stage {
        Stage::Start => if s.header.has_from_ref && s.has_root {
            (DispatchView { stage: Stage::CheckingOut, ..s }, Action::Checkout)
        } else {
            command_step(s)
        },
        Stage::CheckingOut => match e {
            EventView::Failed(m) => command_step(emit(s, LineKind::Panic, m)),
            _ => command_step(s),
        },
        Stage::Running => match e {
            EventView::Failed(m) => finish_step(
                DispatchView { outcome: Some((LineKind::Error, m)), ..s },
            ),
            EventView::Created => automation_step(
                DispatchView {
                    has_root: s.has_root || s.header.kind == CommandKind::Init,
                    outcome: Some((LineKind::Debug, success_message())),
                    ..s
                },
            ),
            EventView::Succeeded => automation_step(
                DispatchView { outcome: Some((LineKind::Debug, success_message())), ..s },
            ),
        },
        Stage::Automating => match e {
            EventView::Failed(_) => (DispatchView { stage: Stage::Aborted, ..s }, Action::Abort),
            _ => finish_step(s),
        },
        Stage::Done => (s, Action::Finish),
        Stage::Aborted => (s, Action::Abort),
    }
}

/// The first state of a dispatch.
pub open spec fn initial(header: CommandHeader, has_root: bool, missing_project: Seq<char>) -> DispatchView {
    DispatchView {
        header,
        has_root,
        stage: Stage::Start,
        output: Seq::empty(),
        outcome: None,
        missing_project,
    }
}

/// One command on its way through the engine, holding the project root.
pub struct Dispatch<R> {
    pub header: CommandHeader,
    pub root: Option<R>,
    pub stage: Stage,
    pub text: String,
    pub outcome: Option<OutputLine>,
    pub missing_project: String,
}

impl<R> View for Dispatch<R> {
    type V = DispatchView;

    open spec fn view(&self) -> DispatchView {
        DispatchView {
            header: self.header,
            has_root: self.root is Some,
            stage: self.stage,
            output: self.text@,
            outcome: match self.outcome {
                Some(l) => Some((l.kind, l.text@)),
                None => None,
            },
            missing_project: self.missing_project@,
        }
    }
}

impl<R> Dispatch<R> {
    /// A dispatch of the command `header` with the project root `root`;
    /// `missing_project` is the error shown when the command needs a project
    /// root and there is none.
    pub fn start(header: CommandHeader, root: Option<R>, missing_project: String) -> (r: Dispatch<R>)
        ensures
            r@ == initial(header, root is Some, missing_project@),
            r.root == root,
    {
        Dispatch {
            header,
            root,
            stage: Stage::Start,
            text: String::new(),
            outcome: None,
            missing_project,
        }
    }

    /// Adds a line at the command's level.
    pub fn output(&mut self, line: OutputLine)
        ensures
            final(self)@ == emit(old(self)@, line.kind, line.text@),
            final(self).root == old(self).root,
    {
        let level = log_level(self.header.quiet, self.header.verbosity);
        let s = render_line(level, line.kind, &line.text);
        self.text.append(s.as_str());
    }

    fn finish_step(&mut self) -> (a: Action)
        ensures
            (final(self)@, a) == finish_step(old(self)@),
            final(self).root == old(self).root,
    {
        match self.outcome.take() {
            Some(line) => self.output(line),
            None => {},
        }
        self.stage = Stage::Done;
        Action::Finish
    }

    fn automation_step(&mut self) -> (a: Action)
        ensures
            (final(self)@, a) == automation_step(old(self)@),
            final(self).root == old(self).root,
    {
        if !self.header.skip_git && self.root.is_some() {
            self.stage = Stage::Automating;
            Action::Automate
        } else {
            self.finish_step()
        }
    }

    fn command_step(&mut self) -> (a: Action)
        ensures
            (final(self)@, a) == command_step(old(self)@),
            final(self).root == old(self).root,
    {
        let kind = self.header.kind;
        let needs = !matches!(kind, CommandKind::Init | CommandKind::Aliases);
        if needs && self.root.is_none() {
            let text = self.missing_project.clone();
            self.outcome = Some(OutputLine { kind: LineKind::Error, text });
            self.finish_step()
        } else {
            self.stage = Stage::Running;
            Action::Execute(kind)
        }
    }

    /// Takes the way the last action ended and returns the next action.
    pub fn next(&mut self, event: Event<R>) -> (a: Action)
        ensures
            (final(self)@, a) == step(old(self)@, event_view(event)),
            final(self).root == (match event {
                Event::Created(r) => if old(self).stage == Stage::Running && old(
                    self,
                ).header.kind == CommandKind::Init {
                    Some(r)
                } else {
                    old(self).root
                },
                _ => old(self).root,
            }),
    {
        match self.stage {
            Stage::Start => {
                if self.header.has_from_ref && self.root.is_some() {
                    self.stage = Stage::CheckingOut;
                    Action::Checkout
                } else {
                    self.command_step()
                }
            },
            Stage::CheckingOut => {
                match event {
                    Event::Failed(m) => {
                        self.output(OutputLine { kind: LineKind::Panic, text: m });
                    },
                    _ => {},
                }
                self.command_step()
            },
            Stage::Running => {
                match event {
                    Event::Failed(m) => {
                        self.outcome = Some(OutputLine { kind: LineKind::Error, text: m });
                        return self.finish_step();
                    },
                    Event::Created(r) => {
                        if matches!(self.header.kind, CommandKind::Init) {
                            self.root = Some(r);
                        }
                        let text = "Command completed successfully.".to_string();
                        self.outcome = Some(OutputLine { kind: LineKind::Debug, text });
                    },
                    Event::Succeeded => {
                        let text = "Command completed successfully.".to_string();
                        self.outcome = Some(OutputLine { kind: LineKind::Debug, text });
                    },
                }
                self.automation_step()
            },
            Stage::Automating => {
                match event {
                    Event::Failed(_) => {
                        self.stage = Stage::Aborted;
                        Action::Abort
                    },
                    _ => self.finish_step(),
                }
            },
            Stage::Done => Action::Finish,
            Stage::Aborted => Action::Abort,
        }
    }

    /// The output and the project root, once the dispatch is over.
    pub fn finish(self) -> (r: (PyCommandOutput, Option<R>))
        ensures
            r.0.output@ == self.text@,
            r.1 == self.root,
    {
        (PyCommandOutput { output: self.text }, self.root)
    }
}

/// The pieces of `s` between single spaces, empty pieces included.
pub open spec fn split_spaces(s: Seq<char>) -> Seq<Seq<char>>
    decreases s.len(),
{
    if s.len() == 0 {
        seq![Seq::empty()]
    } else {
        let r = split_spaces(s.drop_last());
        if s.last() == ' ' {
            r.push(Seq::empty())
        } else {
            r.update(r.len() - 1, r.last().push(s.last()))
        }
    }
}

/// Splits a whole command line into tokens at each single space.
pub fn split_command(cmd: &str) -> (r: Vec<String>)
    ensures
        views(r@) == split_spaces(cmd@),
{
    let n = cmd.unicode_len();
    let mut parts: Vec<String> = Vec::new();
    let mut start: usize = 0;
    let mut i: usize = 0;
    assert(cmd@.subrange(0, 0) =~= Seq::<char>::empty());
    assert(views(parts@).push(cmd@.subrange(0, 0)) =~= seq![Seq::<char>::empty()]);
    while i < n
        invariant
            n == cmd@.len(),
            start <= i <= n,
            split_spaces(cmd@.subrange(0, i as int)) == views(parts@).push(
                cmd@.subrange(start as int, i as int),
            ),
        decreases n - i,
    {
        let c = cmd.get_char(i);
        let ghost pre = cmd@.subrange(0, i as int);
        let ghost next = cmd@.subrange(0, i + 1);
        assert(next.drop_last() =~= pre);
        assert(next.last() == c);
        if c == ' ' {
            let piece = cmd.substring_char(start, i).to_string();
            let ghost before = parts@;
            parts.push(piece);
            assert(views(parts@) =~= views(before).push(cmd@.subrange(start as int, i as int)));
            start = i + 1;
            assert(cmd@.subrange(start as int, i + 1) =~= Seq::<char>::empty());
        } else {
            assert(cmd@.subrange(start as int, i + 1) =~= cmd@.subrange(start as int, i as int).push(c));
            assert(views(parts@).push(cmd@.subrange(start as int, i + 1)) =~= views(parts@).push(
                cmd@.subrange(start as int, i as int),
            ).update(views(parts@).len() as int, cmd@.subrange(start as int, i as int).push(c)));
        }
        i = i + 1;
    }
    let last = cmd.substring_char(start, n).to_string();
    let ghost before = parts@;
    parts.push(last);
    assert(views(parts@) =~= views(before).push(cmd@.subrange(start as int, n as int)));
    assert(cmd@.subrange(0, n as int) =~= cmd@);
    parts
}

/// `needle` occurs in `hay`.
pub open spec fn contains_text(hay: Seq<char>, needle: Seq<char>) -> bool {
    exists|i: int|
        0 <= i && i + needle.len() <= hay.len() && #[trigger] hay.subrange(i, i + needle.len())
            == needle
}

/// A command that needs a project, dispatched without one, runs nothing,
/// ends at once with the error in its output (unless it is quiet), and
/// leaves the project root absent.
pub proof fn lemma_missing_project(header: CommandHeader, message: Seq<char>, e: EventView)
    requires
        needs_project(header.kind),
    ensures
        ({
            let (s, a) = step(initial(header, false, message), e);
            &&& a == Action::Finish
            &&& !s.has_root
            &&& !header.quiet ==> contains_text(s.output, "[ERROR] "@)
            &&& !header.quiet ==> contains_text(s.output, message)
        }),
{
    let (s, a) = step(initial(header, false, message), e);
    if !header.quiet {
        let out = s.output;
        assert(out =~= "[ERROR] "@ + message);
        let n = "[ERROR] "@.len() as int;
        assert(out.subrange(0, 0 + n) =~= "[ERROR] "@);
        assert(contains_text(out, "[ERROR] "@));
        assert(out.subrange(n, n + message.len()) =~= message);
        assert(contains_text(out, message));
    }
}

/// Once a dispatch holds a project root it keeps it.
pub proof fn lemma_root_kept(s: DispatchView, e: EventView)
    requires
        s.has_root,
    ensures
        step(s, e).0.has_root,
{
}

/// `init` on a session with no project: once the engine has made the root,
/// the dispatch holds it, and a later `root` command of the session, given
/// that root, runs rather than failing for want of a project.
pub proof fn lemma_init_then_root(
    init: CommandHeader,
    root_cmd: CommandHeader,
    m1: Seq<char>,
    m2: Seq<char>,
    e: EventView,
)
    requires
        init.kind == CommandKind::Init,
        !init.has_from_ref,
        root_cmd.kind == CommandKind::Root,
        !root_cmd.has_from_ref,
    ensures
        ({
            let (s1, a1) = step(initial(init, false, m1), EventView::Succeeded);
            let (s2, a2) = step(s1, EventView::Created);
            &&& a1 == Action::Execute(CommandKind::Init)
            &&& s2.has_root
            &&& step(s2, e).0.has_root
            &&& step(initial(root_cmd, s2.has_root, m2), e).1 == Action::Execute(CommandKind::Root)
        }),
{
}

/// A command that fails ends the dispatch at once: no automation runs, the
/// project root stays as it was, and the failure is the last line of the
/// output (unless the command is quiet).
pub proof fn lemma_failed_command_finishes(s: DispatchView, m: Seq<char>)
    requires
        s.stage == Stage::Running,
    ensures
        ({
            let (t, a) = step(s, EventView::Failed(m));
            &&& a == Action::Finish
            &&& t.has_root == s.has_root
            &&& !s.header.quiet ==> t.output == s.output + "[ERROR] "@ + m
        }),
{
}

} // verus!
