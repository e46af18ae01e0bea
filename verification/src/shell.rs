//! The shell loop as a state machine. The shell reads one line at a time and works through
//! its segments from left to right. Each step either finishes in the shell itself or asks the
//! caller for one effect on the outside world, whose outcome the caller reports back.

use crate::command::{classify, command_of, resolve_target, target_of, Command};
use crate::parse::{parse, parse_line, segment_views, Segment, SegmentView};
use crate::pipeline::{index_view, wire, wiring_for, Wiring};
use crate::report::{
    dir_error, dir_error_text, spawn_error, spawn_error_text, stack_empty, stack_empty_text,
};
use crate::stack::{listing, with_top, DirStack};
use vstd::prelude::*;

verus! {

/// The builtins that move the shell to another directory.
#[derive(Debug, Clone, Copy, PartialEq, Eq, Structural)]
pub enum DirChange {
    Cd,
    Pushd,
    Popd,
}

/// Something for the user to read.
#[derive(Debug, Clone, PartialEq, Eq)]
pub enum Notice {
    /// Text for the shell's standard output, complete with its line ending.
    Print(String),
    /// One line for the shell's error stream, without a line ending.
    Report(String),
}

/// What a [`Notice`] holds.
pub ghost enum NoticeView {
    Print(Seq<char>),
    Report(Seq<char>),
}

impl View for Notice {
    type V = NoticeView;

    open spec fn view(&self) -> NoticeView {
        match self {
            Notice::Print(text) => NoticeView::Print(text@),
            Notice::Report(text) => NoticeView::Report(text@),
        }
    }
}

/// What the caller has to do after a step.
#[derive(Debug, Clone, PartialEq, Eq)]
pub enum Step {
    /// Leave the loop: the shell has ended.
    Exit,
    /// Make this directory the working directory, then report the outcome with
    /// [`Shell::dir_changed`].
    ChangeDir(String),
    /// Start `program`, the segment `stage` of the line, with its arguments as they were
    /// written and with this wiring, then report the outcome with [`Shell::spawned`].
    Spawn { stage: usize, program: Segment, wiring: Wiring },
    /// Show this to the user.
    Tell(Notice),
    /// The line is done. Wait for the process of the given stage, if any, then prompt again.
    Finished { wait_for: Option<usize> },
}

/// What a [`Step`] holds.
pub ghost enum StepView {
    Exit,
    ChangeDir(Seq<char>),
    Spawn { stage: nat, program: SegmentView, wiring: Wiring },
    Tell(NoticeView),
    Finished { wait_for: Option<nat> },
}

impl View for Step {
    type V = StepView;

    open spec fn view(&self) -> StepView {
        match self {
            Step::Exit => StepView::Exit,
            Step::ChangeDir(target) => StepView::ChangeDir(target@),
            Step::Spawn { stage, program, wiring } => StepView::Spawn {
                stage: *stage as nat,
                program: program@,
                wiring: *wiring,
            },
            Step::Tell(notice) => StepView::Tell(notice@),
            Step::Finished { wait_for } => StepView::Finished { wait_for: index_view(*wait_for) },
        }
    }
}

/// Where the loop stands.
#[derive(Debug, Clone, PartialEq, Eq)]
pub enum Phase {
    /// Waiting for the next line.
    Prompting,
    /// Working through the segments of a line.
    Dispatching,
    /// Waiting to hear whether the working directory could be changed to `target`.
    ChangingDir { change: DirChange, target: String },
    /// Waiting to hear whether the program of the latest segment could be started.
    Spawning,
    /// Ended by `exit`. Nothing leads out of this phase.
    Exited,
}

/// What a [`Phase`] holds.
pub ghost enum PhaseView {
    Prompting,
    Dispatching,
    ChangingDir { change: DirChange, target: Seq<char> },
    Spawning,
    Exited,
}

impl View for Phase {
    type V = PhaseView;

    open spec fn view(&self) -> PhaseView {
        match self {
            Phase::Prompting => PhaseView::Prompting,
            Phase::Dispatching => PhaseView::Dispatching,
            Phase::ChangingDir { change, target } => PhaseView::ChangingDir {
                change: *change,
                target: target@,
            },
            Phase::Spawning => PhaseView::Spawning,
            Phase::Exited => PhaseView::Exited,
        }
    }
}

/// The state of the shell.
pub ghost struct ShellView {
    /// The directory stack, bottom first.
    pub stack: Seq<Seq<char>>,
    /// The segments of the line at hand.
    pub line: Seq<SegmentView>,
    /// The number of segments already dealt with.
    pub cursor: nat,
    /// The stage whose process was started last and whose output nobody reads yet.
    pub head: Option<nat>,
    /// Where the loop stands.
    pub phase: PhaseView,
}

/// How an effect on the outside world ended: well, or with the system's reason for failing.
pub type Outcome = Result<(), Seq<char>>;

/// The first argument of a segment, if it has any.
pub open spec fn first_arg(seg: SegmentView) -> Option<Seq<char>> {
    if seg.args.len() > 0 {
        Some(seg.args[0])
    } else {
        None
    }
}

/// The index of the first segment at or after `from` that has a name, or the number of
/// segments if there is none.
pub open spec fn next_live(line: Seq<SegmentView>, from: nat) -> nat
    decreases line.len() - from,
{
    if from >= line.len() {
        line.len()
    } else if line[from as int].name.len() == 0 {
        next_live(line, from + 1)
    } else {
        from
    }
}

impl ShellView {
    /// What holds of the shell at all times: the stack has an entry; the cursor is within
    /// the line; the head of the chain is a segment already dealt with; a program that is
    /// being started belongs to such a segment; and a `popd` under way asks for the
    /// directory that is now on top.
    pub open spec fn inv(self) -> bool {
        &&& self.stack.len() >= 1
        &&& self.cursor <= self.line.len()
        &&& (self.head matches Some(j) ==> j < self.cursor)
        &&& (self.phase is Spawning ==> self.cursor >= 1)
        &&& (self.phase matches PhaseView::ChangingDir { change, target } ==> change
            == DirChange::Popd ==> target == self.stack.last())
    }

    /// The shell as it starts in the directory `startup`.
    pub open spec fn start(startup: Seq<char>) -> ShellView {
        ShellView {
            stack: seq![startup],
            line: Seq::empty(),
            cursor: 0,
            head: None,
            phase: PhaseView::Prompting,
        }
    }

    /// The shell after it was handed `line` to run. Only a prompting shell takes a line.
    pub open spec fn feed(self, line: Seq<char>) -> ShellView {
        if self.phase is Prompting {
            ShellView { line: parse(line), cursor: 0, head: None, phase: PhaseView::Dispatching, ..self }
        } else {
            self
        }
    }

    /// The shell after it took up the segment at `k`, which has a name, and the step that
    /// this segment calls for.
    pub open spec fn dispatch(self, k: nat, home: Seq<char>) -> (ShellView, StepView) {
        let seg = self.line[k as int];
        let at = ShellView { cursor: k + 1, ..self };
        match command_of(seg.name) {
            Command::Exit => (ShellView { phase: PhaseView::Exited, ..at }, StepView::Exit),
            Command::Cd => {
                let target = target_of(first_arg(seg), home);
                (
                    ShellView {
                        phase: PhaseView::ChangingDir { change: DirChange::Cd, target },
                        ..at
                    },
                    StepView::ChangeDir(target),
                )
            },
            Command::Pushd => {
                let target = target_of(first_arg(seg), home);
                (
                    ShellView {
                        phase: PhaseView::ChangingDir { change: DirChange::Pushd, target },
                        ..at
                    },
                    StepView::ChangeDir(target),
                )
            },
            Command::Popd => {
                if self.stack.len() >= 2 {
                    let below = self.stack.drop_last();
                    (
                        ShellView {
                            stack: below,
                            phase: PhaseView::ChangingDir {
                                change: DirChange::Popd,
                                target: below.last(),
                            },
                            ..at
                        },
                        StepView::ChangeDir(below.last()),
                    )
                } else {
                    (at, StepView::Tell(NoticeView::Report(stack_empty_text())))
                }
            },
            Command::Dirs => (at, StepView::Tell(NoticeView::Print(listing(self.stack)))),
            _ => (
                ShellView { phase: PhaseView::Spawning, ..at },
                StepView::Spawn {
                    stage: k,
                    program: seg,
                    wiring: wiring_for(k, self.line.len(), self.head),
                },
            ),
        }
    }

    /// The shell after its next step, and the step.
    ///
    /// While dispatching, the segments without a name are passed over, and the first one
    /// with a name decides; where none is left the line is finished, and the caller waits
    /// for the head of the chain. A request that is still open is made again. A shell that
    /// prompts has nothing to run, and one that has ended stays ended.
    pub open spec fn advance(self, home: Seq<char>) -> (ShellView, StepView) {
        match self.phase {
            PhaseView::Exited => (self, StepView::Exit),
            PhaseView::Prompting => (self, StepView::Finished { wait_for: None }),
            PhaseView::ChangingDir { change, target } => (self, StepView::ChangeDir(target)),
            PhaseView::Spawning => (
                self,
                StepView::Spawn {
                    stage: (self.cursor - 1) as nat,
                    program: self.line[self.cursor - 1],
                    wiring: wiring_for((self.cursor - 1) as nat, self.line.len(), self.head),
                },
            ),
            PhaseView::Dispatching => {
                let k = next_live(self.line, self.cursor);
                if k >= self.line.len() {
                    (
                        ShellView {
                            cursor: self.line.len(),
                            head: None,
                            phase: PhaseView::Prompting,
                            ..self
                        },
                        StepView::Finished { wait_for: self.head },
                    )
                } else {
                    self.dispatch(k, home)
                }
            },
        }
    }

    /// The shell after it heard how the change of directory ended, and what to show.
    ///
    /// On success `cd` exchanges the top of the stack for the new directory and shows
    /// nothing, `pushd` puts the new directory on top and lists the stack, and `popd`, whose
    /// entry left the stack when the change was asked for, lists the stack. On failure the
    /// stack stays as it is and the reason is reported; an entry that `popd` took off is not
    /// put back. Either way the line goes on. A shell that waits for no such outcome ignores
    /// it.
    pub open spec fn dir_changed(self, outcome: Outcome) -> (ShellView, Option<NoticeView>) {
        match self.phase {
            PhaseView::ChangingDir { change, target } => {
                let on = ShellView { phase: PhaseView::Dispatching, ..self };
                match outcome {
                    Ok(_) => match change {
                        DirChange::Cd => (
                            ShellView { stack: with_top(self.stack, target), ..on },
                            None,
                        ),
                        DirChange::Pushd => (
                            ShellView { stack: self.stack.push(target), ..on },
                            Some(NoticeView::Print(listing(self.stack.push(target)))),
                        ),
                        DirChange::Popd => (on, Some(NoticeView::Print(listing(self.stack)))),
                    },
                    Err(reason) => (on, Some(NoticeView::Report(dir_error_text(reason)))),
                }
            },
            _ => (self, None),
        }
    }

    /// The shell after it heard whether the program could be started, and what to show.
    ///
    /// A started program becomes the head of the chain. One that could not be started is
    /// reported and leaves the chain without a head, so that the next stage reads the
    /// shell's own input. Either way the line goes on. A shell that waits for no such
    /// outcome ignores it.
    pub open spec fn spawned(self, outcome: Outcome) -> (ShellView, Option<NoticeView>) {
        match self.phase {
            PhaseView::Spawning => {
                let on = ShellView { phase: PhaseView::Dispatching, ..self };
                match outcome {
                    Ok(_) => (ShellView { head: Some((self.cursor - 1) as nat), ..on }, None),
                    Err(reason) => (
                        ShellView { head: None, ..on },
                        Some(NoticeView::Report(spawn_error_text(reason))),
                    ),
                }
            },
            _ => (self, None),
        }
    }
}

/// What the caller reported, as the model sees it.
pub open spec fn outcome_view(outcome: Result<(), String>) -> Outcome {
    match outcome {
        Ok(_) => Ok(()),
        Err(reason) => Err(reason@),
    }
}

/// What is shown, if anything, as the model sees it.
pub open spec fn shown(notice: Option<Notice>) -> Option<NoticeView> {
    match notice {
        Some(n) => Some(n@),
        None => None,
    }
}

/// The shell: its directory stack, the line it is working on, and where it stands.
pub struct Shell {
    stack: DirStack,
    segments: Vec<Segment>,
    cursor: usize,
    head: Option<usize>,
    phase: Phase,
}

impl View for Shell {
    type V = ShellView;

    closed spec fn view(&self) -> ShellView {
        ShellView {
            stack: self.stack@,
            line: segment_views(self.segments@),
            cursor: self.cursor as nat,
            head: index_view(self.head),
            phase: self.phase@,
        }
    }
}

impl Shell {
    /// A shell that starts in the directory `startup` and waits for its first line.
    pub fn new(startup: String) -> (shell: Shell)
        ensures
            shell@ == ShellView::start(startup@),
            shell@.inv(),
    {
        let shell = Shell {
            stack: DirStack::new(startup),
            segments: Vec::new(),
            cursor: 0,
            head: None,
            phase: Phase::Prompting,
        };
        assert(shell@.line =~= Seq::<SegmentView>::empty());
        shell
    }

    /// The directory stack.
    pub fn stack(&self) -> (stack: &DirStack)
        ensures
            stack@ == self@.stack,
    {
        &self.stack
    }

    /// Where the loop stands.
    pub fn phase(&self) -> (phase: &Phase)
        ensures
            phase@ == self@.phase,
    {
        &self.phase
    }

    /// The segments of the line at hand.
    pub fn segments(&self) -> (segments: &Vec<Segment>)
        ensures
            segment_views(segments@) == self@.line,
    {
        &self.segments
    }

    /// Takes the next line of input. Only a prompting shell takes a line; any other leaves
    /// it aside.
    pub fn feed_line(&mut self, line: &str)
        requires
            old(self)@.inv(),
        ensures
            final(self)@ == old(self)@.feed(line@),
            final(self)@.inv(),
    {
        if let Phase::Prompting = &self.phase {
            self.segments = parse_line(line);
            self.cursor = 0;
            self.head = None;
            self.phase = Phase::Dispatching;
        }
    }

    /// The index of the first segment at or after the cursor that has a name.
    fn next_live_index(&self) -> (k: usize)
        requires
            self.cursor <= self.segments@.len(),
        ensures
            k == next_live(segment_views(self.segments@), self.cursor as nat),
            self.cursor <= k <= self.segments@.len(),
    {
        let ghost line = segment_views(self.segments@);
        let n: usize = self.segments.len();
        let mut k: usize = self.cursor;
        while k < n && self.segments[k].name.as_str().is_empty()
            invariant
                line == segment_views(self.segments@),
                n == self.segments@.len(),
                self.cursor <= k <= n,
                next_live(line, self.cursor as nat) == next_live(line, k as nat),
            decreases n - k,
        {
            k += 1;
        }
        k
    }

    /// Takes the next step of the loop and says what the caller has to do.
    pub fn advance(&mut self, home: &str) -> (step: Step)
        requires
            old(self)@.inv(),
        ensures
            (final(self)@, step@) == old(self)@.advance(home@),
            final(self)@.inv(),
    {
        match &self.phase {
            Phase::Exited => {
                return Step::Exit;
            },
            Phase::Prompting => {
                return Step::Finished { wait_for: None };
            },
            Phase::ChangingDir { change, target } => {
                return Step::ChangeDir(target.clone());
            },
            Phase::Spawning => {
                let stage: usize = self.cursor - 1;
                return Step::Spawn {
                    stage,
                    program: self.segments[stage].duplicate(),
                    wiring: wire(stage, self.segments.len(), self.head),
                };
            },
            Phase::Dispatching => {},
        }
        let n: usize = self.segments.len();
        let k: usize = self.next_live_index();
        if k >= n {
            let wait_for = self.head;
            self.cursor = n;
            self.head = None;
            self.phase = Phase::Prompting;
            return Step::Finished { wait_for };
        }
        let seg = &self.segments[k];
        assert(seg@ == old(self)@.line[k as int]);
        let command = classify(seg.name.as_str());
        let arg: Option<&str> = if seg.args.len() > 0 {
            Some(seg.args[0].as_str())
        } else {
            None
        };
        self.cursor = k + 1;
        match command {
            Command::Exit => {
                self.phase = Phase::Exited;
                Step::Exit
            },
            Command::Cd => {
                let target = resolve_target(arg, home);
                self.phase = Phase::ChangingDir { change: DirChange::Cd, target: target.clone() };
                Step::ChangeDir(target)
            },
            Command::Pushd => {
                let target = resolve_target(arg, home);
                self.phase = Phase::ChangingDir { change: DirChange::Pushd, target: target.clone() };
                Step::ChangeDir(target)
            },
            Command::Popd => {
                match self.stack.pop() {
                    Ok(_) => {
                        let target = self.stack.peek_top();
                        self.phase = Phase::ChangingDir {
                            change: DirChange::Popd,
                            target: target.clone(),
                        };
                        Step::ChangeDir(target)
                    },
                    Err(_) => Step::Tell(Notice::Report(stack_empty())),
                }
            },
            Command::Dirs => Step::Tell(Notice::Print(self.stack.render())),
            _ => {
                let program = seg.duplicate();
                self.phase = Phase::Spawning;
                Step::Spawn { stage: k, program, wiring: wire(k, n, self.head) }
            },
        }
    }

    /// Hears how the change of directory that the shell asked for ended, and says what to
    /// show to the user.
    pub fn dir_changed(&mut self, outcome: Result<(), String>) -> (notice: Option<Notice>)
        requires
            old(self)@.inv(),
        ensures
            (final(self)@, shown(notice)) == old(self)@.dir_changed(outcome_view(outcome)),
            final(self)@.inv(),
    {
        let mut phase = Phase::Dispatching;
        std::mem::swap(&mut self.phase, &mut phase);
        match phase {
            Phase::ChangingDir { change, target } => {
                match outcome {
                    Ok(_) => match change {
                        DirChange::Cd => {
                            self.stack.replace_top(target);
                            None
                        },
                        DirChange::Pushd => {
                            self.stack.push(target);
                            Some(Notice::Print(self.stack.render()))
                        },
                        DirChange::Popd => Some(Notice::Print(self.stack.render())),
                    },
                    Err(reason) => Some(Notice::Report(dir_error(reason.as_str()))),
                }
            },
            other => {
                self.phase = other;
                None
            },
        }
    }

    /// Hears whether the program that the shell asked for could be started, and says what
    /// to show to the user.
    pub fn spawned(&mut self, outcome: Result<(), String>) -> (notice: Option<Notice>)
        requires
            old(self)@.inv(),
        ensures
            (final(self)@, shown(notice)) == old(self)@.spawned(outcome_view(outcome)),
            final(self)@.inv(),
    {
        if let Phase::Spawning = &self.phase {
            self.phase = Phase::Dispatching;
            match outcome {
                Ok(_) => {
                    self.head = Some(self.cursor - 1);
                    None
                },
                Err(reason) => {
                    self.head = None;
                    Some(Notice::Report(spawn_error(reason.as_str())))
                },
            }
        } else {
            None
        }
    }
}

} // verus!
