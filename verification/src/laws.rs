//! What holds of the shell whatever it is given: laws that relate the steps of the state
//! machine to each other.

use crate::command::{command_of, Command};
use crate::parse::{first_delimiter, parse, segment_of, segments_of, split_segments, words, SegmentView};
use crate::pipeline::{Sink, Source, Wiring};
use crate::shell::{next_live, DirChange, NoticeView, Outcome, PhaseView, ShellView, StepView};
use crate::report::stack_empty_text;
use crate::stack::{listing, spaced};
use crate::text::{is_space, trim, trim_end, trim_start};
use vstd::prelude::*;

verus! {

/// The first segment with a name lies between the cursor and the end of the line, and no
/// segment before it has a name.
pub proof fn lemma_next_live(line: Seq<SegmentView>, from: nat)
    requires
        from <= line.len(),
    ensures
        from <= next_live(line, from) <= line.len(),
        forall|i: int| from <= i < next_live(line, from) ==> (#[trigger] line[i]).name.len() == 0,
        next_live(line, from) < line.len() ==> line[next_live(line, from) as int].name.len() > 0,
    decreases line.len() - from,
{
    if from < line.len() && line[from as int].name.len() == 0 {
        lemma_next_live(line, from + 1);
    }
}

/// The state that holds at the start holds after every step: whatever line is fed, whatever
/// the home directory is and however the outside world answers, the stack keeps an entry and
/// the cursor, the head of the chain and the open request stay in step with each other.
pub proof fn lemma_steps_keep_invariant(
    s: ShellView,
    startup: Seq<char>,
    line: Seq<char>,
    home: Seq<char>,
    outcome: Outcome,
)
    requires
        s.inv(),
    ensures
        ShellView::start(startup).inv(),
        s.feed(line).inv(),
        s.advance(home).0.inv(),
        s.dir_changed(outcome).0.inv(),
        s.spawned(outcome).0.inv(),
{
    lemma_next_live(s.line, s.cursor);
}

/// The shell after a `pushd` to each of `paths` in turn, every one of them successful.
pub open spec fn after_pushds(s: ShellView, paths: Seq<Seq<char>>) -> ShellView
    decreases paths.len(),
{
    if paths.len() == 0 {
        s
    } else {
        let before = after_pushds(s, paths.drop_last());
        ShellView {
            phase: PhaseView::ChangingDir { change: DirChange::Pushd, target: paths.last() },
            ..before
        }.dir_changed(Ok(())).0
    }
}

/// After successful `pushd`s to `paths[0]`, ..., `paths[n-1]` in a shell started in `startup`,
/// the stack holds the start directory below the paths in the order in which they were
/// pushed, and `dirs` lists `paths[n-1]` ... `paths[0]` and then `startup`, with single
/// spaces between them.
pub proof fn lemma_pushds_list_newest_first(startup: Seq<char>, paths: Seq<Seq<char>>)
    ensures
        after_pushds(ShellView::start(startup), paths).stack == seq![startup] + paths,
        listing(after_pushds(ShellView::start(startup), paths).stack) == spaced(
            paths.reverse().push(startup),
        ) + seq!['\n'],
    decreases paths.len(),
{
    let s = ShellView::start(startup);
    if paths.len() == 0 {
        assert(after_pushds(s, paths).stack =~= seq![startup] + paths);
    } else {
        lemma_pushds_list_newest_first(startup, paths.drop_last());
        assert(after_pushds(s, paths).stack =~= seq![startup] + paths);
    }
    assert((seq![startup] + paths).reverse() =~= paths.reverse().push(startup));
}

/// A `popd` on a stack with a single entry changes nothing: the stack stays as it is, no
/// change of directory is asked for, and the user is told that the stack is empty.
pub proof fn lemma_popd_keeps_last_entry(s: ShellView, home: Seq<char>)
    requires
        s.inv(),
        s.phase is Dispatching,
        next_live(s.line, s.cursor) < s.line.len(),
        command_of(s.line[next_live(s.line, s.cursor) as int].name) == Command::Popd,
        s.stack.len() == 1,
    ensures
        s.advance(home).0.stack == s.stack,
        s.advance(home).0.phase is Dispatching,
        s.advance(home).1 == StepView::Tell(NoticeView::Report(stack_empty_text())),
{
}

/// Whenever the shell asks for a change of directory and the change succeeds, the top of the
/// stack is the directory that was asked for: after a successful `cd`, `pushd` or `popd` the
/// stack's top names the directory the process has moved to.
pub proof fn lemma_top_is_working_dir(s: ShellView, home: Seq<char>, target: Seq<char>)
    requires
        s.inv(),
        s.advance(home).1 == StepView::ChangeDir(target),
    ensures
        s.advance(home).0.dir_changed(Ok(())).0.stack.last() == target,
        s.advance(home).0.dir_changed(Ok(())).0.phase is Dispatching,
{
    lemma_next_live(s.line, s.cursor);
}

/// A failed change of directory leaves the stack as it was when the change was asked for.
pub proof fn lemma_failed_change_keeps_stack(s: ShellView, reason: Seq<char>)
    ensures
        s.dir_changed(Err(reason)).0.stack == s.stack,
{
}

/// `exit` ends the shell as soon as the loop reaches it, whatever follows it on the line,
/// and nothing leads out of the ended state: lines are left aside, outcomes are ignored, and
/// every further step says `Exit` again.
pub proof fn lemma_exit_is_final(
    s: ShellView,
    home: Seq<char>,
    line: Seq<char>,
    outcome: Outcome,
)
    requires
        s.inv(),
        s.phase is Dispatching,
        next_live(s.line, s.cursor) < s.line.len(),
        command_of(s.line[next_live(s.line, s.cursor) as int].name) == Command::Exit,
    ensures
        s.advance(home).1 == StepView::Exit,
        s.advance(home).0.phase is Exited,
        s.advance(home).0.stack == s.stack,
        ({
            let ended = s.advance(home).0;
            &&& ended.feed(line) == ended
            &&& ended.advance(home) == (ended, StepView::Exit)
            &&& ended.dir_changed(outcome).0 == ended
            &&& ended.spawned(outcome).0 == ended
        }),
{
}

/// Text made of white space alone trims to nothing.
pub proof fn lemma_trim_of_blank(s: Seq<char>)
    requires
        forall|i: int| 0 <= i < s.len() ==> is_space(#[trigger] s[i]),
    ensures
        trim(s) == Seq::<char>::empty(),
    decreases s.len(),
{
    if s.len() > 0 {
        lemma_trim_of_blank(s.drop_first());
    } else {
        assert(s =~= Seq::<char>::empty());
    }
}

/// A line that is empty, or holds white space alone, has one segment, which has no name;
/// run by a prompting shell it shows nothing, asks for nothing and leaves the stack alone,
/// and the shell prompts again.
pub proof fn lemma_blank_line_does_nothing(s: ShellView, line: Seq<char>, home: Seq<char>)
    requires
        s.inv(),
        s.phase is Prompting,
        forall|i: int| 0 <= i < line.len() ==> is_space(#[trigger] line[i]),
    ensures
        parse(line) == seq![SegmentView { name: Seq::empty(), args: Seq::empty() }],
        s.feed(line).advance(home).1 == (StepView::Finished { wait_for: None }),
        s.feed(line).advance(home).0.phase is Prompting,
        s.feed(line).advance(home).0.stack == s.stack,
{
    let none = Seq::<char>::empty();
    lemma_trim_of_blank(line);
    lemma_trim_of_blank(none);
    assert(first_delimiter(none, 0) == 0);
    assert(split_segments(none) == seq![none]);
    assert(words(none) == Seq::<Seq<char>>::empty());
    assert(segment_of(none) == SegmentView { name: Seq::empty(), args: Seq::empty() });
    assert(parse(line) =~= seq![SegmentView { name: Seq::empty(), args: Seq::empty() }]);
    let fed = s.feed(line);
    assert(next_live(fed.line, 1) == 1);
    assert(next_live(fed.line, 0) == 1);
}

/// True where every segment of `line` names a program to run.
pub open spec fn all_external(line: Seq<SegmentView>) -> bool {
    forall|i: int| 0 <= i < line.len() ==> command_of((#[trigger] line[i]).name) == Command::External
}

/// The shell after `rounds` rounds in each of which it takes a step and hears that the
/// program was started.
pub open spec fn after_spawns(s: ShellView, home: Seq<char>, rounds: nat) -> ShellView
    decreases rounds,
{
    if rounds == 0 {
        s
    } else {
        after_spawns(s, home, (rounds - 1) as nat).advance(home).0.spawned(Ok(())).0
    }
}

/// The wiring of a pipeline of programs that all start: the stages are started from left
/// to right; the first reads the shell's input and every other one what the stage just
/// before it writes; the last writes to the shell's output and every other one into a pipe.
pub proof fn lemma_pipeline_wiring(s: ShellView, home: Seq<char>, i: nat)
    requires
        s.inv(),
        s.phase is Dispatching,
        s.cursor == 0,
        s.head is None,
        all_external(s.line),
        i < s.line.len(),
    ensures
        after_spawns(s, home, i) == (ShellView {
            cursor: i,
            head: if i == 0 {
                None
            } else {
                Some((i - 1) as nat)
            },
            ..s
        }),
        after_spawns(s, home, i).advance(home).1 == (StepView::Spawn {
            stage: i,
            program: s.line[i as int],
            wiring: Wiring {
                stdin: if i == 0 {
                    Source::Inherit
                } else {
                    Source::Upstream((i - 1) as usize)
                },
                stdout: if i + 1 == s.line.len() {
                    Sink::Inherit
                } else {
                    Sink::Pipe
                },
            },
        }),
    decreases i,
{
    if i > 0 {
        lemma_pipeline_wiring(s, home, (i - 1) as nat);
        let before = after_spawns(s, home, (i - 1) as nat);
        assert(next_live(before.line, before.cursor) == before.cursor);
    }
    let now = after_spawns(s, home, i);
    assert(next_live(now.line, now.cursor) == now.cursor);
}

/// When every program of a pipeline has started, the line is finished and the shell waits
/// for the last stage alone.
pub proof fn lemma_pipeline_waits_for_last(s: ShellView, home: Seq<char>)
    requires
        s.inv(),
        s.phase is Dispatching,
        s.cursor == 0,
        s.head is None,
        all_external(s.line),
        s.line.len() > 0,
    ensures
        after_spawns(s, home, s.line.len()).advance(home).1 == (StepView::Finished {
            wait_for: Some((s.line.len() - 1) as nat),
        }),
        after_spawns(s, home, s.line.len()).advance(home).0.phase is Prompting,
{
    let last = (s.line.len() - 1) as nat;
    lemma_pipeline_wiring(s, home, last);
    let before = after_spawns(s, home, last);
    assert(next_live(before.line, before.cursor) == before.cursor);
    let done = after_spawns(s, home, s.line.len());
    assert(done == before.advance(home).0.spawned(Ok(())).0);
    assert(next_live(done.line, done.cursor) == done.cursor);
}

} // verus!
