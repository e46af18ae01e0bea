//! How the stages of a pipeline are wired: where each stage reads from and where it writes.

use vstd::prelude::*;

verus! {

/// Where a stage reads its standard input from.
#[derive(Debug, Clone, Copy, PartialEq, Eq, Structural)]
pub enum Source {
    /// The shell's own standard input.
    Inherit,
    /// The standard output of the process started for the segment with this index. The
    /// stream passes to the new stage; nobody else keeps it.
    Upstream(usize),
}

/// Where a stage writes its standard output to.
#[derive(Debug, Clone, Copy, PartialEq, Eq, Structural)]
pub enum Sink {
    /// The shell's own standard output.
    Inherit,
    /// A new pipe, for the next stage to read.
    Pipe,
}

/// The two ends of one stage.
#[derive(Debug, Clone, Copy, PartialEq, Eq, Structural)]
pub struct Wiring {
    pub stdin: Source,
    pub stdout: Sink,
}

/// The input of a new stage, given the stage that currently heads the chain: it reads from
/// that stage, or from the shell's input where there is none.
pub open spec fn source_for(head: Option<nat>) -> Source {
    match head {
        Some(j) => Source::Upstream(j as usize),
        None => Source::Inherit,
    }
}

/// The output of the segment at `index` in a line of `count` segments: the last segment
/// writes to the shell's output, every other one into a pipe.
pub open spec fn sink_for(index: nat, count: nat) -> Sink {
    if index + 1 < count {
        Sink::Pipe
    } else {
        Sink::Inherit
    }
}

/// The wiring of the segment at `index` in a line of `count` segments, with `head` the stage
/// that currently heads the chain.
pub open spec fn wiring_for(index: nat, count: nat, head: Option<nat>) -> Wiring {
    Wiring { stdin: source_for(head), stdout: sink_for(index, count) }
}

/// An index as a number, where there is one.
pub open spec fn index_view(i: Option<usize>) -> Option<nat> {
    match i {
        Some(j) => Some(j as nat),
        None => None,
    }
}

/// Wires the segment at `index` in a line of `count` segments, with `head` the stage that
/// currently heads the chain.
pub fn wire(index: usize, count: usize, head: Option<usize>) -> (w: Wiring)
    ensures
        w == wiring_for(index as nat, count as nat, index_view(head)),
{
    let stdin = match head {
        Some(j) => Source::Upstream(j),
        None => Source::Inherit,
    };
    let stdout = if index < count && count - index > 1 {
        Sink::Pipe
    } else {
        Sink::Inherit
    };
    Wiring { stdin, stdout }
}

} // verus!
