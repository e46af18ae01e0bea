//! The directory stack: the history of working directories, oldest at the bottom.

use crate::text::texts;
use vstd::prelude::*;

verus! {

/// The entries of `items` written one after another with a single space between neighbours.
pub open spec fn spaced(items: Seq<Seq<char>>) -> Seq<char>
    decreases items.len(),
{
    if items.len() == 0 {
        Seq::empty()
    } else if items.len() == 1 {
        items[0]
    } else {
        spaced(items.drop_last()) + seq![' '] + items.last()
    }
}

/// The line that lists a stack: its entries from the top down, separated by single spaces and
/// closed by a line feed.
pub open spec fn listing(stack: Seq<Seq<char>>) -> Seq<char> {
    spaced(stack.reverse()) + seq!['\n']
}

/// The path reported for the top of a stack with no entries.
pub open spec fn root_path() -> Seq<char> {
    seq!['/']
}

/// The top entry of `stack`, or the root path where it has none.
pub open spec fn top_of(stack: Seq<Seq<char>>) -> Seq<char> {
    if stack.len() > 0 {
        stack.last()
    } else {
        root_path()
    }
}

/// The stack with its top entry exchanged for `path`; an empty stack gains `path`.
pub open spec fn with_top(stack: Seq<Seq<char>>, path: Seq<char>) -> Seq<Seq<char>> {
    if stack.len() > 0 {
        stack.drop_last().push(path)
    } else {
        seq![path]
    }
}

/// Raised by [`DirStack::pop`] when the stack holds fewer than two entries.
#[derive(Debug, Clone, Copy, PartialEq, Eq, Structural)]
pub struct StackEmpty;

/// The working directories visited so far, the most recent on top.
#[derive(Debug, Clone, PartialEq, Eq)]
pub struct DirStack {
    entries: Vec<String>,
}

impl View for DirStack {
    type V = Seq<Seq<char>>;

    /// The paths from the bottom of the stack to its top.
    closed spec fn view(&self) -> Seq<Seq<char>> {
        Seq::new(self.entries@.len(), |i: int| self.entries@[i]@)
    }
}

impl DirStack {
    /// A stack with no entries.
    pub fn empty() -> (s: DirStack)
        ensures
            s@ == Seq::<Seq<char>>::empty(),
    {
        let s = DirStack { entries: Vec::new() };
        assert(s@ =~= Seq::<Seq<char>>::empty());
        s
    }

    /// A stack whose only entry is the directory the shell started in.
    pub fn new(startup: String) -> (s: DirStack)
        ensures
            s@ == seq![startup@],
    {
        let mut entries: Vec<String> = Vec::new();
        entries.push(startup);
        let s = DirStack { entries };
        assert(s@ =~= seq![startup@]);
        s
    }

    /// The number of entries.
    pub fn len(&self) -> (n: usize)
        ensures
            n == self@.len(),
    {
        self.entries.len()
    }

    /// Puts `path` on top.
    pub fn push(&mut self, path: String)
        ensures
            final(self)@ == old(self)@.push(path@),
    {
        self.entries.push(path);
        assert(self@ =~= old(self)@.push(path@));
    }

    /// Removes the top entry, unless that would leave the stack without its bottom entry:
    /// with fewer than two entries the stack stays as it is and the call fails.
    pub fn pop(&mut self) -> (r: Result<(), StackEmpty>)
        ensures
            old(self)@.len() >= 2 ==> r is Ok && final(self)@ == old(self)@.drop_last(),
            old(self)@.len() < 2 ==> r is Err && final(self)@ == old(self)@,
    {
        if self.entries.len() > 1 {
            self.entries.pop();
            assert(self@ =~= old(self)@.drop_last());
            Ok(())
        } else {
            Err(StackEmpty)
        }
    }

    /// The top entry, or the root path if the stack has no entries.
    pub fn peek_top(&self) -> (top: String)
        ensures
            top@ == top_of(self@),
    {
        let n: usize = self.entries.len();
        if n > 0 {
            self.entries[n - 1].clone()
        } else {
            proof {
                reveal_strlit("/");
                assert("/"@ =~= root_path());
            }
            String::from_str("/")
        }
    }

    /// Exchanges the top entry for `path`, so that the stack records a move without growing.
    pub fn replace_top(&mut self, path: String)
        ensures
            final(self)@ == with_top(old(self)@, path@),
    {
        self.entries.pop();
        self.entries.push(path);
        assert(self@ =~= with_top(old(self)@, path@));
    }

    /// The text that the `dirs` builtin prints: every entry from the top down, separated by
    /// single spaces, then a line feed.
    pub fn render(&self) -> (line: String)
        ensures
            line@ == listing(self@),
    {
        let n: usize = self.entries.len();
        let ghost shown = self@.reverse();
        let mut line = String::new();
        let mut k: usize = 0;
        while k < n
            invariant
                n == self.entries@.len(),
                k <= n,
                shown == self@.reverse(),
                line@ == spaced(shown.take(k as int)),
            decreases n - k,
        {
            proof {
                let next = shown.take(k + 1);
                assert(next.drop_last() =~= shown.take(k as int));
                assert(next.last() == self.entries@[n - 1 - k]@);
                assert(k == 0 ==> line@ + self.entries@[n - 1 - k]@ =~= next[0]);
            }
            if k > 0 {
                line.append(" ");
                proof {
                    reveal_strlit(" ");
                    assert(" "@ =~= seq![' ']);
                }
            }
            line.append(self.entries[n - 1 - k].as_str());
            k += 1;
        }
        proof {
            reveal_strlit("\n");
            assert("\n"@ =~= seq!['\n']);
            assert(shown.take(n as int) =~= shown);
        }
        line.append("\n");
        line
    }

    /// The entries from the top down.
    pub fn enumerate(&self) -> (out: Vec<String>)
        ensures
            texts(out@) == self@.reverse(),
    {
        let n: usize = self.entries.len();
        let mut out: Vec<String> = Vec::new();
        let mut k: usize = 0;
        while k < n
            invariant
                n == self.entries@.len(),
                k <= n,
                out@.len() == k,
                forall|i: int| 0 <= i < k ==> (#[trigger] out@[i])@ == self.entries@[n - 1 - i]@,
            decreases n - k,
        {
            out.push(self.entries[n - 1 - k].clone());
            k += 1;
        }
        assert(texts(out@) =~= self@.reverse());
        out
    }
}

} // verus!
