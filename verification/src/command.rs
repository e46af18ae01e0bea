//! The builtin dispatcher's vocabulary: which names are builtins, and which directory a `cd`
//! or `pushd` asks for.

use crate::text::chars_of;
use vstd::prelude::*;

verus! {

/// What the first word of a segment asks for.
#[derive(Debug, Clone, Copy, PartialEq, Eq, Structural)]
pub enum Command {
    /// `exit`: leave the shell.
    Exit,
    /// `cd`: move to a directory, replacing the top of the stack.
    Cd,
    /// `pushd`: move to a directory, putting it on top of the stack.
    Pushd,
    /// `popd`: go back to the directory below the top.
    Popd,
    /// `dirs`: list the stack.
    Dirs,
    /// The empty name: a stage that does nothing.
    Blank,
    /// Any other name: a program to run.
    External,
}

/// The command that `name` stands for. Names are matched exactly and with regard to case.
pub open spec fn command_of(name: Seq<char>) -> Command {
    if name == "exit"@ {
        Command::Exit
    } else if name == "cd"@ {
        Command::Cd
    } else if name == "pushd"@ {
        Command::Pushd
    } else if name == "popd"@ {
        Command::Popd
    } else if name == "dirs"@ {
        Command::Dirs
    } else if name.len() == 0 {
        Command::Blank
    } else {
        Command::External
    }
}

/// Maps a command name to the command it stands for.
pub fn classify(name: &str) -> (c: Command)
    ensures
        c == command_of(name@),
{
    let name = name.to_owned();
    if name == String::from_str("exit") {
        Command::Exit
    } else if name == String::from_str("cd") {
        Command::Cd
    } else if name == String::from_str("pushd") {
        Command::Pushd
    } else if name == String::from_str("popd") {
        Command::Popd
    } else if name == String::from_str("dirs") {
        Command::Dirs
    } else if name.as_str().is_empty() {
        Command::Blank
    } else {
        Command::External
    }
}

/// `s` with every `~` replaced by `home`.
pub open spec fn expand_home(s: Seq<char>, home: Seq<char>) -> Seq<char>
    decreases s.len(),
{
    if s.len() == 0 {
        Seq::empty()
    } else if s.last() == '~' {
        expand_home(s.drop_last(), home) + home
    } else {
        expand_home(s.drop_last(), home).push(s.last())
    }
}

/// The directory that `cd` and `pushd` ask for: the home directory where no argument is
/// given, else the argument with every `~` replaced by the home directory.
pub open spec fn target_of(arg: Option<Seq<char>>, home: Seq<char>) -> Seq<char> {
    match arg {
        None => home,
        Some(a) => expand_home(a, home),
    }
}

/// Resolves the directory that `cd` or `pushd` asks for.
pub fn resolve_target(arg: Option<&str>, home: &str) -> (target: String)
    ensures
        target@ == target_of(
            match arg {
                Some(a) => Some(a@),
                None => None,
            },
            home@,
        ),
{
    match arg {
        None => home.to_owned(),
        Some(a) => {
            let chars = chars_of(a);
            let ghost s = chars@;
            let n: usize = chars.len();
            let mut out = String::new();
            let mut start: usize = 0;
            let mut i: usize = 0;
            assert(out@ + s.subrange(0, 0) =~= expand_home(s.take(0), home@));
            while i < n
                invariant
                    s == chars@,
                    s == a@,
                    n == s.len(),
                    start <= i <= n,
                    out@ + s.subrange(start as int, i as int) == expand_home(
                        s.take(i as int),
                        home@,
                    ),
                decreases n - i,
            {
                let ghost before = expand_home(s.take(i as int), home@);
                assert(s.take(i + 1).drop_last() =~= s.take(i as int));
                if chars[i] == '~' {
                    out.append(a.substring_char(start, i));
                    out.append(home);
                    start = i + 1;
                    assert(out@ + s.subrange(start as int, i + 1) =~= before + home@);
                } else {
                    assert(out@ + s.subrange(start as int, i + 1) =~= before.push(s[i as int]));
                }
                i += 1;
            }
            out.append(a.substring_char(start, n));
            assert(s.take(n as int) =~= s);
            out
        },
    }
}

/// An argument without `~` names the directory as it is written.
pub proof fn lemma_plain_argument_is_kept(arg: Seq<char>, home: Seq<char>)
    requires
        forall|i: int| 0 <= i < arg.len() ==> arg[i] != '~',
    ensures
        target_of(Some(arg), home) == arg,
    decreases arg.len(),
{
    if arg.len() > 0 {
        lemma_plain_argument_is_kept(arg.drop_last(), home);
        assert(arg.drop_last().push(arg.last()) =~= arg);
    } else {
        assert(arg =~= Seq::<char>::empty());
    }
}

/// `cd` without an argument and `cd ~` both ask for the home directory, whatever it is.
pub proof fn lemma_bare_and_tilde_go_home(home: Seq<char>)
    ensures
        target_of(None, home) == home,
        target_of(Some(seq!['~']), home) == home,
{
    let tilde = seq!['~'];
    assert(tilde.drop_last() =~= Seq::<char>::empty());
    assert(expand_home(tilde.drop_last(), home) =~= Seq::<char>::empty());
    assert(expand_home(tilde, home) =~= home);
}

} // verus!
