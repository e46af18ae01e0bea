use shell_core::command::{classify, resolve_target, Command};
use shell_core::home::get_home_dir;
use shell_core::pipeline::{wire, Sink, Source, Wiring};
use shell_core::report::{
    dir_error, home_or_root, prompt, read_error, spawn_error, stack_empty, working_dir_or_unknown,
};
use shell_core::stack::{DirStack, StackEmpty};

fn s(text: &str) -> String {
    text.to_string()
}

#[test]
fn new_stack_holds_the_start_directory() {
    let stack = DirStack::new(s("/home/u"));
    assert_eq!(stack.len(), 1);
    assert_eq!(stack.peek_top(), "/home/u");
    assert_eq!(stack.enumerate(), vec![s("/home/u")]);
    assert_eq!(stack.render(), "/home/u\n");
}

#[test]
fn push_grows_and_lists_newest_first() {
    let mut stack = DirStack::new(s("/p0"));
    stack.push(s("/p1"));
    stack.push(s("/p2"));
    stack.push(s("/p3"));
    assert_eq!(stack.len(), 4);
    assert_eq!(stack.peek_top(), "/p3");
    assert_eq!(stack.enumerate(), vec![s("/p3"), s("/p2"), s("/p1"), s("/p0")]);
    assert_eq!(stack.render(), "/p3 /p2 /p1 /p0\n");
}

#[test]
fn pop_removes_the_top() {
    let mut stack = DirStack::new(s("/a"));
    stack.push(s("/b"));
    assert_eq!(stack.pop(), Ok(()));
    assert_eq!(stack.enumerate(), vec![s("/a")]);
}

#[test]
fn pop_never_removes_the_bottom() {
    let mut stack = DirStack::new(s("/a"));
    assert_eq!(stack.pop(), Err(StackEmpty));
    assert_eq!(stack.enumerate(), vec![s("/a")]);
    let mut none = DirStack::empty();
    assert_eq!(none.pop(), Err(StackEmpty));
    assert_eq!(none.len(), 0);
}

#[test]
fn peek_top_of_empty_stack_is_root() {
    let stack = DirStack::empty();
    assert_eq!(stack.peek_top(), "/");
    assert_eq!(stack.enumerate(), Vec::<String>::new());
    assert_eq!(stack.render(), "\n");
}

#[test]
fn replace_top_does_not_grow() {
    let mut stack = DirStack::new(s("/a"));
    stack.push(s("/b"));
    stack.replace_top(s("/c"));
    assert_eq!(stack.enumerate(), vec![s("/c"), s("/a")]);
    let mut none = DirStack::empty();
    none.replace_top(s("/x"));
    assert_eq!(none.enumerate(), vec![s("/x")]);
}

#[test]
fn classify_knows_the_builtins() {
    assert_eq!(classify("exit"), Command::Exit);
    assert_eq!(classify("cd"), Command::Cd);
    assert_eq!(classify("pushd"), Command::Pushd);
    assert_eq!(classify("popd"), Command::Popd);
    assert_eq!(classify("dirs"), Command::Dirs);
    assert_eq!(classify(""), Command::Blank);
}

#[test]
fn classify_is_exact_and_case_sensitive() {
    assert_eq!(classify("ls"), Command::External);
    assert_eq!(classify("CD"), Command::External);
    assert_eq!(classify("Exit"), Command::External);
    assert_eq!(classify("cdx"), Command::External);
    assert_eq!(classify("c"), Command::External);
    assert_eq!(classify("dirs "), Command::External);
}

#[test]
fn target_defaults_to_home() {
    assert_eq!(resolve_target(None, "/home/u"), "/home/u");
    assert_eq!(resolve_target(Some("~"), "/home/u"), "/home/u");
}

#[test]
fn target_without_argument_is_home_even_with_tilde_in_it() {
    assert_eq!(resolve_target(None, "/home/~u"), "/home/~u");
}

#[test]
fn target_replaces_every_tilde() {
    assert_eq!(resolve_target(Some("~/src"), "/home/u"), "/home/u/src");
    assert_eq!(resolve_target(Some("/tmp"), "/home/u"), "/tmp");
    assert_eq!(resolve_target(Some("a~b~"), "H"), "aHbH");
    assert_eq!(resolve_target(Some("~~"), "/h"), "/h/h");
    assert_eq!(resolve_target(Some(""), "/h"), "");
    assert_eq!(resolve_target(Some("ñ~é"), "/h"), "ñ/hé");
    assert_eq!(resolve_target(Some("~"), ""), "");
}

#[test]
fn target_agrees_with_std_replace() {
    let args = ["", "~", "~~", "a", "~a", "a~", "a~b", "/x/~/y/~", "ü~ü"];
    let homes = ["", "/", "/home/u", "~", "a~b"];
    for arg in args {
        for home in homes {
            assert_eq!(resolve_target(Some(arg), home), arg.replace("~", home));
        }
    }
}

#[test]
fn report_texts() {
    assert_eq!(prompt("/home/u"), "/home/u> ");
    assert_eq!(prompt("?"), "?> ");
    assert_eq!(dir_error("No such file or directory (os error 2)"),
        "Error switching directories: No such file or directory (os error 2)");
    assert_eq!(spawn_error("not found"), "Error occurred with excution: not found");
    assert_eq!(read_error("stream closed"), "Error reading input: stream closed");
    assert_eq!(stack_empty(), "popd: directory stack empty");
}

#[test]
fn fallback_directories() {
    assert_eq!(working_dir_or_unknown(Some(s("/w"))), "/w");
    assert_eq!(working_dir_or_unknown(None), "?");
    assert_eq!(home_or_root(Some(s("/home/u"))), "/home/u");
    assert_eq!(home_or_root(None), "/");
}

#[test]
fn home_dir_is_what_dirs_reports() {
    let expected = match dirs::home_dir() {
        Some(path) => match path.into_os_string().into_string() {
            Ok(text) => text,
            Err(_) => s("/"),
        },
        None => s("/"),
    };
    assert_eq!(get_home_dir(), expected);
    assert!(!get_home_dir().is_empty());
}

#[test]
fn wire_first_middle_last() {
    assert_eq!(wire(0, 3, None), Wiring { stdin: Source::Inherit, stdout: Sink::Pipe });
    assert_eq!(wire(1, 3, Some(0)), Wiring { stdin: Source::Upstream(0), stdout: Sink::Pipe });
    assert_eq!(wire(2, 3, Some(1)), Wiring { stdin: Source::Upstream(1), stdout: Sink::Inherit });
    assert_eq!(wire(0, 1, None), Wiring { stdin: Source::Inherit, stdout: Sink::Inherit });
    assert_eq!(wire(1, 2, None), Wiring { stdin: Source::Inherit, stdout: Sink::Inherit });
    assert_eq!(wire(usize::MAX, usize::MAX, None).stdout, Sink::Inherit);
}
