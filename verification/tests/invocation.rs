use wslshim::command::build_command;
use wslshim::command::build_invocation;
use wslshim::command::shell_escape;
use wslshim::translate::translate_path_to_win;

#[test]
fn argument_with_space_quoted() {
    assert_eq!(shell_escape(String::from("a b")), "\"a b\"");
    assert_eq!(shell_escape(String::from("two  spaces")), "\"two  spaces\"");
}

#[test]
fn argument_without_space_unchanged() {
    assert_eq!(shell_escape(String::from("ab")), "ab");
    assert_eq!(shell_escape(String::from("")), "");
    assert_eq!(shell_escape(String::from("/mnt/c/x")), "/mnt/c/x");
}

#[test]
fn command_joined_with_single_spaces() {
    let args = vec![String::from("status"), String::from("-v")];
    assert_eq!(build_command("git", &args), "git status -v");
}

#[test]
fn command_without_arguments_is_program_alone() {
    let args: Vec<String> = Vec::new();
    assert_eq!(build_command("git", &args), "git");
}

#[test]
fn end_to_end_invocation() {
    let args = vec![String::from("status"), String::from("C:\\repo\\file.txt")];
    let flags = vec![false, false];
    let cmd = build_invocation("git", &args, &flags);
    assert_eq!(cmd, "git status /mnt/c/repo/file.txt");

    let line = translate_path_to_win("/mnt/c/repo/file.txt: modified");
    assert_eq!(line, "C:\\repo\\file.txt: modified");
}

#[test]
fn invocation_quotes_translated_argument_with_space() {
    let args = vec![String::from("C:\\My Files\\a.txt")];
    let flags = vec![false];
    let cmd = build_invocation("git", &args, &flags);
    assert_eq!(cmd, "git \"/mnt/c/My Files/a.txt\"");
}

#[test]
fn program_name_passes_through_verbatim() {
    // The program name is neither translated nor escaped, even when it
    // looks like a path or contains a space.
    let args = vec![String::from("x")];
    let flags = vec![false];
    assert_eq!(build_invocation("C:\\tools\\git", &args, &flags), "C:\\tools\\git x");
    assert_eq!(build_invocation("my tool", &args, &flags), "my tool x");
}
