use volition::paths::write_target_within;
use volition::cli_tools::{
    cargo_command_denial, definition_command, definition_outcome, exit_status_of, file_write_denied_message,
    file_written_message, get_denied_cargo_commands, git_command_report, git_denial_message, is_confirmed,
    is_git_command_denied, join_with, option_lines, quote_line, search_command, search_outcome,
    shell_command_report, shell_denied_message, shell_quote, write_decision, WriteDecision,
};

fn strings(v: &[&str]) -> Vec<String> {
    v.iter().map(|s| s.to_string()).collect()
}

// The shell tool's report, for the outputs that the original tests feed in.
#[test]
fn test_execute_shell_internal_success_mocked() {
    let output_str = shell_command_report(0, "Mock Success", "");
    assert!(output_str.starts_with("Command executed with status: 0"));
    assert!(output_str.contains("\nStdout:\nMock Success\n"));
    assert_eq!(
        output_str,
        "Command executed with status: 0\nStdout:\nMock Success\nStderr:\n<no output>"
    );
}

#[test]
fn test_execute_shell_internal_fail_status_stderr_mocked() {
    let output_str = shell_command_report(2, "", "ls: cannot access...");
    assert!(output_str.starts_with("Command executed with status: 2"));
    assert!(output_str.contains("\nStderr:\nls: cannot access"));
}

#[test]
fn test_execute_shell_internal_command_not_found_mocked() {
    let cmd = "this_command_should_absolutely_not_exist_ever_42";
    let output_str = shell_command_report(127, "", &format!("sh: {}: command not found", cmd));
    assert!(output_str.starts_with("Command executed with status: 127"));
    assert!(output_str.contains("command not found"));
}

#[test]
fn test_search_text_no_matches() {
    let pattern = "no_match_pattern";
    let report = "Command executed with status: 1\nStdout:\n<no output>\nStderr:\n<no output>";
    let result = search_outcome(pattern, None, None, report);
    assert!(result.contains("No matches found"));
    assert_eq!(
        result,
        "No matches found for pattern: 'no_match_pattern' in path: '.' matching glob: '*'"
    );
}

#[test]
fn test_find_rust_definition_found() {
    let symbol = "find_this_symbol";
    let report = "Command executed with status: 0\nStdout:\nsrc/lib.rs:10:1:pub fn find_this_symbol() {}\nStderr:\n<no output>";
    let output = definition_outcome(symbol, report);
    assert!(output.contains("Potential definition(s) found"));
    assert!(output.contains("src/lib.rs:10:1:pub fn find_this_symbol"));
}

#[test]
fn cargo_deny_list_is_exact() {
    assert_eq!(
        get_denied_cargo_commands(),
        strings(&["login", "logout", "publish", "owner", "yank", "install"])
    );
    assert_eq!(
        cargo_command_denial("publish"),
        Some("Error: The cargo command 'publish' is not allowed for security reasons.".to_string())
    );
    assert_eq!(cargo_command_denial("build"), None);
    assert_eq!(cargo_command_denial("Publish"), None);
}

#[test]
fn git_denial_covers_listed_commands_and_forced_branch_deletion() {
    assert!(is_git_command_denied("push", &[]));
    assert!(is_git_command_denied("pull", &strings(&["origin"])));
    assert!(is_git_command_denied("branch", &strings(&["-D", "x"])));
    assert!(!is_git_command_denied("branch", &strings(&["-d", "x"])));
    assert!(!is_git_command_denied("status", &[]));
    assert!(!is_git_command_denied("log", &strings(&["-D"])));
    assert_eq!(
        git_denial_message("push", &strings(&["origin", "main"])),
        "Error: The git command 'git push origin main' is not allowed for security or stability reasons."
    );
}

#[test]
fn git_report_marks_empty_streams() {
    assert_eq!(
        git_command_report("status", &strings(&["-s"]), 0, "M a.rs\n", ""),
        "Command executed: git status -s\nStatus: 0\nStdout:\nM a.rs\n\nStderr:\n<no output>"
    );
    assert_eq!(
        git_command_report("log", &[], -1, "", "fatal"),
        "Command executed: git log \nStatus: -1\nStdout:\n<no output>\nStderr:\nfatal"
    );
}

#[test]
fn exit_status_falls_back_on_success() {
    assert_eq!(exit_status_of(Some(3), false), 3);
    assert_eq!(exit_status_of(None, true), 0);
    assert_eq!(exit_status_of(None, false), 1);
}

#[test]
fn confirmation_takes_only_y() {
    assert!(is_confirmed("y\n"));
    assert!(is_confirmed("  Y "));
    assert!(!is_confirmed("yes"));
    assert!(!is_confirmed(""));
    assert_eq!(shell_denied_message("rm -rf x"), "Shell command execution denied by user: rm -rf x");
}

#[test]
fn shell_quoting_escapes_single_quotes() {
    assert_eq!(shell_quote("abc"), "'abc'");
    assert_eq!(shell_quote("it's"), "'it'\\''s'");
    assert_eq!(shell_quote(""), "''");
    assert_eq!(quote_line(&strings(&["rg", "a b"])), "'rg' 'a b'");
}

#[test]
fn search_command_uses_defaults() {
    assert_eq!(
        search_command("foo", None, None, None, None, None),
        "'rg' '--pretty' '--trim' '--context' '1' '--glob' '*' '--ignore-case' 'foo' '.' | head -n 50"
    );
    assert_eq!(
        search_command("it's", Some("src"), Some("*.rs"), Some(true), Some(3), Some(7)),
        "'rg' '--pretty' '--trim' '--context' '3' '--glob' '*.rs' 'it'\\''s' 'src' | head -n 7"
    );
}

#[test]
fn search_outcome_reports_results() {
    let report = "Command executed with status: 0\nStdout:\na.rs:1:x\nStderr:\n<no output>";
    assert_eq!(
        search_outcome("x", Some("src"), Some("*.rs"), report),
        format!("Search results (details included below):\n{}", report)
    );
    assert_eq!(
        search_outcome("x", Some("src"), Some("*.rs"), ""),
        "No matches found for pattern: 'x' in path: 'src' matching glob: '*.rs'"
    );
}

#[test]
fn definition_command_escapes_the_symbol() {
    let cmd = definition_command("a.b", None);
    assert_eq!(
        cmd,
        "'rg' '--pretty' '--trim' '--glob' '*.rs' '--ignore-case' '--max-count=10' '-e' \
         '^(?:pub\\s+)?(?:unsafe\\s+)?(?:async\\s+)?(fn|struct|enum|trait|const|static|type|mod|impl|macro_rules!)\\s+a\\.b\\\\b' '.'"
    );
    assert!(definition_command("Foo", Some("crates")).ends_with("Foo\\\\b' 'crates'"));
    assert_eq!(definition_outcome("Foo", ""), "No Rust definition found for symbol: Foo");
}

#[test]
fn options_are_numbered_from_one() {
    assert_eq!(
        option_lines(&strings(&["Option 1", "Option 2"])),
        strings(&["  1. Option 1", "  2. Option 2"])
    );
    assert!(option_lines(&[]).is_empty());
}

#[test]
fn file_messages_name_the_path() {
    assert_eq!(file_written_message("a/b.txt"), "Successfully wrote to file: a/b.txt");
    assert_eq!(file_write_denied_message("/etc/x"), "File write denied by user: /etc/x");
    assert_eq!(join_with(&strings(&["a", "b", "c"]), ", "), "a, b, c");
    assert_eq!(join_with(&[], ", "), "");
}

#[test]
fn writes_outside_the_working_directory_need_a_yes() {
    assert!(write_target_within("src/main.rs", "/work/project"));
    assert!(write_target_within("/work/project/a.txt", "/work/project"));
    assert!(!write_target_within("/etc/passwd", "/work/project"));
    assert!(!write_target_within("/work/project-other/a", "/work/project"));
    assert!(!write_target_within("../outside.txt", "/work/project"));
    assert!(!write_target_within("src/../../outside.txt", "/work/project"));
    assert!(write_target_within("src/../lib.rs", "/work/project"));
    assert!(write_target_within("./a//b.txt", "/work/project/"));
    assert!(write_target_within("/work/./project/x/../y", "/work/project"));
    assert!(write_target_within("/x", "/"));
    assert!(!write_target_within("../a", "project"));
    assert!(write_target_within("a", "project"));
    assert!(matches!(write_decision("a.txt", true, None), WriteDecision::Write));
    assert!(matches!(write_decision("/etc/x", false, None), WriteDecision::AskUser));
    assert!(matches!(write_decision("/etc/x", false, Some(" Y\n")), WriteDecision::Write));
    match write_decision("/etc/x", false, Some("n")) {
        WriteDecision::Denied(m) => assert_eq!(m, "File write denied by user: /etc/x"),
        _ => panic!("expected a refusal"),
    }
}

