use volition::json::Json;
use volition::servers::{
    choose_run_dir, create_schema_object, filesystem_request, filesystem_server_tools, first_word_of, fs_failure,
    git_failure, git_reply, git_request, git_request_error, git_server_tools, search_file_lines, search_reply, search_request,
    search_server_tools, shell_reply, shell_request, shell_server_tools, walk_error_line, FsOperation, FsRequest,
    GitRequestError, ProcessOutput, RunDir, ToolCallError,
};

fn s(x: &str) -> Json {
    Json::String(x.to_string())
}

fn obj(entries: Vec<(&str, Json)>) -> Vec<(String, Json)> {
    entries.into_iter().map(|(k, v)| (k.to_string(), v)).collect()
}

fn member<'a>(j: &'a Json, k: &str) -> &'a Json {
    j.get(k).unwrap()
}

#[test]
fn schema_object_has_type_properties_and_required() {
    let schema = create_schema_object(obj(vec![("a", s("x"))]), vec!["a".to_string()]);
    assert_eq!(member(&schema, "type").as_str(), Some("object"));
    assert_eq!(member(member(&schema, "properties"), "a").as_str(), Some("x"));
    let required = member(&schema, "required").as_array().unwrap();
    assert_eq!(required.len(), 1);
    assert_eq!(required[0].as_str(), Some("a"));
}

#[test]
fn servers_offer_their_tools() {
    let git = git_server_tools();
    assert_eq!(git.len(), 1);
    assert_eq!(git[0].name, "git");
    let props = member(&git[0].input_schema, "properties");
    assert_eq!(member(member(props, "args"), "type").as_str(), Some("array"));
    assert_eq!(member(member(member(props, "args"), "items"), "type").as_str(), Some("string"));

    let fs = filesystem_server_tools();
    let names: Vec<&str> = fs.iter().map(|t| t.name.as_str()).collect();
    assert_eq!(names, vec!["read_file", "write_file"]);
    let required = member(&fs[1].input_schema, "required").as_array().unwrap();
    assert_eq!(required.len(), 2);

    assert_eq!(search_server_tools()[0].name, "search_text");
    let search = search_server_tools();
    let cs = member(member(&search[0].input_schema, "properties"), "case_sensitive");
    assert_eq!(member(cs, "type").as_str(), Some("boolean"));
    assert_eq!(shell_server_tools()[0].description, "Executes a shell command.");
}

#[test]
fn filesystem_calls_are_checked() {
    let args = obj(vec![("path", s("a.txt"))]);
    match filesystem_request("read_file", Some(&args)).unwrap() {
        FsRequest::Read { path } => assert_eq!(path, "a.txt"),
        other => panic!("unexpected {:?}", other),
    }
    assert!(matches!(filesystem_request("read_file", None),
        Err(ToolCallError::InvalidParams(m)) if m == "Missing arguments"));
    let no_path = obj(vec![("path", Json::Bool(true))]);
    assert!(matches!(filesystem_request("read_file", Some(&no_path)),
        Err(ToolCallError::InvalidParams(m)) if m == "Missing 'path' argument"));
    assert!(matches!(filesystem_request("write_file", Some(&args)),
        Err(ToolCallError::InvalidParams(m)) if m == "Missing 'content' argument"));
    let full = obj(vec![("path", s("a.txt")), ("content", s("hi"))]);
    match filesystem_request("write_file", Some(&full)).unwrap() {
        FsRequest::Write { path, content } => assert_eq!((path.as_str(), content.as_str()), ("a.txt", "hi")),
        other => panic!("unexpected {:?}", other),
    }
    assert!(matches!(filesystem_request("delete_file", Some(&full)), Err(ToolCallError::MethodNotFound)));
    assert!(matches!(fs_failure(FsOperation::WriteFile, "denied"),
        ToolCallError::Internal(m) if m == "Failed to write file: denied"));
}

#[test]
fn git_calls_are_read_and_denied_by_first_word() {
    let args = obj(vec![
        ("subcommand", s("log")),
        ("args", Json::Array(vec![s("-n"), s("1")])),
        ("path", s("repo")),
    ]);
    let q = git_request("git", Some(&args)).unwrap();
    assert_eq!(q.subcommand, "log");
    assert_eq!(q.args, vec!["-n".to_string(), "1".to_string()]);
    assert_eq!(q.path.as_deref(), Some("repo"));

    let q = git_request("git", Some(&obj(vec![("subcommand", s("status"))]))).unwrap();
    assert!(q.args.is_empty());
    assert!(q.path.is_none());

    let denied = obj(vec![("subcommand", s("  Branch -D topic"))]);
    match git_request("git", Some(&denied)) {
        Err(GitRequestError::Denied(b)) => {
            assert_eq!(b, "Branch");
            assert!(matches!(git_request_error(&GitRequestError::Denied(b), ""),
                ToolCallError::InvalidRequest(m)
                    if m == "Execution of git subcommand 'Branch' is denied for security reasons."));
        }
        other => panic!("unexpected {:?}", other),
    }
    assert!(matches!(git_request("git", None), Err(GitRequestError::MissingSubcommand)));
    let bad = obj(vec![("subcommand", s("log")), ("args", Json::Array(vec![Json::Number("1".to_string())]))]);
    assert!(matches!(git_request("git", Some(&bad)), Err(GitRequestError::InvalidArgs)));
    assert!(matches!(git_request("svn", Some(&args)), Err(GitRequestError::UnknownTool)));
    assert!(matches!(git_request_error(&GitRequestError::MissingSubcommand, ""),
        ToolCallError::InvalidParams(m) if m == "Missing required argument: subcommand"));
    assert!(matches!(git_request_error(&GitRequestError::InvalidArgs, "bad"),
        ToolCallError::InvalidParams(m) if m == "Invalid format for 'args': bad"));
}

#[test]
fn first_word_follows_split_whitespace() {
    assert_eq!(first_word_of("  diff --stat"), "diff");
    assert_eq!(first_word_of("status"), "status");
    assert_eq!(first_word_of("\tlog\u{3000}x"), "log");
    assert_eq!(first_word_of("   "), "   ");
    assert_eq!(first_word_of(""), "");
}

#[test]
fn git_runs_where_the_path_points() {
    assert_eq!(choose_run_dir(false, false, None), RunDir::Current);
    assert_eq!(choose_run_dir(true, true, Some(true)), RunDir::Given);
    assert_eq!(choose_run_dir(true, false, Some(true)), RunDir::Parent);
    assert_eq!(choose_run_dir(true, false, Some(false)), RunDir::Current);
    assert_eq!(choose_run_dir(true, false, None), RunDir::Current);
}

#[test]
fn git_reply_reports_exit_code_and_streams() {
    let out = ProcessOutput { code: Some(1), success: false, stdout: "a".to_string(), stderr: "b".to_string() };
    let r = git_reply(&out);
    assert_eq!(r.content, vec!["Exit Code: 1\n--- STDOUT ---\na\n--- STDERR ---\nb\n".to_string()]);
    assert!(r.is_error);
    let out = ProcessOutput { code: None, success: true, stdout: String::new(), stderr: String::new() };
    let r = git_reply(&out);
    assert_eq!(r.content[0], "Exit Code: -1\n--- STDOUT ---\n\n--- STDERR ---\n\n");
    assert!(!r.is_error);
}

#[test]
fn search_calls_default_path_and_case() {
    let args = obj(vec![("pattern", s("Foo"))]);
    let q = search_request("search_text", Some(&args)).unwrap();
    assert_eq!((q.pattern.as_str(), q.path.as_str(), q.case_sensitive), ("Foo", ".", false));
    let args = obj(vec![("pattern", s("Foo")), ("path", s("src")), ("case_sensitive", Json::Bool(true))]);
    let q = search_request("search_text", Some(&args)).unwrap();
    assert_eq!((q.path.as_str(), q.case_sensitive), ("src", true));
    assert!(matches!(search_request("search_text", Some(&obj(vec![]))),
        Err(ToolCallError::InvalidParams(m)) if m == "Missing 'pattern' argument"));
    assert!(matches!(search_request("grep", Some(&args)), Err(ToolCallError::MethodNotFound)));
}

#[test]
fn search_lines_are_numbered_from_one_and_skip_unreadable_lines() {
    let lines = vec![Some("let Foo = 1;".to_string()), None, Some("foo()".to_string()), Some("bar".to_string())];
    assert_eq!(
        search_file_lines("a.rs", &lines, "foo", false),
        vec![" a.rs:1:let Foo = 1;".to_string(), " a.rs:3:foo()".to_string()]
    );
    assert_eq!(search_file_lines("a.rs", &lines, "foo", true), vec![" a.rs:3:foo()".to_string()]);
    assert_eq!(search_reply(&[]).content, vec!["No matches found.".to_string()]);
    let r = search_reply(&[" a:1:x".to_string(), " b:2:y".to_string()]);
    assert_eq!(r.content, vec![" a:1:x\n b:2:y".to_string()]);
    assert!(!r.is_error);
    assert_eq!(walk_error_line("oops"), "ERROR walking directory: oops");
}

#[test]
fn shell_calls_and_replies() {
    let args = obj(vec![("command", s("ls")), ("workdir", s("/tmp"))]);
    let q = shell_request("shell", Some(&args)).unwrap();
    assert_eq!((q.command.as_str(), q.workdir.as_deref()), ("ls", Some("/tmp")));
    assert!(matches!(shell_request("shell", None),
        Err(ToolCallError::InvalidParams(m)) if m == "Missing arguments"));
    assert!(matches!(shell_request("shell", Some(&obj(vec![]))),
        Err(ToolCallError::InvalidParams(m)) if m == "Missing 'command' argument"));
    let run = Ok(ProcessOutput { code: Some(0), success: true, stdout: "x".to_string(), stderr: String::new() });
    let r = shell_reply("ls", &run);
    assert_eq!(r.content, vec!["Exit Code: 0\\n--- STDOUT ---\\nx\\n--- STDERR ---\\n".to_string()]);
    assert!(!r.is_error);
    let r = shell_reply("nope", &Err("not found".to_string()));
    assert_eq!(r.content, vec!["Failed to execute command 'nope': not found".to_string()]);
    assert!(r.is_error);
}

#[test]
fn git_failure_quotes_the_reason_the_args_were_refused() {
    let bad = obj(vec![("subcommand", s("log")), ("args", Json::Array(vec![Json::Number("1".to_string())]))]);
    match git_failure(&GitRequestError::InvalidArgs, Some(&bad)) {
        ToolCallError::InvalidParams(m) => {
            assert_eq!(m, "Invalid format for 'args': invalid type: integer `1`, expected a string")
        }
        other => panic!("unexpected {:?}", other),
    }
    assert!(matches!(git_failure(&GitRequestError::MissingSubcommand, None),
        ToolCallError::InvalidParams(m) if m == "Missing required argument: subcommand"));
}
