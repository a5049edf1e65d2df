//! The decisions of the tool servers (git, file system, search and shell):
//! the tools each offers with their argument schemas, how a call's arguments
//! are read and checked, which git subcommands are refused, which lines a
//! search reports, and the text each call answers with.

use vstd::prelude::*;
use crate::json::{Json, JsonV, jv_entries, jstr, lookup, entries_get, lemma_jv_entries_push, lemma_jv_seq_push, jv_seq};
use crate::models::{str_seq, lemma_str_seq, str_array, object2, strings_to_json};
use crate::text::{occurs_at, push_str, to_owned, str_eq, chars_of, contains, to_lowercase, lowercased, has_substring, decimal, u64_to_decimal,
    white_space, span, is_white_space};
use crate::toml_value::{signed_decimal, i64_to_decimal};
use crate::cli_tools::{joined, join_with, is_listed, owned_list};

verus! {

/// An error a tool server answers a call with, by the kind of the protocol's
/// error and its message.
#[derive(Debug)]
pub enum ToolCallError {
    InvalidParams(String),
    InvalidRequest(String),
    MethodNotFound,
    Internal(String),
}

/// The view of a tool server's error.
pub enum ToolCallErrorV {
    InvalidParams(Seq<char>),
    InvalidRequest(Seq<char>),
    MethodNotFound,
    Internal(Seq<char>),
}

impl View for ToolCallError {
    type V = ToolCallErrorV;

    open spec fn view(&self) -> ToolCallErrorV {
        match self {
            ToolCallError::InvalidParams(m) => ToolCallErrorV::InvalidParams(m@),
            ToolCallError::InvalidRequest(m) => ToolCallErrorV::InvalidRequest(m@),
            ToolCallError::MethodNotFound => ToolCallErrorV::MethodNotFound,
            ToolCallError::Internal(m) => ToolCallErrorV::Internal(m@),
        }
    }
}

fn invalid_params(m: &str) -> (e: ToolCallError)
    ensures
        e@ == ToolCallErrorV::InvalidParams(m@),
{
    ToolCallError::InvalidParams(to_owned(m))
}

/// A tool a server offers: its name, what it does, and the JSON schema of
/// its arguments.
#[derive(Debug)]
pub struct ServerTool {
    pub name: String,
    pub description: String,
    pub input_schema: Json,
}

/// The view of a server's tool.
pub struct ServerToolV {
    pub name: Seq<char>,
    pub description: Seq<char>,
    pub input_schema: JsonV,
}

impl View for ServerTool {
    type V = ServerToolV;

    open spec fn view(&self) -> ServerToolV {
        ServerToolV { name: self.name@, description: self.description@, input_schema: self.input_schema@ }
    }
}

/// The JSON schema of an object with the given properties, of which the
/// named ones are required.
pub open spec fn schema_object(props: Seq<(Seq<char>, JsonV)>, required: Seq<Seq<char>>) -> JsonV {
    JsonV::Object(seq![
        ("type"@, JsonV::String("object"@)),
        ("properties"@, JsonV::Object(props)),
        ("required"@, str_array(required)),
    ])
}

/// The JSON schema of an object with the given properties, of which the
/// named ones are required.
pub fn create_schema_object(properties: Vec<(String, Json)>, required: Vec<String>) -> (r: Json)
    ensures
        r@ == schema_object(jv_entries(properties@), str_seq(required@)),
{
    let mut es: Vec<(String, Json)> = Vec::new();
    let e0 = (to_owned("type"), jstr("object"));
    let e1 = (to_owned("properties"), Json::Object(properties));
    let e2 = (to_owned("required"), strings_to_json(&required));
    proof {
        lemma_jv_entries_push(es@, e0);
        lemma_jv_entries_push(es@.push(e0), e1);
        lemma_jv_entries_push(es@.push(e0).push(e1), e2);
    }
    es.push(e0);
    es.push(e1);
    es.push(e2);
    assert(jv_entries(es@) =~= seq![
        ("type"@, JsonV::String("object"@)),
        ("properties"@, JsonV::Object(jv_entries(properties@))),
        ("required"@, str_array(str_seq(required@))),
    ]);
    Json::Object(es)
}

/// The schema of a property: its type and what it holds.
pub open spec fn typed_property(t: Seq<char>, description: Seq<char>) -> JsonV {
    JsonV::Object(seq![("type"@, JsonV::String(t)), ("description"@, JsonV::String(description))])
}

fn property(t: &str, description: &str) -> (r: Json)
    ensures
        r@ == typed_property(t@, description@),
{
    object2("type", jstr(t), "description", jstr(description))
}

fn entry(k: &str, v: Json) -> (r: (String, Json))
    ensures
        r.0@ == k@,
        r.1@ == v@,
{
    (to_owned(k), v)
}

fn tool(name: &str, description: &str, input_schema: Json) -> (t: ServerTool)
    ensures
        t@ == (ServerToolV { name: name@, description: description@, input_schema: input_schema@ }),
{
    ServerTool { name: to_owned(name), description: to_owned(description), input_schema }
}

/// The schema of the git tool's list of arguments: strings, none by default.
pub open spec fn git_args_property() -> JsonV {
    JsonV::Object(seq![
        ("type"@, JsonV::String("array"@)),
        ("items"@, JsonV::Object(seq![("type"@, JsonV::String("string"@))])),
        ("description"@, JsonV::String("Optional arguments for the git subcommand."@)),
        ("default"@, JsonV::Array(Seq::empty())),
    ])
}

/// The one tool of the git server.
pub open spec fn git_tool() -> ServerToolV {
    ServerToolV {
        name: "git"@,
        description: "Executes a git subcommand with optional arguments and path, subject to a deny list."@,
        input_schema: schema_object(
            seq![
                ("subcommand"@, typed_property("string"@,
                    "The git subcommand to execute (e.g., 'status', 'diff', 'log')."@)),
                ("args"@, git_args_property()),
                ("path"@, typed_property("string"@,
                    "Optional path to the repository (defaults to current directory)."@)),
            ],
            seq!["subcommand"@],
        ),
    }
}

fn push_entry(es: &mut Vec<(String, Json)>, k: &str, v: Json)
    ensures
        jv_entries(final(es)@) == jv_entries(old(es)@).push((k@, v@)),
{
    let e = entry(k, v);
    proof { lemma_jv_entries_push(es@, e); }
    es.push(e);
}

/// The tools of the git server.
pub fn git_server_tools() -> (r: Vec<ServerTool>)
    ensures
        r@.len() == 1,
        r@[0]@ == git_tool(),
{
    let mut items: Vec<(String, Json)> = Vec::new();
    push_entry(&mut items, "type", jstr("string"));
    let mut args: Vec<(String, Json)> = Vec::new();
    push_entry(&mut args, "type", jstr("array"));
    push_entry(&mut args, "items", Json::Object(items));
    push_entry(&mut args, "description", jstr("Optional arguments for the git subcommand."));
    push_entry(&mut args, "default", Json::Array(Vec::new()));
    assert(jv_entries(items@) =~= seq![("type"@, JsonV::String("string"@))]);
    assert(jv_entries(args@) =~= match git_args_property() { JsonV::Object(es) => es, _ => Seq::empty() });
    let mut props: Vec<(String, Json)> = Vec::new();
    push_entry(&mut props, "subcommand",
        property("string", "The git subcommand to execute (e.g., 'status', 'diff', 'log')."));
    push_entry(&mut props, "args", Json::Object(args));
    push_entry(&mut props, "path",
        property("string", "Optional path to the repository (defaults to current directory)."));
    assert(jv_entries(props@) =~= seq![
        ("subcommand"@, typed_property("string"@,
            "The git subcommand to execute (e.g., 'status', 'diff', 'log')."@)),
        ("args"@, git_args_property()),
        ("path"@, typed_property("string"@,
            "Optional path to the repository (defaults to current directory)."@)),
    ]);
    let mut required: Vec<String> = Vec::new();
    required.push(to_owned("subcommand"));
    proof {
        reveal_with_fuel(str_seq, 2);
        assert(str_seq(required@) =~= seq!["subcommand"@]);
    }
    let schema = create_schema_object(props, required);
    let mut r: Vec<ServerTool> = Vec::new();
    r.push(tool("git", "Executes a git subcommand with optional arguments and path, subject to a deny list.", schema));
    r
}

/// Properties each given by a name, a type and a description, as schemas.
pub open spec fn typed_properties(props: Seq<(&str, &str, &str)>) -> Seq<(Seq<char>, JsonV)> {
    props.map_values(|p: (&str, &str, &str)| (p.0@, typed_property(p.1@, p.2@)))
}

/// A tool whose arguments are plain typed properties.
fn simple_tool(name: &str, description: &str, props: &[(&str, &str, &str)], required: &[&str]) -> (t: ServerTool)
    ensures
        t@ == (ServerToolV {
            name: name@,
            description: description@,
            input_schema: schema_object(typed_properties(props@), required@.map_values(|s: &str| s@)),
        }),
{
    let mut es: Vec<(String, Json)> = Vec::new();
    let mut i: usize = 0;
    while i < props.len()
        invariant
            i <= props.len(),
            jv_entries(es@) == typed_properties(props@.subrange(0, i as int)),
        decreases props.len() - i,
    {
        let (k, t, d) = props[i];
        push_entry(&mut es, k, property(t, d));
        assert(typed_properties(props@.subrange(0, i + 1))
            =~= typed_properties(props@.subrange(0, i as int)).push((k@, typed_property(t@, d@))));
        i = i + 1;
    }
    assert(props@.subrange(0, props@.len() as int) =~= props@);
    let mut req: Vec<String> = Vec::new();
    let mut j: usize = 0;
    while j < required.len()
        invariant
            j <= required.len(),
            str_seq(req@) == required@.subrange(0, j as int).map_values(|s: &str| s@),
        decreases required.len() - j,
    {
        let s = to_owned(required[j]);
        proof {
            crate::models::lemma_str_seq_push(req@, s);
            assert(required@.subrange(0, j + 1).map_values(|s: &str| s@)
                =~= required@.subrange(0, j as int).map_values(|s: &str| s@).push(required@[j as int]@));
        }
        req.push(s);
        j = j + 1;
    }
    assert(required@.subrange(0, required@.len() as int) =~= required@);
    let schema = create_schema_object(es, req);
    tool(name, description, schema)
}

/// The file-reading tool of the file system server.
pub open spec fn read_file_tool() -> ServerToolV {
    ServerToolV {
        name: "read_file"@,
        description: "Reads the content of a file at the given path."@,
        input_schema: schema_object(
            seq![("path"@, typed_property("string"@, "Path to the file to read."@))],
            seq!["path"@],
        ),
    }
}

/// The file-writing tool of the file system server.
pub open spec fn write_file_tool() -> ServerToolV {
    ServerToolV {
        name: "write_file"@,
        description: "Writes the given content to a file at the specified path."@,
        input_schema: schema_object(
            seq![
                ("path"@, typed_property("string"@, "Path to the file to write."@)),
                ("content"@, typed_property("string"@, "Content to write to the file."@)),
            ],
            seq!["path"@, "content"@],
        ),
    }
}

/// The tools of the file system server.
pub fn filesystem_server_tools() -> (r: Vec<ServerTool>)
    ensures
        r@.len() == 2,
        r@[0]@ == read_file_tool(),
        r@[1]@ == write_file_tool(),
{
    let read_props = [("path", "string", "Path to the file to read.")];
    let read_req = ["path"];
    let read = simple_tool("read_file", "Reads the content of a file at the given path.", &read_props, &read_req);
    assert(typed_properties(read_props@) =~= seq![("path"@, typed_property("string"@, "Path to the file to read."@))]);
    assert(read_req@.map_values(|s: &str| s@) =~= seq!["path"@]);
    let write_props = [
        ("path", "string", "Path to the file to write."),
        ("content", "string", "Content to write to the file."),
    ];
    let write_req = ["path", "content"];
    let write = simple_tool("write_file", "Writes the given content to a file at the specified path.",
        &write_props, &write_req);
    assert(typed_properties(write_props@) =~= seq![
        ("path"@, typed_property("string"@, "Path to the file to write."@)),
        ("content"@, typed_property("string"@, "Content to write to the file."@)),
    ]);
    assert(write_req@.map_values(|s: &str| s@) =~= seq!["path"@, "content"@]);
    let mut r: Vec<ServerTool> = Vec::new();
    r.push(read);
    r.push(write);
    r
}

/// The one tool of the search server.
pub open spec fn search_tool() -> ServerToolV {
    ServerToolV {
        name: "search_text"@,
        description: "Search for text patterns in files, respecting .gitignore."@,
        input_schema: schema_object(
            seq![
                ("pattern"@, typed_property("string"@, "Text or regex pattern to search for."@)),
                ("path"@, typed_property("string"@,
                    "Optional directory or file path to search in (defaults to current directory)."@)),
                ("case_sensitive"@, typed_property("boolean"@,
                    "Perform case-sensitive search (defaults to false)."@)),
            ],
            seq!["pattern"@],
        ),
    }
}

/// The tools of the search server.
pub fn search_server_tools() -> (r: Vec<ServerTool>)
    ensures
        r@.len() == 1,
        r@[0]@ == search_tool(),
{
    let props = [
        ("pattern", "string", "Text or regex pattern to search for."),
        ("path", "string", "Optional directory or file path to search in (defaults to current directory)."),
        ("case_sensitive", "boolean", "Perform case-sensitive search (defaults to false)."),
    ];
    let req = ["pattern"];
    let t = simple_tool("search_text", "Search for text patterns in files, respecting .gitignore.", &props, &req);
    assert(typed_properties(props@) =~= seq![
        ("pattern"@, typed_property("string"@, "Text or regex pattern to search for."@)),
        ("path"@, typed_property("string"@,
            "Optional directory or file path to search in (defaults to current directory)."@)),
        ("case_sensitive"@, typed_property("boolean"@, "Perform case-sensitive search (defaults to false)."@)),
    ]);
    assert(req@.map_values(|s: &str| s@) =~= seq!["pattern"@]);
    let mut r: Vec<ServerTool> = Vec::new();
    r.push(t);
    r
}

/// The one tool of the shell server.
pub open spec fn shell_tool() -> ServerToolV {
    ServerToolV {
        name: "shell"@,
        description: "Executes a shell command."@,
        input_schema: schema_object(
            seq![
                ("command"@, typed_property("string"@, "The shell command to execute."@)),
                ("workdir"@, typed_property("string"@, "Optional working directory."@)),
            ],
            seq!["command"@],
        ),
    }
}

/// The tools of the shell server.
pub fn shell_server_tools() -> (r: Vec<ServerTool>)
    ensures
        r@.len() == 1,
        r@[0]@ == shell_tool(),
{
    let props = [
        ("command", "string", "The shell command to execute."),
        ("workdir", "string", "Optional working directory."),
    ];
    let req = ["command"];
    let t = simple_tool("shell", "Executes a shell command.", &props, &req);
    assert(typed_properties(props@) =~= seq![
        ("command"@, typed_property("string"@, "The shell command to execute."@)),
        ("workdir"@, typed_property("string"@, "Optional working directory."@)),
    ]);
    assert(req@.map_values(|s: &str| s@) =~= seq!["command"@]);
    let mut r: Vec<ServerTool> = Vec::new();
    r.push(t);
    r
}

/// The view of a call's optional argument map.
pub open spec fn opt_entries(o: Option<&Vec<(String, Json)>>) -> Option<Seq<(Seq<char>, JsonV)>> {
    match o {
        Some(v) => Some(jv_entries(v@)),
        None => None,
    }
}

/// The string argument `k`, if it is present and a string.
pub open spec fn arg_str(args: Seq<(Seq<char>, JsonV)>, k: Seq<char>) -> Option<Seq<char>> {
    match entries_get(args, k) {
        Some(JsonV::String(s)) => Some(s),
        _ => None,
    }
}

/// The boolean argument `k`, if it is present and a boolean.
pub open spec fn arg_bool(args: Seq<(Seq<char>, JsonV)>, k: Seq<char>) -> Option<bool> {
    match entries_get(args, k) {
        Some(JsonV::Bool(b)) => Some(b),
        _ => None,
    }
}

/// The string argument `k`, if it is present and a string.
pub fn str_arg(args: &Vec<(String, Json)>, k: &str) -> (r: Option<String>)
    ensures
        crate::models::opt_str(r) == arg_str(jv_entries(args@), k@),
{
    match lookup(args, k) {
        Some(v) => match v.as_str() {
            Some(s) => Some(to_owned(s)),
            None => None,
        },
        None => None,
    }
}

/// The boolean argument `k`, if it is present and a boolean.
pub fn bool_arg(args: &Vec<(String, Json)>, k: &str) -> (r: Option<bool>)
    ensures
        r == arg_bool(jv_entries(args@), k@),
{
    match lookup(args, k) {
        Some(v) => v.as_bool(),
        None => None,
    }
}

/// A call of the file system server.
#[derive(Debug)]
pub enum FsRequest {
    Read { path: String },
    Write { path: String, content: String },
}

/// The view of a call of the file system server.
pub enum FsRequestV {
    Read { path: Seq<char> },
    Write { path: Seq<char>, content: Seq<char> },
}

impl View for FsRequest {
    type V = FsRequestV;

    open spec fn view(&self) -> FsRequestV {
        match self {
            FsRequest::Read { path } => FsRequestV::Read { path: path@ },
            FsRequest::Write { path, content } => FsRequestV::Write { path: path@, content: content@ },
        }
    }
}

/// How the file system server reads a call: `read_file` needs a `path`,
/// `write_file` a `path` and a `content`, both strings; any other tool is
/// unknown.
pub open spec fn filesystem_call(name: Seq<char>, arguments: Option<Seq<(Seq<char>, JsonV)>>)
    -> Result<FsRequestV, ToolCallErrorV>
{
    if name == "read_file"@ || name == "write_file"@ {
        match arguments {
            None => Err(ToolCallErrorV::InvalidParams("Missing arguments"@)),
            Some(a) => match arg_str(a, "path"@) {
                None => Err(ToolCallErrorV::InvalidParams("Missing 'path' argument"@)),
                Some(path) => if name == "read_file"@ {
                    Ok(FsRequestV::Read { path })
                } else {
                    match arg_str(a, "content"@) {
                        None => Err(ToolCallErrorV::InvalidParams("Missing 'content' argument"@)),
                        Some(content) => Ok(FsRequestV::Write { path, content }),
                    }
                },
            },
        }
    } else {
        Err(ToolCallErrorV::MethodNotFound)
    }
}

/// Reads a call of the file system server.
pub fn filesystem_request(name: &str, arguments: Option<&Vec<(String, Json)>>) -> (r: Result<FsRequest, ToolCallError>)
    ensures
        match r {
            Ok(q) => filesystem_call(name@, opt_entries(arguments)) == Ok::<FsRequestV, ToolCallErrorV>(q@),
            Err(e) => filesystem_call(name@, opt_entries(arguments)) == Err::<FsRequestV, ToolCallErrorV>(e@),
        },
{
    let is_read = str_eq(name, "read_file");
    let is_write = str_eq(name, "write_file");
    if !is_read && !is_write {
        return Err(ToolCallError::MethodNotFound);
    }
    let a = match arguments {
        Some(a) => a,
        None => return Err(invalid_params("Missing arguments")),
    };
    let path = match str_arg(a, "path") {
        Some(p) => p,
        None => return Err(invalid_params("Missing 'path' argument")),
    };
    if is_read {
        return Ok(FsRequest::Read { path });
    }
    match str_arg(a, "content") {
        Some(content) => Ok(FsRequest::Write { path, content }),
        None => Err(invalid_params("Missing 'content' argument")),
    }
}

/// A file system operation that can fail.
#[derive(Debug, Clone, Copy, PartialEq, Eq)]
pub enum FsOperation {
    ReadFile,
    WriteFile,
    ReadResource,
}

/// The error a failed file system operation is answered with.
pub open spec fn fs_failure_text(op: FsOperation, detail: Seq<char>) -> Seq<char> {
    match op {
        FsOperation::ReadFile => "Failed to read file: "@ + detail,
        FsOperation::WriteFile => "Failed to write file: "@ + detail,
        FsOperation::ReadResource => "Failed to read resource (file): "@ + detail,
    }
}

/// The error a failed file system operation is answered with, from the
/// system's description of the failure.
pub fn fs_failure(op: FsOperation, detail: &str) -> (e: ToolCallError)
    ensures
        e@ == ToolCallErrorV::Internal(fs_failure_text(op, detail@)),
{
    let mut m = match op {
        FsOperation::ReadFile => to_owned("Failed to read file: "),
        FsOperation::WriteFile => to_owned("Failed to write file: "),
        FsOperation::ReadResource => to_owned("Failed to read resource (file): "),
    };
    push_str(&mut m, detail);
    ToolCallError::Internal(m)
}

/// What a tool server answers a call that ran: the texts of its content and
/// whether it reports a failure.
#[derive(Debug)]
pub struct ServerReply {
    pub content: Vec<String>,
    pub is_error: bool,
}

/// The reply to a file read: the file's text.
pub fn read_reply(text: String) -> (r: ServerReply)
    ensures
        str_seq(r.content@) == seq![text@],
        !r.is_error,
{
    let mut content: Vec<String> = Vec::new();
    content.push(text);
    proof { reveal_with_fuel(str_seq, 2); }
    ServerReply { content, is_error: false }
}

/// The reply to a file write: no content.
pub fn write_reply() -> (r: ServerReply)
    ensures
        r.content@.len() == 0,
        !r.is_error,
{
    ServerReply { content: Vec::new(), is_error: false }
}

/// A call of the search server.
#[derive(Debug)]
pub struct SearchRequest {
    pub pattern: String,
    pub path: String,
    pub case_sensitive: bool,
}

/// How the search server reads a call of `search_text`: a `pattern` string
/// is needed; the `path` is `.` and the search ignores case unless told
/// otherwise. Any other tool is unknown.
pub open spec fn search_call(name: Seq<char>, arguments: Option<Seq<(Seq<char>, JsonV)>>)
    -> Result<(Seq<char>, Seq<char>, bool), ToolCallErrorV>
{
    if name != "search_text"@ {
        Err(ToolCallErrorV::MethodNotFound)
    } else {
        match arguments {
            None => Err(ToolCallErrorV::InvalidParams("Missing arguments"@)),
            Some(a) => match arg_str(a, "pattern"@) {
                None => Err(ToolCallErrorV::InvalidParams("Missing 'pattern' argument"@)),
                Some(pattern) => Ok((
                    pattern,
                    match arg_str(a, "path"@) { Some(p) => p, None => "."@ },
                    match arg_bool(a, "case_sensitive"@) { Some(b) => b, None => false },
                )),
            },
        }
    }
}

/// Reads a call of the search server.
pub fn search_request(name: &str, arguments: Option<&Vec<(String, Json)>>) -> (r: Result<SearchRequest, ToolCallError>)
    ensures
        match r {
            Ok(q) => search_call(name@, opt_entries(arguments)) == Ok::<(Seq<char>, Seq<char>, bool), ToolCallErrorV>(
                (q.pattern@, q.path@, q.case_sensitive)),
            Err(e) => search_call(name@, opt_entries(arguments)) == Err::<(Seq<char>, Seq<char>, bool), ToolCallErrorV>(e@),
        },
{
    if !str_eq(name, "search_text") {
        return Err(ToolCallError::MethodNotFound);
    }
    let a = match arguments {
        Some(a) => a,
        None => return Err(invalid_params("Missing arguments")),
    };
    let pattern = match str_arg(a, "pattern") {
        Some(p) => p,
        None => return Err(invalid_params("Missing 'pattern' argument")),
    };
    let path = match str_arg(a, "path") {
        Some(p) => p,
        None => to_owned("."),
    };
    let case_sensitive = match bool_arg(a, "case_sensitive") {
        Some(b) => b,
        None => false,
    };
    Ok(SearchRequest { pattern, path, case_sensitive })
}

/// Whether a line matches a search: it holds the pattern, in the same case
/// or, for a case-insensitive search, once both are lowercased.
pub open spec fn line_matches(line: Seq<char>, pattern: Seq<char>, case_sensitive: bool) -> bool {
    if case_sensitive {
        has_substring(line, pattern)
    } else {
        has_substring(lowercased(line), lowercased(pattern))
    }
}

/// The result line of a match: the file, the line's number counted from one,
/// and the line.
pub open spec fn match_line(path: Seq<char>, index: nat, line: Seq<char>) -> Seq<char> {
    " "@ + path + ":"@ + decimal(index + 1) + ":"@ + line
}

/// The views of lines read from a file, each either read or unreadable.
pub open spec fn opt_lines(s: Seq<Option<String>>) -> Seq<Option<Seq<char>>> {
    s.map_values(|o: Option<String>| crate::models::opt_str(o))
}

/// The result lines of the matching lines of one file, in order; lines that
/// could not be read are skipped but counted.
pub open spec fn file_matches(path: Seq<char>, lines: Seq<Option<Seq<char>>>, pattern: Seq<char>,
    case_sensitive: bool) -> Seq<Seq<char>>
    decreases lines.len(),
{
    if lines.len() == 0 {
        Seq::empty()
    } else {
        let before = file_matches(path, lines.drop_last(), pattern, case_sensitive);
        match lines.last() {
            Some(l) => if line_matches(l, pattern, case_sensitive) {
                before.push(match_line(path, (lines.len() - 1) as nat, l))
            } else {
                before
            },
            None => before,
        }
    }
}

/// The result lines of the matching lines of one file.
pub fn search_file_lines(path: &str, lines: &[Option<String>], pattern: &str, case_sensitive: bool) -> (r: Vec<String>)
    ensures
        str_seq(r@) == file_matches(path@, opt_lines(lines@), pattern@, case_sensitive),
{
    let lower_pattern = to_lowercase(pattern);
    let mut r: Vec<String> = Vec::new();
    let mut i: usize = 0;
    while i < lines.len()
        invariant
            i <= lines.len(),
            lower_pattern@ == lowercased(pattern@),
            str_seq(r@) == file_matches(path@, opt_lines(lines@).subrange(0, i as int), pattern@, case_sensitive),
        decreases lines.len() - i,
    {
        let ghost before = opt_lines(lines@).subrange(0, i as int);
        let ghost upto = opt_lines(lines@).subrange(0, i + 1);
        assert(upto.drop_last() =~= before);
        match &lines[i] {
            Some(line) => {
                let hit = if case_sensitive {
                    contains(line.as_str(), pattern)
                } else {
                    let lower_line = to_lowercase(line.as_str());
                    contains(lower_line.as_str(), lower_pattern.as_str())
                };
                if hit {
                    let mut m = to_owned(" ");
                    push_str(&mut m, path);
                    push_str(&mut m, ":");
                    let n = u64_to_decimal(i as u64 + 1);
                    push_str(&mut m, n.as_str());
                    push_str(&mut m, ":");
                    push_str(&mut m, line.as_str());
                    proof { crate::models::lemma_str_seq_push(r@, m); }
                    r.push(m);
                }
            },
            None => {},
        }
        i = i + 1;
    }
    assert(opt_lines(lines@).subrange(0, lines@.len() as int) =~= opt_lines(lines@));
    r
}

/// The text a search answers with: its result lines, one per line, or a
/// notice that nothing matched.
pub open spec fn search_result_text(results: Seq<Seq<char>>) -> Seq<char> {
    if results.len() == 0 { "No matches found."@ } else { joined(results, "\n"@) }
}

/// The reply to a search, from its result lines.
pub fn search_reply(results: &[String]) -> (r: ServerReply)
    ensures
        str_seq(r.content@) == seq![search_result_text(str_seq(results@))],
        !r.is_error,
{
    proof { lemma_str_seq(results@); }
    let text = if results.len() == 0 { to_owned("No matches found.") } else { join_with(results, "\n") };
    read_reply(text)
}

/// The result line that reports a directory that could not be walked.
pub fn walk_error_line(detail: &str) -> (r: String)
    ensures
        r@ == "ERROR walking directory: "@ + detail@,
{
    let mut m = to_owned("ERROR walking directory: ");
    push_str(&mut m, detail);
    m
}

/// How the shell server reads a call of `shell`: a `command` string is
/// needed, a `workdir` string may be given. Any other tool is unknown.
pub open spec fn shell_call(name: Seq<char>, arguments: Option<Seq<(Seq<char>, JsonV)>>)
    -> Result<(Seq<char>, Option<Seq<char>>), ToolCallErrorV>
{
    if name != "shell"@ {
        Err(ToolCallErrorV::MethodNotFound)
    } else {
        match arguments {
            None => Err(ToolCallErrorV::InvalidParams("Missing arguments"@)),
            Some(a) => match arg_str(a, "command"@) {
                None => Err(ToolCallErrorV::InvalidParams("Missing 'command' argument"@)),
                Some(command) => Ok((command, arg_str(a, "workdir"@))),
            },
        }
    }
}

/// A call of the shell server: the command and where to run it.
#[derive(Debug)]
pub struct ShellRequest {
    pub command: String,
    pub workdir: Option<String>,
}

/// Reads a call of the shell server.
pub fn shell_request(name: &str, arguments: Option<&Vec<(String, Json)>>) -> (r: Result<ShellRequest, ToolCallError>)
    ensures
        match r {
            Ok(q) => shell_call(name@, opt_entries(arguments)) == Ok::<(Seq<char>, Option<Seq<char>>), ToolCallErrorV>(
                (q.command@, crate::models::opt_str(q.workdir))),
            Err(e) => shell_call(name@, opt_entries(arguments)) == Err::<(Seq<char>, Option<Seq<char>>), ToolCallErrorV>(e@),
        },
{
    if !str_eq(name, "shell") {
        return Err(ToolCallError::MethodNotFound);
    }
    let a = match arguments {
        Some(a) => a,
        None => return Err(invalid_params("Missing arguments")),
    };
    let command = match str_arg(a, "command") {
        Some(c) => c,
        None => return Err(invalid_params("Missing 'command' argument")),
    };
    Ok(ShellRequest { command, workdir: str_arg(a, "workdir") })
}

/// What a finished process left: its exit code where it has one, whether it
/// succeeded, and its output read as text.
#[derive(Debug)]
pub struct ProcessOutput {
    pub code: Option<i32>,
    pub success: bool,
    pub stdout: String,
    pub stderr: String,
}

/// The exit code a server reports: the process's, or -1 where it has none.
pub open spec fn reported_code(code: Option<i32>) -> int {
    match code {
        Some(c) => c as int,
        None => -1,
    }
}

fn code_text(code: Option<i32>) -> (r: String)
    ensures
        r@ == signed_decimal(reported_code(code)),
{
    match code {
        Some(c) => i64_to_decimal(c as i64),
        None => i64_to_decimal(-1),
    }
}

/// The text the shell server answers a command with. The line breaks in it
/// are written as a backslash and an `n`.
pub open spec fn shell_output_text(code: Option<i32>, stdout: Seq<char>, stderr: Seq<char>) -> Seq<char> {
    "Exit Code: "@ + signed_decimal(reported_code(code)) + "\\n--- STDOUT ---\\n"@ + stdout
        + "\\n--- STDERR ---\\n"@ + stderr
}

/// The reply of the shell server: the command's output, a failure where it
/// did not succeed; or, where it could not be started, why.
pub fn shell_reply(command: &str, run: &Result<ProcessOutput, String>) -> (r: ServerReply)
    ensures
        match run {
            Ok(o) => str_seq(r.content@) == seq![shell_output_text(o.code, o.stdout@, o.stderr@)]
                && r.is_error == !o.success,
            Err(d) => str_seq(r.content@) == seq!["Failed to execute command '"@ + command@ + "': "@ + d@]
                && r.is_error,
        },
{
    match run {
        Ok(o) => {
            let mut m = to_owned("Exit Code: ");
            let c = code_text(o.code);
            push_str(&mut m, c.as_str());
            push_str(&mut m, "\\n--- STDOUT ---\\n");
            push_str(&mut m, o.stdout.as_str());
            push_str(&mut m, "\\n--- STDERR ---\\n");
            push_str(&mut m, o.stderr.as_str());
            let mut r = read_reply(m);
            r.is_error = !o.success;
            r
        },
        Err(d) => {
            let mut m = to_owned("Failed to execute command '");
            push_str(&mut m, command);
            push_str(&mut m, "': ");
            push_str(&mut m, d.as_str());
            let mut r = read_reply(m);
            r.is_error = true;
            r
        },
    }
}

/// The first word of a string, as `split_whitespace` finds it; the whole
/// string where it holds no word.
pub open spec fn first_word(s: Seq<char>) -> Seq<char> {
    let a = span(s, 0, true);
    if a == s.len() { s } else { s.subrange(a, a + span(s, a, false)) }
}

fn span_end(cs: &Vec<char>, i: usize, ws: bool) -> (j: usize)
    requires
        i <= cs.len(),
    ensures
        j == i + span(cs@, i as int, ws),
        i <= j <= cs.len(),
{
    let mut j = i;
    while j < cs.len() && is_white_space(cs[j]) == ws
        invariant
            i <= j <= cs.len(),
            span(cs@, i as int, ws) == (j - i) + span(cs@, j as int, ws),
        decreases cs.len() - j,
    {
        j = j + 1;
    }
    j
}

/// The first word of a string, or the whole string where it holds no word.
pub fn first_word_of(s: &str) -> (r: String)
    ensures
        r@ == first_word(s@),
{
    let cs = chars_of(s);
    let a = span_end(&cs, 0, true);
    if a == cs.len() {
        return to_owned(s);
    }
    let b = span_end(&cs, a, false);
    let mut r = String::new();
    let mut k = a;
    while k < b
        invariant
            cs@ == s@,
            a <= k <= b <= cs.len(),
            r@ == s@.subrange(a as int, k as int),
        decreases b - k,
    {
        crate::text::push_char(&mut r, cs[k]);
        assert(s@.subrange(a as int, k + 1) =~= s@.subrange(a as int, k as int).push(s@[k as int]));
        k = k + 1;
    }
    r
}

/// The git subcommands the git server refuses, judged by the first word of
/// the subcommand in lower case.
pub open spec fn server_denied_git_commands() -> Seq<Seq<char>> {
    seq!["push"@, "pull"@, "fetch"@, "merge"@, "rebase"@, "reset"@, "clean"@, "rm"@, "mv"@,
        "checkout"@, "branch"@, "tag"@, "filter-branch"@, "config"@, "remote"@, "clone"@]
}

/// A call of the git tool: the subcommand, its arguments and the repository.
#[derive(Debug)]
pub struct GitRequest {
    pub subcommand: String,
    pub args: Vec<String>,
    pub path: Option<String>,
}

/// Why the git server refuses a call.
#[derive(Debug)]
pub enum GitRequestError {
    /// The tool is not `git`.
    UnknownTool,
    /// No subcommand string was given.
    MissingSubcommand,
    /// `args` is not a list of strings.
    InvalidArgs,
    /// The subcommand, by the first word given here, is denied.
    Denied(String),
}

/// The view of why the git server refuses a call.
pub enum GitRequestErrorV {
    UnknownTool,
    MissingSubcommand,
    InvalidArgs,
    Denied(Seq<char>),
}

impl View for GitRequestError {
    type V = GitRequestErrorV;

    open spec fn view(&self) -> GitRequestErrorV {
        match self {
            GitRequestError::UnknownTool => GitRequestErrorV::UnknownTool,
            GitRequestError::MissingSubcommand => GitRequestErrorV::MissingSubcommand,
            GitRequestError::InvalidArgs => GitRequestErrorV::InvalidArgs,
            GitRequestError::Denied(b) => GitRequestErrorV::Denied(b@),
        }
    }
}

/// How the git server reads a call: the tool must be `git`; a `subcommand`
/// string is needed; `args`, a list of strings, is empty where absent; the
/// subcommand is refused where the lowercase form of its first word is
/// denied; `path` may be given.
pub open spec fn git_call(name: Seq<char>, args: Seq<(Seq<char>, JsonV)>)
    -> Result<(Seq<char>, Seq<Seq<char>>, Option<Seq<char>>), GitRequestErrorV>
{
    if name != "git"@ {
        Err(GitRequestErrorV::UnknownTool)
    } else {
        match arg_str(args, "subcommand"@) {
            None => Err(GitRequestErrorV::MissingSubcommand),
            Some(sub) => {
                let list = match entries_get(args, "args"@) {
                    Some(v) => crate::tool_provider::as_string_list(v),
                    None => Some(Seq::empty()),
                };
                match list {
                    None => Err(GitRequestErrorV::InvalidArgs),
                    Some(l) => {
                        let base = first_word(sub);
                        if server_denied_git_commands().contains(lowercased(base)) {
                            Err(GitRequestErrorV::Denied(base))
                        } else {
                            Ok((sub, l, arg_str(args, "path"@)))
                        }
                    },
                }
            },
        }
    }
}

/// Reads a call of the git server; a call without arguments has none.
pub fn git_request(name: &str, arguments: Option<&Vec<(String, Json)>>) -> (r: Result<GitRequest, GitRequestError>)
    ensures
        ({
            let a = match opt_entries(arguments) { Some(a) => a, None => Seq::empty() };
            match r {
                Ok(q) => git_call(name@, a) == Ok::<(Seq<char>, Seq<Seq<char>>, Option<Seq<char>>), GitRequestErrorV>(
                    (q.subcommand@, str_seq(q.args@), crate::models::opt_str(q.path))),
                Err(e) => git_call(name@, a) == Err::<(Seq<char>, Seq<Seq<char>>, Option<Seq<char>>), GitRequestErrorV>(e@),
            }
        }),
{
    if !str_eq(name, "git") {
        return Err(GitRequestError::UnknownTool);
    }
    let empty: Vec<(String, Json)> = Vec::new();
    let a = match arguments {
        Some(a) => a,
        None => &empty,
    };
    assert(jv_entries(empty@) =~= Seq::<(Seq<char>, JsonV)>::empty());
    let sub = match str_arg(a, "subcommand") {
        Some(s) => s,
        None => return Err(GitRequestError::MissingSubcommand),
    };
    let list = match lookup(a, "args") {
        Some(v) => crate::tool_provider::read_string_list(v),
        None => Some(Vec::new()),
    };
    let list = match list {
        Some(l) => l,
        None => return Err(GitRequestError::InvalidArgs),
    };
    let base = first_word_of(sub.as_str());
    let lower = to_lowercase(base.as_str());
    let items = ["push", "pull", "fetch", "merge", "rebase", "reset", "clean", "rm", "mv",
        "checkout", "branch", "tag", "filter-branch", "config", "remote", "clone"];
    let denied = owned_list(&items);
    assert(items@.map_values(|s: &str| s@) =~= server_denied_git_commands());
    if is_listed(denied.as_slice(), lower.as_str()) {
        return Err(GitRequestError::Denied(base));
    }
    proof { assert(str_seq(Seq::<String>::empty()) =~= Seq::<Seq<char>>::empty()); }
    Ok(GitRequest { subcommand: sub, args: list, path: str_arg(a, "path") })
}

/// The protocol error a refused git call is answered with; `args_detail`
/// says why the arguments could not be read, where that is the reason.
pub open spec fn git_error(e: GitRequestErrorV, args_detail: Seq<char>) -> ToolCallErrorV {
    match e {
        GitRequestErrorV::UnknownTool => ToolCallErrorV::MethodNotFound,
        GitRequestErrorV::MissingSubcommand => ToolCallErrorV::InvalidParams("Missing required argument: subcommand"@),
        GitRequestErrorV::InvalidArgs => ToolCallErrorV::InvalidParams("Invalid format for 'args': "@ + args_detail),
        GitRequestErrorV::Denied(b) => ToolCallErrorV::InvalidRequest(
            "Execution of git subcommand '"@ + b + "' is denied for security reasons."@),
    }
}

/// The protocol error a refused git call is answered with.
pub fn git_request_error(e: &GitRequestError, args_detail: &str) -> (r: ToolCallError)
    ensures
        r@ == git_error(e@, args_detail@),
{
    match e {
        GitRequestError::UnknownTool => ToolCallError::MethodNotFound,
        GitRequestError::MissingSubcommand => invalid_params("Missing required argument: subcommand"),
        GitRequestError::InvalidArgs => {
            let mut m = to_owned("Invalid format for 'args': ");
            push_str(&mut m, args_detail);
            ToolCallError::InvalidParams(m)
        },
        GitRequestError::Denied(b) => {
            let mut m = to_owned("Execution of git subcommand '");
            push_str(&mut m, b.as_str());
            push_str(&mut m, "' is denied for security reasons.");
            ToolCallError::InvalidRequest(m)
        },
    }
}

/// Why `serde_json` refuses to read a value as a list of strings: the
/// message of the error of `from_value::<Vec<String>>` (empty where it reads).
pub uninterp spec fn string_list_error(v: JsonV) -> Seq<char>;

/// `serde_json::from_value::<Vec<String>>` of a value, and the message of
/// its error; the result is named `string_list_error`.
#[verifier::external_body]
fn string_list_error_of(v: &Json) -> (r: String)
    ensures
        r@ == string_list_error(v@),
{
    match serde_json::from_value::<Vec<String>>(crate::json_text::value_of_json(v)) {
        Ok(_) => String::new(),
        Err(e) => e.to_string(),
    }
}

/// Why the `args` of a git call could not be read, as `serde_json` says it.
pub open spec fn args_detail(arguments: Option<Seq<(Seq<char>, JsonV)>>) -> Seq<char> {
    match arguments {
        Some(a) => match entries_get(a, "args"@) {
            Some(v) => string_list_error(v),
            None => Seq::empty(),
        },
        None => Seq::empty(),
    }
}

/// The protocol error a refused git call is answered with, the reason the
/// arguments could not be read taken from the call's arguments.
pub fn git_failure(e: &GitRequestError, arguments: Option<&Vec<(String, Json)>>) -> (r: ToolCallError)
    ensures
        r@ == git_error(e@, args_detail(opt_entries(arguments))),
{
    let detail = match arguments {
        Some(a) => match lookup(a, "args") {
            Some(v) => string_list_error_of(v),
            None => String::new(),
        },
        None => String::new(),
    };
    git_request_error(e, detail.as_str())
}

/// Where a git command runs.
#[derive(Debug, Clone, Copy, PartialEq, Eq)]
pub enum RunDir {
    /// The given path, a directory.
    Given,
    /// The directory that holds the given path, a file.
    Parent,
    /// The server's working directory.
    Current,
}

/// Where a git command runs, from what the file system says of the given
/// path: a directory is used as it is, a file's directory where that is a
/// directory; otherwise the server's own working directory.
pub open spec fn run_dir(exists: bool, is_dir: bool, parent_is_dir: Option<bool>) -> RunDir {
    if !exists {
        RunDir::Current
    } else if is_dir {
        RunDir::Given
    } else {
        match parent_is_dir {
            Some(true) => RunDir::Parent,
            _ => RunDir::Current,
        }
    }
}

/// Where a git command runs.
pub fn choose_run_dir(exists: bool, is_dir: bool, parent_is_dir: Option<bool>) -> (r: RunDir)
    ensures
        r == run_dir(exists, is_dir, parent_is_dir),
{
    if !exists {
        RunDir::Current
    } else if is_dir {
        RunDir::Given
    } else {
        match parent_is_dir {
            Some(true) => RunDir::Parent,
            _ => RunDir::Current,
        }
    }
}

/// The text the git server answers a command with.
pub open spec fn git_output_text(code: Option<i32>, stdout: Seq<char>, stderr: Seq<char>) -> Seq<char> {
    "Exit Code: "@ + signed_decimal(reported_code(code)) + "\n--- STDOUT ---\n"@ + stdout
        + "\n--- STDERR ---\n"@ + stderr + "\n"@
}

/// The reply of the git server to a command that ran: its output, and a
/// failure where it did not succeed.
pub fn git_reply(output: &ProcessOutput) -> (r: ServerReply)
    ensures
        str_seq(r.content@) == seq![git_output_text(output.code, output.stdout@, output.stderr@)],
        r.is_error == !output.success,
{
    let mut m = to_owned("Exit Code: ");
    let c = code_text(output.code);
    push_str(&mut m, c.as_str());
    push_str(&mut m, "\n--- STDOUT ---\n");
    push_str(&mut m, output.stdout.as_str());
    push_str(&mut m, "\n--- STDERR ---\n");
    push_str(&mut m, output.stderr.as_str());
    push_str(&mut m, "\n");
    let mut r = read_reply(m);
    r.is_error = !output.success;
    r
}

/// The git server never accepts a call whose subcommand's first word, in
/// lower case, is on its deny list.
pub proof fn law_denied_git_subcommands_never_run(name: Seq<char>, args: Seq<(Seq<char>, JsonV)>)
    ensures
        git_call(name, args) matches Ok((sub, _, _))
            ==> !server_denied_git_commands().contains(lowercased(first_word(sub))),
{
}

/// A search reports exactly the lines that match: each result is a
/// matching line under its own number and with its own text, and each
/// readable line that matches is reported.
pub proof fn law_search_reports_exactly_matches(path: Seq<char>, lines: Seq<Option<Seq<char>>>, pattern: Seq<char>,
    case_sensitive: bool)
    ensures
        forall|r: Seq<char>| file_matches(path, lines, pattern, case_sensitive).contains(r) ==>
            exists|i: int| 0 <= i < lines.len() && (#[trigger] lines[i] matches Some(l)
                && line_matches(l, pattern, case_sensitive) && r == match_line(path, i as nat, l)),
        forall|i: int| 0 <= i < lines.len() && (#[trigger] lines[i] matches Some(l)
            && line_matches(l, pattern, case_sensitive)) ==>
            file_matches(path, lines, pattern, case_sensitive).contains(match_line(path, i as nat, lines[i]->0)),
    decreases lines.len(),
{
    if lines.len() > 0 {
        let before = lines.drop_last();
        law_search_reports_exactly_matches(path, before, pattern, case_sensitive);
        let prev = file_matches(path, before, pattern, case_sensitive);
        let all = file_matches(path, lines, pattern, case_sensitive);
        assert forall|r: Seq<char>| all.contains(r) implies
            exists|i: int| 0 <= i < lines.len() && (#[trigger] lines[i] matches Some(l)
                && line_matches(l, pattern, case_sensitive) && r == match_line(path, i as nat, l)) by {
            let k = choose|k: int| 0 <= k < all.len() && all[k] == r;
            if k < prev.len() && all[k] == prev[k] {
                assert(prev.contains(r));
                let i = choose|i: int| 0 <= i < before.len() && (#[trigger] before[i] matches Some(l)
                    && line_matches(l, pattern, case_sensitive) && r == match_line(path, i as nat, l));
                assert(lines[i] == before[i]);
            } else {
                let n = lines.len() - 1;
                assert(lines[n] == lines.last());
            }
        }
        assert forall|i: int| 0 <= i < lines.len() && (#[trigger] lines[i] matches Some(l)
            && line_matches(l, pattern, case_sensitive)) implies
            all.contains(match_line(path, i as nat, lines[i]->0)) by {
            let m = match_line(path, i as nat, lines[i]->0);
            if i < lines.len() - 1 {
                assert(before[i] == lines[i]);
                assert(prev.contains(m));
                let k = choose|k: int| 0 <= k < prev.len() && prev[k] == m;
                assert(all[k] == prev[k]);
            } else {
                assert(lines.last() == lines[i]);
                assert(all[all.len() - 1] == m);
            }
        }
    }
}

/// A case-insensitive search ignores the case of the pattern and of the
/// lines: two patterns with the same lowercase match the same lines, and
/// two lines with the same lowercase are matched by the same patterns.
pub proof fn law_case_insensitive_match_ignores_case(l1: Seq<char>, l2: Seq<char>, p1: Seq<char>, p2: Seq<char>)
    ensures
        lowercased(p1) == lowercased(p2) ==> line_matches(l1, p1, false) == line_matches(l1, p2, false),
        lowercased(l1) == lowercased(l2) ==> line_matches(l1, p1, false) == line_matches(l2, p1, false),
{
}

/// A case-sensitive search matches a line exactly when the pattern occurs
/// in it, character for character, at some position.
pub proof fn law_case_sensitive_match(line: Seq<char>, pattern: Seq<char>)
    ensures
        line_matches(line, pattern, true) <==> exists|i: int| 0 <= i && i + pattern.len() <= line.len()
            && #[trigger] line.subrange(i, i + pattern.len()) == pattern,
{
    if line_matches(line, pattern, true) {
        let i = choose|i: int| occurs_at(line, pattern, i);
        assert(line.subrange(i, i + pattern.len()) == pattern);
    }
    if exists|i: int| 0 <= i && i + pattern.len() <= line.len() && #[trigger] line.subrange(i, i + pattern.len()) == pattern {
        let i = choose|i: int| 0 <= i && i + pattern.len() <= line.len() && #[trigger] line.subrange(i, i + pattern.len()) == pattern;
        assert(occurs_at(line, pattern, i));
    }
}

/// A case-insensitive search of a file reports the same lines for two
/// patterns that differ only in case (that have the same lowercase).
pub proof fn law_case_insensitive_search_ignores_pattern_case(path: Seq<char>, lines: Seq<Option<Seq<char>>>,
    p1: Seq<char>, p2: Seq<char>)
    requires
        lowercased(p1) == lowercased(p2),
    ensures
        file_matches(path, lines, p1, false) == file_matches(path, lines, p2, false),
    decreases lines.len(),
{
    if lines.len() > 0 {
        law_case_insensitive_search_ignores_pattern_case(path, lines.drop_last(), p1, p2);
        match lines.last() {
            Some(l) => { law_case_insensitive_match_ignores_case(l, l, p1, p2); },
            None => {},
        }
    }
}

} // verus!
