//! The command-line tool provider: the tools it offers the model, and the
//! reading of a tool call's JSON arguments into typed arguments.

use vstd::prelude::*;
use crate::json::{Json, JsonV, jv, jv_seq, jv_entries, lookup, entries_get, lemma_jv_seq_len, digits_value, read_digits};
use crate::models::{ToolParameter, ToolParameterType, ToolParametersDefinition, ToolDefinition, str_seq,
    lemma_str_seq_push, param_json, props_json, params_def_json};
use crate::schema::distinct_param_names;
use crate::text::{to_owned, concat, push_str, chars_of, u64_to_decimal, decimal};

verus! {

/// The typed arguments of a command-line tool call.
#[derive(Debug)]
pub enum CliToolArguments {
    Shell { command: String },
    ReadFile { path: String },
    WriteFile { path: String, content: String },
    SearchText {
        pattern: String,
        path: Option<String>,
        file_glob: Option<String>,
        case_sensitive: Option<bool>,
        context_lines: Option<u32>,
        max_results: Option<usize>,
    },
    FindRustDefinition { symbol: String, path: Option<String> },
    UserInput { prompt: String, options: Option<Vec<String>> },
    CargoCommand { command: String, args: Option<Vec<String>> },
    GitCommand { command: String, args: Option<Vec<String>> },
    ListDirectory { path: String, depth: Option<usize>, show_hidden: Option<bool> },
}

/// A JSON value read as a string.
pub open spec fn as_string(v: JsonV) -> Option<Seq<char>> {
    match v {
        JsonV::String(s) => Some(s),
        _ => None,
    }
}

/// A JSON value read as a boolean.
pub open spec fn as_boolean(v: JsonV) -> Option<bool> {
    match v {
        JsonV::Bool(b) => Some(b),
        _ => None,
    }
}

/// A JSON value read as an unsigned integer no larger than `max`: a number
/// written as plain decimal digits.
pub open spec fn as_unsigned(v: JsonV, max: nat) -> Option<nat> {
    match v {
        JsonV::Number(t) => match digits_value(t) {
            Some(n) => if n <= max { Some(n) } else { None },
            None => None,
        },
        _ => None,
    }
}

/// The strings of a JSON array, if it holds only strings.
pub open spec fn all_strings(a: Seq<JsonV>, n: nat) -> Option<Seq<Seq<char>>>
    decreases n,
{
    if n == 0 {
        Some(Seq::empty())
    } else {
        match (all_strings(a, (n - 1) as nat), a[n - 1]) {
            (Some(prev), JsonV::String(s)) => Some(prev.push(s)),
            _ => None,
        }
    }
}

/// A JSON value read as a list of strings.
pub open spec fn as_string_list(v: JsonV) -> Option<Seq<Seq<char>>> {
    match v {
        JsonV::Array(a) => all_strings(a, a.len()),
        _ => None,
    }
}

fn read_string(v: &Json) -> (r: Option<String>)
    ensures
        match as_string(v@) {
            Some(s) => r matches Some(x) && x@ == s,
            None => r is None,
        },
{
    match v.as_str() {
        Some(s) => Some(to_owned(s)),
        None => None,
    }
}

fn read_unsigned(v: &Json, max: u64) -> (r: Option<u64>)
    ensures
        match as_unsigned(v@, max as nat) {
            Some(n) => r == Some(n as u64),
            None => r is None,
        },
{
    match v {
        Json::Number(t) => read_digits(t.as_str(), max),
        _ => None,
    }
}


/// A JSON value read as a list of strings: an array that holds strings only.
pub fn read_string_list(v: &Json) -> (r: Option<Vec<String>>)
    ensures
        match as_string_list(v@) {
            Some(l) => r matches Some(x) && str_seq(x@) == l,
            None => r is None,
        },
{
    match v.as_array() {
        Some(a) => {
            proof { lemma_jv_seq_len(a@); }
            let ghost av = jv_seq(a@);
            let mut out: Vec<String> = Vec::new();
            let mut i: usize = 0;
            while i < a.len()
                invariant
                    i <= a.len(),
                    av == jv_seq(a@),
                    av.len() == a.len(),
                    forall|j: int| 0 <= j < a.len() ==> #[trigger] av[j] == jv(a@[j]),
                    all_strings(av, i as nat) == Some(str_seq(out@)),
                    as_string_list(v@) == all_strings(av, av.len()),
                decreases a.len() - i,
            {
                match a[i].as_str() {
                    Some(s) => {
                        let x = to_owned(s);
                        proof { lemma_str_seq_push(out@, x); }
                        out.push(x);
                    },
                    None => {
                        proof { lemma_all_strings_none(av, (i + 1) as nat); }
                        return None;
                    },
                }
                i = i + 1;
            }
            Some(out)
        },
        None => None,
    }
}

proof fn lemma_all_strings_none(a: Seq<JsonV>, k: nat)
    requires
        k <= a.len(),
        all_strings(a, k) is None,
    ensures
        all_strings(a, a.len()) is None,
    decreases a.len() - k,
{
    if k < a.len() {
        lemma_all_strings_none(a, k + 1);
    }
}

/// Why a tool call's arguments could not be read.
pub open spec fn missing_message(key: Seq<char>) -> Seq<char> {
    "Missing required argument: '"@ + key + "'"@
}

/// The error for an argument of the wrong type; `expected` names the type.
pub open spec fn invalid_message(key: Seq<char>, expected: Seq<char>) -> Seq<char> {
    "Invalid type or value for argument '"@ + key + "'. Expected "@ + expected + "."@
}

/// The error for an optional argument of the wrong type.
pub open spec fn invalid_optional_message(key: Seq<char>, expected: Seq<char>) -> Seq<char> {
    "Invalid type or value for optional argument '"@ + key + "'. Expected "@ + expected + "."@
}

/// The result of reading a required argument with `read`.
pub open spec fn required_arg<T>(args: Seq<(Seq<char>, JsonV)>, key: Seq<char>, expected: Seq<char>,
    read: spec_fn(JsonV) -> Option<T>) -> Result<T, Seq<char>>
{
    match entries_get(args, key) {
        None => Err(missing_message(key)),
        Some(v) => match read(v) {
            Some(x) => Ok(x),
            None => Err(invalid_message(key, expected)),
        },
    }
}

/// The result of reading an optional argument with `read`: absent or
/// `null` is nothing.
pub open spec fn optional_arg<T>(args: Seq<(Seq<char>, JsonV)>, key: Seq<char>, expected: Seq<char>,
    read: spec_fn(JsonV) -> Option<T>) -> Result<Option<T>, Seq<char>>
{
    match entries_get(args, key) {
        None => Ok(None),
        Some(JsonV::Null) => Ok(None),
        Some(v) => match read(v) {
            Some(x) => Ok(Some(x)),
            None => Err(invalid_optional_message(key, expected)),
        },
    }
}

fn required_string(args: &Vec<(String, Json)>, key: &str) -> (r: Result<String, String>)
    ensures
        match required_arg(jv_entries(args@), key@, "alloc::string::String"@, |v: JsonV| as_string(v)) {
            Ok(x) => r matches Ok(s) && s@ == x,
            Err(m) => r matches Err(e) && e@ == m,
        },
{
    match lookup(args, key) {
        None => {
            let a = concat("Missing required argument: '", key);
            Err(concat(a.as_str(), "'"))
        },
        Some(v) => match read_string(v) {
            Some(s) => Ok(s),
            None => Err(invalid_error(key, "alloc::string::String", false)),
        },
    }
}

fn invalid_error(key: &str, expected: &str, optional: bool) -> (e: String)
    ensures
        !optional ==> e@ == invalid_message(key@, expected@),
        optional ==> e@ == invalid_optional_message(key@, expected@),
{
    let mut e = if optional {
        to_owned("Invalid type or value for optional argument '")
    } else {
        to_owned("Invalid type or value for argument '")
    };
    push_str(&mut e, key);
    push_str(&mut e, "'. Expected ");
    push_str(&mut e, expected);
    push_str(&mut e, ".");
    e
}

fn optional_string(args: &Vec<(String, Json)>, key: &str) -> (r: Result<Option<String>, String>)
    ensures
        match optional_arg(jv_entries(args@), key@, "alloc::string::String"@, |v: JsonV| as_string(v)) {
            Ok(Some(x)) => r matches Ok(Some(s)) && s@ == x,
            Ok(None) => r matches Ok(None),
            Err(m) => r matches Err(e) && e@ == m,
        },
{
    match lookup(args, key) {
        None => Ok(None),
        Some(v) => if v.is_null() {
            Ok(None)
        } else {
            match read_string(v) {
                Some(s) => Ok(Some(s)),
                None => Err(invalid_error(key, "alloc::string::String", true)),
            }
        },
    }
}

fn optional_bool(args: &Vec<(String, Json)>, key: &str) -> (r: Result<Option<bool>, String>)
    ensures
        match optional_arg(jv_entries(args@), key@, "bool"@, |v: JsonV| as_boolean(v)) {
            Ok(x) => r == Ok::<Option<bool>, String>(x),
            Err(m) => r matches Err(e) && e@ == m,
        },
{
    match lookup(args, key) {
        None => Ok(None),
        Some(v) => if v.is_null() {
            Ok(None)
        } else {
            match v.as_bool() {
                Some(b) => Ok(Some(b)),
                None => Err(invalid_error(key, "bool", true)),
            }
        },
    }
}

fn optional_unsigned(args: &Vec<(String, Json)>, key: &str, max: u64, expected: &str) -> (r: Result<Option<u64>, String>)
    ensures
        match optional_arg(jv_entries(args@), key@, expected@, |v: JsonV| as_unsigned(v, max as nat)) {
            Ok(Some(n)) => r == Ok::<Option<u64>, String>(Some(n as u64)),
            Ok(None) => r == Ok::<Option<u64>, String>(None),
            Err(m) => r matches Err(e) && e@ == m,
        },
{
    match lookup(args, key) {
        None => Ok(None),
        Some(v) => if v.is_null() {
            Ok(None)
        } else {
            match read_unsigned(v, max) {
                Some(n) => Ok(Some(n)),
                None => Err(invalid_error(key, expected, true)),
            }
        },
    }
}

fn optional_string_list(args: &Vec<(String, Json)>, key: &str) -> (r: Result<Option<Vec<String>>, String>)
    ensures
        match optional_arg(jv_entries(args@), key@, "alloc::vec::Vec<alloc::string::String>"@, |v: JsonV| as_string_list(v)) {
            Ok(Some(l)) => r matches Ok(Some(x)) && str_seq(x@) == l,
            Ok(None) => r matches Ok(None),
            Err(m) => r matches Err(e) && e@ == m,
        },
{
    match lookup(args, key) {
        None => Ok(None),
        Some(v) => if v.is_null() {
            Ok(None)
        } else {
            match read_string_list(v) {
                Some(l) => Ok(Some(l)),
                None => Err(invalid_error(key, "alloc::vec::Vec<alloc::string::String>", true)),
            }
        },
    }
}

} // verus!

verus! {

/// The view of typed tool arguments.
pub enum CliToolArgumentsV {
    Shell { command: Seq<char> },
    ReadFile { path: Seq<char> },
    WriteFile { path: Seq<char>, content: Seq<char> },
    SearchText {
        pattern: Seq<char>,
        path: Option<Seq<char>>,
        file_glob: Option<Seq<char>>,
        case_sensitive: Option<bool>,
        context_lines: Option<nat>,
        max_results: Option<nat>,
    },
    FindRustDefinition { symbol: Seq<char>, path: Option<Seq<char>> },
    UserInput { prompt: Seq<char>, options: Option<Seq<Seq<char>>> },
    CargoCommand { command: Seq<char>, args: Option<Seq<Seq<char>>> },
    GitCommand { command: Seq<char>, args: Option<Seq<Seq<char>>> },
    ListDirectory { path: Seq<char>, depth: Option<nat>, show_hidden: Option<bool> },
}

pub open spec fn opt_list(o: Option<Vec<String>>) -> Option<Seq<Seq<char>>> {
    match o {
        Some(v) => Some(str_seq(v@)),
        None => None,
    }
}

pub open spec fn opt_nat_u32(o: Option<u32>) -> Option<nat> {
    match o {
        Some(n) => Some(n as nat),
        None => None,
    }
}

pub open spec fn opt_nat_usize(o: Option<usize>) -> Option<nat> {
    match o {
        Some(n) => Some(n as nat),
        None => None,
    }
}

impl View for CliToolArguments {
    type V = CliToolArgumentsV;

    open spec fn view(&self) -> CliToolArgumentsV {
        match *self {
            CliToolArguments::Shell { command } => CliToolArgumentsV::Shell { command: command@ },
            CliToolArguments::ReadFile { path } => CliToolArgumentsV::ReadFile { path: path@ },
            CliToolArguments::WriteFile { path, content } => CliToolArgumentsV::WriteFile { path: path@, content: content@ },
            CliToolArguments::SearchText { pattern, path, file_glob, case_sensitive, context_lines, max_results } =>
                CliToolArgumentsV::SearchText {
                    pattern: pattern@,
                    path: crate::models::opt_str(path),
                    file_glob: crate::models::opt_str(file_glob),
                    case_sensitive,
                    context_lines: opt_nat_u32(context_lines),
                    max_results: opt_nat_usize(max_results),
                },
            CliToolArguments::FindRustDefinition { symbol, path } =>
                CliToolArgumentsV::FindRustDefinition { symbol: symbol@, path: crate::models::opt_str(path) },
            CliToolArguments::UserInput { prompt, options } =>
                CliToolArgumentsV::UserInput { prompt: prompt@, options: opt_list(options) },
            CliToolArguments::CargoCommand { command, args } =>
                CliToolArgumentsV::CargoCommand { command: command@, args: opt_list(args) },
            CliToolArguments::GitCommand { command, args } =>
                CliToolArgumentsV::GitCommand { command: command@, args: opt_list(args) },
            CliToolArguments::ListDirectory { path, depth, show_hidden } =>
                CliToolArgumentsV::ListDirectory { path: path@, depth: opt_nat_usize(depth), show_hidden },
        }
    }
}

pub open spec fn req_str(a: Seq<(Seq<char>, JsonV)>, k: Seq<char>) -> Result<Seq<char>, Seq<char>> {
    required_arg(a, k, "alloc::string::String"@, |v: JsonV| as_string(v))
}

pub open spec fn opt_str_arg(a: Seq<(Seq<char>, JsonV)>, k: Seq<char>) -> Result<Option<Seq<char>>, Seq<char>> {
    optional_arg(a, k, "alloc::string::String"@, |v: JsonV| as_string(v))
}

pub open spec fn opt_bool_arg(a: Seq<(Seq<char>, JsonV)>, k: Seq<char>) -> Result<Option<bool>, Seq<char>> {
    optional_arg(a, k, "bool"@, |v: JsonV| as_boolean(v))
}

pub open spec fn opt_u32_arg(a: Seq<(Seq<char>, JsonV)>, k: Seq<char>) -> Result<Option<nat>, Seq<char>> {
    optional_arg(a, k, "u32"@, |v: JsonV| as_unsigned(v, u32::MAX as nat))
}

pub open spec fn opt_usize_arg(a: Seq<(Seq<char>, JsonV)>, k: Seq<char>) -> Result<Option<nat>, Seq<char>> {
    optional_arg(a, k, "usize"@, |v: JsonV| as_unsigned(v, usize::MAX as nat))
}

pub open spec fn opt_list_arg(a: Seq<(Seq<char>, JsonV)>, k: Seq<char>) -> Result<Option<Seq<Seq<char>>>, Seq<char>> {
    optional_arg(a, k, "alloc::vec::Vec<alloc::string::String>"@, |v: JsonV| as_string_list(v))
}

/// What a tool call's JSON arguments read as: the typed arguments of the
/// named tool, or the first argument that is missing or of the wrong type
/// (in the order the tool lists them), or an unknown tool.
pub open spec fn tool_arguments(name: Seq<char>, a: Seq<(Seq<char>, JsonV)>) -> Result<CliToolArgumentsV, Seq<char>> {
    if name == "shell"@ {
        match req_str(a, "command"@) {
            Ok(c) => Ok(CliToolArgumentsV::Shell { command: c }),
            Err(e) => Err(e),
        }
    } else if name == "read_file"@ {
        match req_str(a, "path"@) {
            Ok(p) => Ok(CliToolArgumentsV::ReadFile { path: p }),
            Err(e) => Err(e),
        }
    } else if name == "write_file"@ {
        match (req_str(a, "path"@), req_str(a, "content"@)) {
            (Err(e), _) => Err(e),
            (Ok(_), Err(e)) => Err(e),
            (Ok(p), Ok(c)) => Ok(CliToolArgumentsV::WriteFile { path: p, content: c }),
        }
    } else if name == "search_text"@ {
        match req_str(a, "pattern"@) {
            Err(e) => Err(e),
            Ok(pattern) => match opt_str_arg(a, "path"@) {
                Err(e) => Err(e),
                Ok(path) => match opt_str_arg(a, "file_glob"@) {
                    Err(e) => Err(e),
                    Ok(file_glob) => match opt_bool_arg(a, "case_sensitive"@) {
                        Err(e) => Err(e),
                        Ok(case_sensitive) => match opt_u32_arg(a, "context_lines"@) {
                            Err(e) => Err(e),
                            Ok(context_lines) => match opt_usize_arg(a, "max_results"@) {
                                Err(e) => Err(e),
                                Ok(max_results) => Ok(CliToolArgumentsV::SearchText {
                                    pattern, path, file_glob, case_sensitive, context_lines, max_results,
                                }),
                            },
                        },
                    },
                },
            },
        }
    } else if name == "find_rust_definition"@ {
        match (req_str(a, "symbol"@), opt_str_arg(a, "path"@)) {
            (Err(e), _) => Err(e),
            (Ok(_), Err(e)) => Err(e),
            (Ok(s), Ok(p)) => Ok(CliToolArgumentsV::FindRustDefinition { symbol: s, path: p }),
        }
    } else if name == "user_input"@ {
        match (req_str(a, "prompt"@), opt_list_arg(a, "options"@)) {
            (Err(e), _) => Err(e),
            (Ok(_), Err(e)) => Err(e),
            (Ok(p), Ok(o)) => Ok(CliToolArgumentsV::UserInput { prompt: p, options: o }),
        }
    } else if name == "cargo_command"@ {
        match (req_str(a, "command"@), opt_list_arg(a, "args"@)) {
            (Err(e), _) => Err(e),
            (Ok(_), Err(e)) => Err(e),
            (Ok(c), Ok(x)) => Ok(CliToolArgumentsV::CargoCommand { command: c, args: x }),
        }
    } else if name == "git"@ {
        match (req_str(a, "subcommand"@), opt_list_arg(a, "args"@)) {
            (Err(e), _) => Err(e),
            (Ok(_), Err(e)) => Err(e),
            (Ok(c), Ok(x)) => Ok(CliToolArgumentsV::GitCommand { command: c, args: x }),
        }
    } else if name == "list_directory"@ {
        match req_str(a, "path"@) {
            Err(e) => Err(e),
            Ok(p) => match opt_usize_arg(a, "depth"@) {
                Err(e) => Err(e),
                Ok(d) => match opt_bool_arg(a, "show_hidden"@) {
                    Err(e) => Err(e),
                    Ok(h) => Ok(CliToolArgumentsV::ListDirectory { path: p, depth: d, show_hidden: h }),
                },
            },
        }
    } else {
        Err("Unknown tool name: "@ + name)
    }
}

/// Reads a tool call's JSON arguments into the typed arguments of the named
/// tool.
pub fn parse_tool_arguments(tool_name: &str, args: &Vec<(String, Json)>) -> (r: Result<CliToolArguments, String>)
    ensures
        match tool_arguments(tool_name@, jv_entries(args@)) {
            Ok(t) => r matches Ok(x) && x@ == t,
            Err(m) => r matches Err(e) && e@ == m,
        },
{
    proof {
        reveal_strlit("shell"); reveal_strlit("read_file"); reveal_strlit("write_file");
        reveal_strlit("search_text"); reveal_strlit("find_rust_definition"); reveal_strlit("user_input");
        reveal_strlit("cargo_command"); reveal_strlit("git"); reveal_strlit("list_directory");
    }
    if crate::text::str_eq(tool_name, "shell") {
        let command = required_string(args, "command")?;
        Ok(CliToolArguments::Shell { command })
    } else if crate::text::str_eq(tool_name, "read_file") {
        let path = required_string(args, "path")?;
        Ok(CliToolArguments::ReadFile { path })
    } else if crate::text::str_eq(tool_name, "write_file") {
        let path = required_string(args, "path")?;
        let content = required_string(args, "content")?;
        Ok(CliToolArguments::WriteFile { path, content })
    } else if crate::text::str_eq(tool_name, "search_text") {
        let pattern = required_string(args, "pattern")?;
        let path = optional_string(args, "path")?;
        let file_glob = optional_string(args, "file_glob")?;
        let case_sensitive = optional_bool(args, "case_sensitive")?;
        let context_lines = match optional_unsigned(args, "context_lines", 0xffff_ffff, "u32")? {
            Some(n) => Some(n as u32),
            None => None,
        };
        let max_results = match optional_unsigned(args, "max_results", usize::MAX as u64, "usize")? {
            Some(n) => Some(n as usize),
            None => None,
        };
        Ok(CliToolArguments::SearchText { pattern, path, file_glob, case_sensitive, context_lines, max_results })
    } else if crate::text::str_eq(tool_name, "find_rust_definition") {
        let symbol = required_string(args, "symbol")?;
        let path = optional_string(args, "path")?;
        Ok(CliToolArguments::FindRustDefinition { symbol, path })
    } else if crate::text::str_eq(tool_name, "user_input") {
        let prompt = required_string(args, "prompt")?;
        let options = optional_string_list(args, "options")?;
        Ok(CliToolArguments::UserInput { prompt, options })
    } else if crate::text::str_eq(tool_name, "cargo_command") {
        let command = required_string(args, "command")?;
        let a = optional_string_list(args, "args")?;
        Ok(CliToolArguments::CargoCommand { command, args: a })
    } else if crate::text::str_eq(tool_name, "git") {
        let command = required_string(args, "subcommand")?;
        let a = optional_string_list(args, "args")?;
        Ok(CliToolArguments::GitCommand { command, args: a })
    } else if crate::text::str_eq(tool_name, "list_directory") {
        let path = required_string(args, "path")?;
        let depth = match optional_unsigned(args, "depth", usize::MAX as u64, "usize")? {
            Some(n) => Some(n as usize),
            None => None,
        };
        let show_hidden = optional_bool(args, "show_hidden")?;
        Ok(CliToolArguments::ListDirectory { path, depth, show_hidden })
    } else {
        Err(concat("Unknown tool name: ", tool_name))
    }
}

} // verus!

verus! {

/// What `format!("{:?}", v)` writes for a list of strings: std's `Debug`
/// of a `Vec<String>`, the quoted and escaped strings in brackets.
pub uninterp spec fn debug_list(v: Seq<Seq<char>>) -> Seq<char>;

/// std's `Debug` formatting of a list of strings.
#[verifier::external_body]
fn debug_strings(v: &Vec<String>) -> (r: String)
    ensures
        r@ == debug_list(str_seq(v@)),
{
    format!("{:?}", v)
}

/// The items of a list joined by a comma and a space.
pub open spec fn comma_joined(v: Seq<Seq<char>>) -> Seq<char>
    decreases v.len(),
{
    if v.len() == 0 {
        Seq::empty()
    } else if v.len() == 1 {
        v[0]
    } else {
        comma_joined(v.drop_last()) + ", "@ + v.last()
    }
}

/// The items of a list joined by a comma and a space.
pub fn join_comma(v: &Vec<String>) -> (r: String)
    ensures
        r@ == comma_joined(str_seq(v@)),
{
    proof { reveal_strlit(", "); crate::models::lemma_str_seq(v@); }
    let mut r = String::new();
    let mut i: usize = 0;
    while i < v.len()
        invariant
            i <= v.len(),
            str_seq(v@).len() == v.len(),
            forall|j: int| 0 <= j < v.len() ==> #[trigger] str_seq(v@)[j] == v@[j]@,
            r@ == comma_joined(str_seq(v@).subrange(0, i as int)),
        decreases v.len() - i,
    {
        if i > 0 {
            push_str(&mut r, ", ");
        }
        push_str(&mut r, v[i].as_str());
        proof {
            let sub = str_seq(v@).subrange(0, i + 1);
            assert(sub.drop_last() =~= str_seq(v@).subrange(0, i as int));
            if i == 0 {
                assert(sub.len() == 1);
            }
        }
        i = i + 1;
    }
    assert(str_seq(v@).subrange(0, v.len() as int) =~= str_seq(v@));
    r
}

/// `", <label>: <value>"` where there is a value.
pub open spec fn opt_part(label: Seq<char>, v: Option<Seq<char>>) -> Seq<char> {
    match v {
        Some(x) => ", "@ + label + ": "@ + x,
        None => Seq::empty(),
    }
}

pub open spec fn bool_text(b: bool) -> Seq<char> {
    if b { "true"@ } else { "false"@ }
}

pub open spec fn opt_nat_text(o: Option<nat>) -> Option<Seq<char>> {
    match o {
        Some(n) => Some(decimal(n)),
        None => None,
    }
}

pub open spec fn opt_bool_text(o: Option<bool>) -> Option<Seq<char>> {
    match o {
        Some(b) => Some(bool_text(b)),
        None => None,
    }
}

pub open spec fn opt_debug(o: Option<Seq<Seq<char>>>) -> Option<Seq<char>> {
    match o {
        Some(v) => Some(debug_list(v)),
        None => None,
    }
}

/// The one-line description of tool arguments that the log shows.
pub open spec fn arguments_text(a: CliToolArgumentsV, content_bytes: nat) -> Seq<char> {
    match a {
        CliToolArgumentsV::Shell { command } => "command: '"@ + command + "'"@,
        CliToolArgumentsV::ReadFile { path } => "path: "@ + path,
        CliToolArgumentsV::WriteFile { path, content } => "path: "@ + path + ", content_len: "@ + decimal(content_bytes),
        CliToolArgumentsV::SearchText { pattern, path, file_glob, .. } =>
            "pattern: '"@ + pattern + "'"@ + opt_part("path"@, path) + opt_part("glob"@, file_glob),
        CliToolArgumentsV::FindRustDefinition { symbol, path } => "symbol: "@ + symbol + opt_part("path"@, path),
        CliToolArgumentsV::UserInput { prompt, options } => "prompt: '"@ + prompt + "'"@
            + match options { Some(o) => ", options: ["@ + comma_joined(o) + "]"@, None => Seq::empty() },
        CliToolArgumentsV::CargoCommand { command, args } => "command: "@ + command + opt_part("args"@, opt_debug(args)),
        CliToolArgumentsV::GitCommand { command, args } => "subcommand: "@ + command + opt_part("args"@, opt_debug(args)),
        CliToolArgumentsV::ListDirectory { path, depth, show_hidden } => "path: "@ + path
            + opt_part("depth"@, opt_nat_text(depth)) + opt_part("show_hidden"@, opt_bool_text(show_hidden)),
    }
}

/// The UTF-8 length of the content of a file write, zero for other tools.
pub open spec fn content_bytes(a: CliToolArguments) -> nat {
    match a {
        CliToolArguments::WriteFile { content, .. } => (vstd::utf8::encode_utf8(content@).len() as usize) as nat,
        _ => 0,
    }
}

fn push_opt(r: &mut String, label: &str, v: Option<&str>)
    ensures
        final(r)@ == old(r)@ + opt_part(label@, match v { Some(x) => Some(x@), None => None }),
{
    proof { reveal_strlit(", "); reveal_strlit(": "); }
    match v {
        Some(x) => {
            push_str(r, ", ");
            push_str(r, label);
            push_str(r, ": ");
            push_str(r, x);
        },
        None => {},
    }
    assert(final(r)@ =~= old(r)@ + opt_part(label@, match v { Some(x) => Some(x@), None => None }));
}

impl CliToolArguments {
    /// The one-line description of the arguments that the log shows.
    pub fn describe(&self) -> (r: String)
        ensures
            r@ == arguments_text(self@, content_bytes(*self)),
    {
        proof {
            reveal_strlit("command: '"); reveal_strlit("'"); reveal_strlit("path: "); reveal_strlit(", content_len: ");
            reveal_strlit("pattern: '"); reveal_strlit("symbol: "); reveal_strlit("prompt: '");
            reveal_strlit(", options: ["); reveal_strlit("]"); reveal_strlit("command: "); reveal_strlit("subcommand: ");
            reveal_strlit("true"); reveal_strlit("false");
        }
        let mut r = String::new();
        match self {
            CliToolArguments::Shell { command } => {
                push_str(&mut r, "command: '");
                push_str(&mut r, command.as_str());
                push_str(&mut r, "'");
            },
            CliToolArguments::ReadFile { path } => {
                push_str(&mut r, "path: ");
                push_str(&mut r, path.as_str());
            },
            CliToolArguments::WriteFile { path, content } => {
                push_str(&mut r, "path: ");
                push_str(&mut r, path.as_str());
                push_str(&mut r, ", content_len: ");
                let n = u64_to_decimal(content.as_str().len() as u64);
                push_str(&mut r, n.as_str());
            },
            CliToolArguments::SearchText { pattern, path, file_glob, .. } => {
                push_str(&mut r, "pattern: '");
                push_str(&mut r, pattern.as_str());
                push_str(&mut r, "'");
                push_opt(&mut r, "path", match path { Some(p) => Some(p.as_str()), None => None });
                push_opt(&mut r, "glob", match file_glob { Some(g) => Some(g.as_str()), None => None });
            },
            CliToolArguments::FindRustDefinition { symbol, path } => {
                push_str(&mut r, "symbol: ");
                push_str(&mut r, symbol.as_str());
                push_opt(&mut r, "path", match path { Some(p) => Some(p.as_str()), None => None });
            },
            CliToolArguments::UserInput { prompt, options } => {
                push_str(&mut r, "prompt: '");
                push_str(&mut r, prompt.as_str());
                push_str(&mut r, "'");
                match options {
                    Some(o) => {
                        push_str(&mut r, ", options: [");
                        let j = join_comma(o);
                        push_str(&mut r, j.as_str());
                        push_str(&mut r, "]");
                    },
                    None => {},
                }
            },
            CliToolArguments::CargoCommand { command, args } => {
                push_str(&mut r, "command: ");
                push_str(&mut r, command.as_str());
                match args {
                    Some(a) => {
                        let d = debug_strings(a);
                        push_opt(&mut r, "args", Some(d.as_str()));
                    },
                    None => {},
                }
            },
            CliToolArguments::GitCommand { command, args } => {
                push_str(&mut r, "subcommand: ");
                push_str(&mut r, command.as_str());
                match args {
                    Some(a) => {
                        let d = debug_strings(a);
                        push_opt(&mut r, "args", Some(d.as_str()));
                    },
                    None => {},
                }
            },
            CliToolArguments::ListDirectory { path, depth, show_hidden } => {
                push_str(&mut r, "path: ");
                push_str(&mut r, path.as_str());
                match depth {
                    Some(d) => {
                        let t = u64_to_decimal(*d as u64);
                        push_opt(&mut r, "depth", Some(t.as_str()));
                    },
                    None => {},
                }
                match show_hidden {
                    Some(h) => push_opt(&mut r, "show_hidden", Some(if *h { "true" } else { "false" })),
                    None => {},
                }
            },
        }
        assert(r@ =~= arguments_text(self@, content_bytes(*self)));
        r
    }
}

} // verus!

verus! {

/// The command-line tool provider.
pub struct CliToolProvider {}

/// Whether a parameter is a plain one of the given type and description.
pub open spec fn is_plain_param(p: ToolParameter, t: ToolParameterType, d: Seq<char>) -> bool {
    &&& p.param_type == t
    &&& p.description@ == d
    &&& p.enum_values is None
    &&& p.items is None
    &&& p.properties is None
    &&& p.required is None
}

/// Whether a parameter is a list of strings with the given description.
pub open spec fn is_string_list_param(p: ToolParameter, d: Seq<char>) -> bool {
    &&& p.param_type == ToolParameterType::Array
    &&& p.description@ == d
    &&& p.enum_values is None
    &&& p.properties is None
    &&& p.required is None
    &&& p.items matches Some(item) && is_plain_param(*item, ToolParameterType::String, "A single string item"@)
}

/// The kind of a command-line tool parameter.
#[derive(Clone, Copy, PartialEq, Eq, Structural)]
pub enum ParamKind {
    Text,
    Flag,
    Count,
    TextList,
}

/// Whether a parameter is the one a kind and description make.
pub open spec fn param_of_kind(p: ToolParameter, k: ParamKind, d: Seq<char>) -> bool {
    match k {
        ParamKind::Text => is_plain_param(p, ToolParameterType::String, d),
        ParamKind::Flag => is_plain_param(p, ToolParameterType::Boolean, d),
        ParamKind::Count => is_plain_param(p, ToolParameterType::Integer, d),
        ParamKind::TextList => is_string_list_param(p, d),
    }
}

/// Whether a tool definition is the object-typed one with these
/// properties (name, kind, description) and required names.
pub open spec fn definition_is(d: ToolDefinition, name: Seq<char>, description: Seq<char>,
    props: Seq<(&str, ParamKind, &str)>, required: Seq<&str>) -> bool
{
    &&& d.name@ == name
    &&& d.description@ == description
    &&& d.parameters.param_type@ == "object"@
    &&& d.parameters.properties@.len() == props.len()
    &&& forall|i: int| 0 <= i < props.len() ==> (#[trigger] d.parameters.properties@[i]).0@ == props[i].0@
        && param_of_kind(d.parameters.properties@[i].1, props[i].1, props[i].2@)
    &&& d.parameters.required@.len() == required.len()
    &&& forall|i: int| 0 <= i < required.len() ==> (#[trigger] d.parameters.required@[i])@ == required[i]@
}

impl CliToolProvider {
    /// A provider.
    pub fn new() -> (r: CliToolProvider) {
        CliToolProvider {}
    }

    /// A string parameter.
    pub fn string_param(description: &str) -> (p: ToolParameter)
        ensures
            is_plain_param(p, ToolParameterType::String, description@),
    {
        ToolParameter {
            param_type: ToolParameterType::String,
            description: to_owned(description),
            enum_values: None,
            items: None,
            properties: None,
            required: None,
        }
    }

    /// A boolean parameter.
    pub fn bool_param(description: &str) -> (p: ToolParameter)
        ensures
            is_plain_param(p, ToolParameterType::Boolean, description@),
    {
        ToolParameter {
            param_type: ToolParameterType::Boolean,
            description: to_owned(description),
            enum_values: None,
            items: None,
            properties: None,
            required: None,
        }
    }

    /// An integer parameter.
    pub fn int_param(description: &str) -> (p: ToolParameter)
        ensures
            is_plain_param(p, ToolParameterType::Integer, description@),
    {
        ToolParameter {
            param_type: ToolParameterType::Integer,
            description: to_owned(description),
            enum_values: None,
            items: None,
            properties: None,
            required: None,
        }
    }

    /// A parameter that is a list of strings.
    pub fn string_array_param(description: &str) -> (p: ToolParameter)
        ensures
            is_string_list_param(p, description@),
    {
        ToolParameter {
            param_type: ToolParameterType::Array,
            description: to_owned(description),
            enum_values: None,
            items: Some(Box::new(ToolParameter {
                param_type: ToolParameterType::String,
                description: to_owned("A single string item"),
                enum_values: None,
                items: None,
                properties: None,
                required: None,
            })),
            properties: None,
            required: None,
        }
    }

    fn param_for(kind: ParamKind, description: &str) -> (p: ToolParameter)
        ensures
            param_of_kind(p, kind, description@),
    {
        match kind {
            ParamKind::Text => Self::string_param(description),
            ParamKind::Flag => Self::bool_param(description),
            ParamKind::Count => Self::int_param(description),
            ParamKind::TextList => Self::string_array_param(description),
        }
    }

    fn definition(name: &str, description: &str, props: &[(&str, ParamKind, &str)], required: &[&str]) -> (d: ToolDefinition)
        ensures
            definition_is(d, name@, description@, props@, required@),
    {
        proof { reveal_strlit("object"); }
        let mut properties: Vec<(String, ToolParameter)> = Vec::new();
        let mut i: usize = 0;
        while i < props.len()
            invariant
                i <= props.len(),
                properties@.len() == i,
                forall|j: int| 0 <= j < i ==> (#[trigger] properties@[j]).0@ == props@[j].0@
                    && param_of_kind(properties@[j].1, props@[j].1, props@[j].2@),
            decreases props.len() - i,
        {
            let (n, k, dsc) = props[i];
            properties.push((to_owned(n), Self::param_for(k, dsc)));
            i = i + 1;
        }
        let mut req: Vec<String> = Vec::new();
        let mut i: usize = 0;
        while i < required.len()
            invariant
                i <= required.len(),
                req@.len() == i,
                forall|j: int| 0 <= j < i ==> (#[trigger] req@[j])@ == required@[j]@,
            decreases required.len() - i,
        {
            req.push(to_owned(required[i]));
            i = i + 1;
        }
        ToolDefinition {
            name: to_owned(name),
            description: to_owned(description),
            parameters: ToolParametersDefinition { param_type: to_owned("object"), properties, required: req },
        }
    }
}

} // verus!

verus! {

/// The tools that the command-line provider offers, in order, with their
/// parameters and required names.
pub open spec fn cli_tool_definitions(v: Seq<ToolDefinition>) -> bool {
    &&& v.len() == 9
    &&& definition_is(v[0], "shell"@, "Run a shell command and get the output"@,
        seq![("command", ParamKind::Text, "The shell command to run")],
        seq!["command"])
    &&& definition_is(v[1], "read_file"@, "Read the contents of a file"@,
        seq![("path", ParamKind::Text, "Path to the file to read")],
        seq!["path"])
    &&& definition_is(v[2], "write_file"@, "Write content to a file"@,
        seq![("path", ParamKind::Text, "Path to the file to write"), ("content", ParamKind::Text, "Content to write to the file")],
        seq!["path", "content"])
    &&& definition_is(v[3], "search_text"@, "Search for text patterns in files, returning matching lines with context. Requires 'ripgrep' (rg) to be installed."@,
        seq![("pattern", ParamKind::Text, "Text or regex pattern to search for"), ("path", ParamKind::Text, "Directory or file path to search in (defaults to current directory)"), ("file_glob", ParamKind::Text, "Glob pattern to filter files (e.g., \"*.rs\", \"*.md\", defaults to \"*\") - Use forward slashes ('/') as path separators in globs, even on Windows."), ("case_sensitive", ParamKind::Flag, "Perform case-sensitive search (defaults to false)"), ("context_lines", ParamKind::Count, "Number of context lines before and after each match (defaults to 1)"), ("max_results", ParamKind::Count, "Maximum number of matching lines to return (defaults to 50)")],
        seq!["pattern"])
    &&& definition_is(v[4], "find_rust_definition"@, "Find where a Rust symbol (function, struct, enum, trait, etc.) is defined in the codebase. Searches *.rs files."@,
        seq![("symbol", ParamKind::Text, "Rust symbol name to search for (function, struct, enum, trait, macro, etc.)"), ("path", ParamKind::Text, "Directory path to search in (defaults to current directory)")],
        seq!["symbol"])
    &&& definition_is(v[5], "user_input"@, "Ask the user for input when a choice needs to be made"@,
        seq![("prompt", ParamKind::Text, "The question or prompt to show the user"), ("options", ParamKind::TextList, "Optional list of specific options to present to the user")],
        seq!["prompt"])
    &&& definition_is(v[6], "git"@, "Executes an allowed git subcommand with optional arguments and path. Denied commands: push, reset, rebase, checkout, branch -D, etc."@,
        seq![("subcommand", ParamKind::Text, "The git subcommand to execute (e.g., 'status', 'diff', 'log')"), ("args", ParamKind::TextList, "Optional arguments for the git subcommand (e.g., [\"--porcelain\"], [\"--staged\"], [\"src/main.rs\"], [\"-m\", \"My message\"])")],
        seq!["subcommand"])
    &&& definition_is(v[7], "cargo_command"@, "Run a safe cargo command. Denied commands: publish, install, login, owner, etc."@,
        seq![("command", ParamKind::Text, "The cargo subcommand to run (e.g., \"build\", \"test\", \"check\", \"fmt\", \"run\")"), ("args", ParamKind::TextList, "Arguments for the cargo subcommand (e.g., [\"--release\"], [\"my_test\", \"--\", \"--nocapture\"])")],
        seq!["command"])
    &&& definition_is(v[8], "list_directory"@, "List files and directories at a given path, respecting .gitignore. Output is raw text, one path per line."@,
        seq![("path", ParamKind::Text, "The directory path to explore."), ("depth", ParamKind::Count, "Maximum depth to recurse (1 lists immediate contents, 2 includes subdirs, etc.). Defaults to 1. Use 0 to list only the directory itself (if not hidden/ignored)."), ("show_hidden", ParamKind::Flag, "Include hidden files/directories (starting with '.'). Defaults to false.")],
        seq!["path"])
}

impl CliToolProvider {
    /// The tools this provider offers the model: shell, file reading and
    /// writing, text search, Rust definition search, asking the user, git,
    /// cargo and directory listing.
    pub fn get_tool_definitions(&self) -> (r: Vec<ToolDefinition>)
        ensures
            cli_tool_definitions(r@),
    {
        let mut v: Vec<ToolDefinition> = Vec::new();
        let d = Self::definition("shell", "Run a shell command and get the output",
            &[("command", ParamKind::Text, "The shell command to run")],
            &["command"]);
        v.push(d);
        let d = Self::definition("read_file", "Read the contents of a file",
            &[("path", ParamKind::Text, "Path to the file to read")],
            &["path"]);
        v.push(d);
        let d = Self::definition("write_file", "Write content to a file",
            &[("path", ParamKind::Text, "Path to the file to write"), ("content", ParamKind::Text, "Content to write to the file")],
            &["path", "content"]);
        v.push(d);
        let d = Self::definition("search_text", "Search for text patterns in files, returning matching lines with context. Requires 'ripgrep' (rg) to be installed.",
            &[("pattern", ParamKind::Text, "Text or regex pattern to search for"), ("path", ParamKind::Text, "Directory or file path to search in (defaults to current directory)"), ("file_glob", ParamKind::Text, "Glob pattern to filter files (e.g., \"*.rs\", \"*.md\", defaults to \"*\") - Use forward slashes ('/') as path separators in globs, even on Windows."), ("case_sensitive", ParamKind::Flag, "Perform case-sensitive search (defaults to false)"), ("context_lines", ParamKind::Count, "Number of context lines before and after each match (defaults to 1)"), ("max_results", ParamKind::Count, "Maximum number of matching lines to return (defaults to 50)")],
            &["pattern"]);
        v.push(d);
        let d = Self::definition("find_rust_definition", "Find where a Rust symbol (function, struct, enum, trait, etc.) is defined in the codebase. Searches *.rs files.",
            &[("symbol", ParamKind::Text, "Rust symbol name to search for (function, struct, enum, trait, macro, etc.)"), ("path", ParamKind::Text, "Directory path to search in (defaults to current directory)")],
            &["symbol"]);
        v.push(d);
        let d = Self::definition("user_input", "Ask the user for input when a choice needs to be made",
            &[("prompt", ParamKind::Text, "The question or prompt to show the user"), ("options", ParamKind::TextList, "Optional list of specific options to present to the user")],
            &["prompt"]);
        v.push(d);
        let d = Self::definition("git", "Executes an allowed git subcommand with optional arguments and path. Denied commands: push, reset, rebase, checkout, branch -D, etc.",
            &[("subcommand", ParamKind::Text, "The git subcommand to execute (e.g., 'status', 'diff', 'log')"), ("args", ParamKind::TextList, "Optional arguments for the git subcommand (e.g., [\"--porcelain\"], [\"--staged\"], [\"src/main.rs\"], [\"-m\", \"My message\"])")],
            &["subcommand"]);
        v.push(d);
        let d = Self::definition("cargo_command", "Run a safe cargo command. Denied commands: publish, install, login, owner, etc.",
            &[("command", ParamKind::Text, "The cargo subcommand to run (e.g., \"build\", \"test\", \"check\", \"fmt\", \"run\")"), ("args", ParamKind::TextList, "Arguments for the cargo subcommand (e.g., [\"--release\"], [\"my_test\", \"--\", \"--nocapture\"])")],
            &["command"]);
        v.push(d);
        let d = Self::definition("list_directory", "List files and directories at a given path, respecting .gitignore. Output is raw text, one path per line.",
            &[("path", ParamKind::Text, "The directory path to explore."), ("depth", ParamKind::Count, "Maximum depth to recurse (1 lists immediate contents, 2 includes subdirs, etc.). Defaults to 1. Use 0 to list only the directory itself (if not hidden/ignored)."), ("show_hidden", ParamKind::Flag, "Include hidden files/directories (starting with '.'). Defaults to false.")],
            &["path"]);
        v.push(d);
        v
    }
}

/// Whether an argument error is one about a missing or ill-typed argument.
pub open spec fn is_argument_error(e: Seq<char>) -> bool {
    e.len() > 0 && (e[0] == 'M' || e[0] == 'I')
}

proof fn lemma_argument_errors(a: Seq<(Seq<char>, JsonV)>, k: Seq<char>)
    ensures
        req_str(a, k) matches Err(e) ==> is_argument_error(e),
        opt_str_arg(a, k) matches Err(e) ==> is_argument_error(e),
        opt_bool_arg(a, k) matches Err(e) ==> is_argument_error(e),
        opt_u32_arg(a, k) matches Err(e) ==> is_argument_error(e),
        opt_usize_arg(a, k) matches Err(e) ==> is_argument_error(e),
        opt_list_arg(a, k) matches Err(e) ==> is_argument_error(e),
{
    reveal_strlit("Missing required argument: '");
    reveal_strlit("Invalid type or value for argument '");
    reveal_strlit("Invalid type or value for optional argument '");
}

/// The tools the command-line provider offers are exactly the tools whose
/// calls it reads: a call is refused as naming an unknown tool if and only
/// if no offered tool has that name.
pub proof fn law_offered_tools_are_the_known_tools(defs: Seq<ToolDefinition>, name: Seq<char>,
    a: Seq<(Seq<char>, JsonV)>)
    requires
        cli_tool_definitions(defs),
    ensures
        (exists|i: int| 0 <= i < defs.len() && #[trigger] defs[i].name@ == name)
            <==> tool_arguments(name, a) != Err::<CliToolArgumentsV, Seq<char>>("Unknown tool name: "@ + name),
{
    reveal_strlit("Unknown tool name: ");
    lemma_argument_errors(a, "command"@);
    lemma_argument_errors(a, "path"@);
    lemma_argument_errors(a, "content"@);
    lemma_argument_errors(a, "pattern"@);
    lemma_argument_errors(a, "file_glob"@);
    lemma_argument_errors(a, "case_sensitive"@);
    lemma_argument_errors(a, "context_lines"@);
    lemma_argument_errors(a, "max_results"@);
    lemma_argument_errors(a, "symbol"@);
    lemma_argument_errors(a, "prompt"@);
    lemma_argument_errors(a, "options"@);
    lemma_argument_errors(a, "args"@);
    lemma_argument_errors(a, "subcommand"@);
    lemma_argument_errors(a, "depth"@);
    lemma_argument_errors(a, "show_hidden"@);
    let unknown = "Unknown tool name: "@ + name;
    assert(unknown[0] == 'U');
    if exists|i: int| 0 <= i < defs.len() && #[trigger] defs[i].name@ == name {
        let i = choose|i: int| 0 <= i < defs.len() && #[trigger] defs[i].name@ == name;
        assert(i == 0 || i == 1 || i == 2 || i == 3 || i == 4 || i == 5 || i == 6 || i == 7 || i == 8);
        match tool_arguments(name, a) {
            Ok(_) => {},
            Err(e) => { assert(is_argument_error(e)); },
        }
    } else {
        assert(defs[0].name@ != name && defs[1].name@ != name && defs[2].name@ != name);
        assert(defs[3].name@ != name && defs[4].name@ != name && defs[5].name@ != name);
        assert(defs[6].name@ != name && defs[7].name@ != name && defs[8].name@ != name);
    }
}

/// Whether a tool call's arguments give each of a definition's required
/// names a string, and hold no other name.
pub open spec fn fills_required(d: ToolDefinition, a: Seq<(Seq<char>, JsonV)>) -> bool {
    &&& forall|i: int| 0 <= i < a.len() ==> (a[i].1 is String && exists|j: int|
        0 <= j < d.parameters.required@.len() && a[i].0 == (#[trigger] d.parameters.required@[j])@)
    &&& forall|j: int| 0 <= j < d.parameters.required@.len() ==> exists|i: int|
        0 <= i < a.len() && a[i].0 == (#[trigger] d.parameters.required@[j])@
}

proof fn lemma_present(a: Seq<(Seq<char>, JsonV)>, k: Seq<char>)
    requires
        exists|i: int| 0 <= i < a.len() && a[i].0 == k,
        forall|i: int| 0 <= i < a.len() ==> a[i].1 is String,
    ensures
        req_str(a, k) is Ok,
{
    crate::json::lemma_first_key_index(a, k);
}

proof fn lemma_absent(a: Seq<(Seq<char>, JsonV)>, k: Seq<char>)
    requires
        forall|i: int| 0 <= i < a.len() ==> a[i].0 != k,
    ensures
        entries_get(a, k) is None,
{
    crate::json::lemma_first_key_index(a, k);
}

/// Every required name of an offered tool is one of its parameters, and a
/// call of that tool is read (`parse_tool_arguments` answers `Ok`) whenever
/// its arguments give each required name a string and hold no other name
/// (`defs` stands for what `get_tool_definitions` returns: its `ensures` is
/// `cli_tool_definitions`).
pub proof fn law_required_arguments_suffice(defs: Seq<ToolDefinition>, k: int, a: Seq<(Seq<char>, JsonV)>)
    requires
        cli_tool_definitions(defs),
        0 <= k < defs.len(),
        fills_required(defs[k], a),
    ensures
        forall|j: int| 0 <= j < defs[k].parameters.required@.len() ==> exists|i: int|
            0 <= i < defs[k].parameters.properties@.len()
            && defs[k].parameters.properties@[i].0@ == (#[trigger] defs[k].parameters.required@[j])@,
        tool_arguments(defs[k].name@, a) is Ok,
{
    reveal_strlit("args");
    reveal_strlit("case_sensitive");
    reveal_strlit("command");
    reveal_strlit("content");
    reveal_strlit("context_lines");
    reveal_strlit("depth");
    reveal_strlit("file_glob");
    reveal_strlit("max_results");
    reveal_strlit("options");
    reveal_strlit("path");
    reveal_strlit("pattern");
    reveal_strlit("prompt");
    reveal_strlit("show_hidden");
    reveal_strlit("subcommand");
    reveal_strlit("symbol");
    reveal_strlit("shell");
    reveal_strlit("read_file");
    reveal_strlit("write_file");
    reveal_strlit("search_text");
    reveal_strlit("find_rust_definition");
    reveal_strlit("user_input");
    reveal_strlit("git");
    reveal_strlit("cargo_command");
    reveal_strlit("list_directory");
    let req = defs[k].parameters.required@;
    let props = defs[k].parameters.properties@;
    if k == 0 {
        assert(req[0]@ == "command"@);
        assert(props[0].0@ == "command"@);
        assert forall|i: int| 0 <= i < a.len() implies a[i].0 == "command"@ by {
            let j = choose|j: int| 0 <= j < req.len() && a[i].0 == (#[trigger] req[j])@;
        }
        assert(exists|i: int| 0 <= i < a.len() && a[i].0 == (#[trigger] req[0])@);
        lemma_present(a, "command"@);
        assert(defs[k].name@ == "shell"@);
        assert(tool_arguments("shell"@, a) is Ok);
    }
    if k == 1 {
        assert(req[0]@ == "path"@);
        assert(props[0].0@ == "path"@);
        assert forall|i: int| 0 <= i < a.len() implies a[i].0 == "path"@ by {
            let j = choose|j: int| 0 <= j < req.len() && a[i].0 == (#[trigger] req[j])@;
        }
        assert(exists|i: int| 0 <= i < a.len() && a[i].0 == (#[trigger] req[0])@);
        lemma_present(a, "path"@);
        assert(defs[k].name@ == "read_file"@);
        assert("read_file"@.len() != "shell"@.len());
        assert(tool_arguments("read_file"@, a) is Ok);
    }
    if k == 2 {
        assert(req[0]@ == "path"@);
        assert(props[0].0@ == "path"@);
        assert(req[1]@ == "content"@);
        assert(props[1].0@ == "content"@);
        assert forall|i: int| 0 <= i < a.len() implies a[i].0 == "path"@ || a[i].0 == "content"@ by {
            let j = choose|j: int| 0 <= j < req.len() && a[i].0 == (#[trigger] req[j])@;
        }
        assert(exists|i: int| 0 <= i < a.len() && a[i].0 == (#[trigger] req[0])@);
        lemma_present(a, "path"@);
        assert(exists|i: int| 0 <= i < a.len() && a[i].0 == (#[trigger] req[1])@);
        lemma_present(a, "content"@);
        assert(defs[k].name@ == "write_file"@);
        assert("write_file"@.len() != "shell"@.len());
        assert("write_file"@.len() != "read_file"@.len());
        assert(tool_arguments("write_file"@, a) is Ok);
    }
    if k == 3 {
        assert(req[0]@ == "pattern"@);
        assert(props[0].0@ == "pattern"@);
        assert forall|i: int| 0 <= i < a.len() implies a[i].0 == "pattern"@ by {
            let j = choose|j: int| 0 <= j < req.len() && a[i].0 == (#[trigger] req[j])@;
        }
        assert(exists|i: int| 0 <= i < a.len() && a[i].0 == (#[trigger] req[0])@);
        lemma_present(a, "pattern"@);
        lemma_absent(a, "path"@);
        lemma_absent(a, "file_glob"@);
        lemma_absent(a, "case_sensitive"@);
        lemma_absent(a, "context_lines"@);
        lemma_absent(a, "max_results"@);
        assert(defs[k].name@ == "search_text"@);
        assert("search_text"@.len() != "shell"@.len());
        assert("search_text"@.len() != "read_file"@.len());
        assert("search_text"@.len() != "write_file"@.len());
        assert(tool_arguments("search_text"@, a) is Ok);
    }
    if k == 4 {
        assert(req[0]@ == "symbol"@);
        assert(props[0].0@ == "symbol"@);
        assert forall|i: int| 0 <= i < a.len() implies a[i].0 == "symbol"@ by {
            let j = choose|j: int| 0 <= j < req.len() && a[i].0 == (#[trigger] req[j])@;
        }
        assert(exists|i: int| 0 <= i < a.len() && a[i].0 == (#[trigger] req[0])@);
        lemma_present(a, "symbol"@);
        lemma_absent(a, "path"@);
        assert(defs[k].name@ == "find_rust_definition"@);
        assert("find_rust_definition"@.len() != "shell"@.len());
        assert("find_rust_definition"@.len() != "read_file"@.len());
        assert("find_rust_definition"@.len() != "write_file"@.len());
        assert("find_rust_definition"@.len() != "search_text"@.len());
        assert(tool_arguments("find_rust_definition"@, a) is Ok);
    }
    if k == 5 {
        assert(req[0]@ == "prompt"@);
        assert(props[0].0@ == "prompt"@);
        assert forall|i: int| 0 <= i < a.len() implies a[i].0 == "prompt"@ by {
            let j = choose|j: int| 0 <= j < req.len() && a[i].0 == (#[trigger] req[j])@;
        }
        assert(exists|i: int| 0 <= i < a.len() && a[i].0 == (#[trigger] req[0])@);
        lemma_present(a, "prompt"@);
        lemma_absent(a, "options"@);
        assert(defs[k].name@ == "user_input"@);
        assert("user_input"@.len() != "shell"@.len());
        assert("user_input"@.len() != "read_file"@.len());
        assert("user_input"@[0] != "write_file"@[0]);
        assert("user_input"@.len() != "search_text"@.len());
        assert("user_input"@.len() != "find_rust_definition"@.len());
        assert(tool_arguments("user_input"@, a) is Ok);
    }
    if k == 6 {
        assert(req[0]@ == "subcommand"@);
        assert(props[0].0@ == "subcommand"@);
        assert forall|i: int| 0 <= i < a.len() implies a[i].0 == "subcommand"@ by {
            let j = choose|j: int| 0 <= j < req.len() && a[i].0 == (#[trigger] req[j])@;
        }
        assert(exists|i: int| 0 <= i < a.len() && a[i].0 == (#[trigger] req[0])@);
        lemma_present(a, "subcommand"@);
        lemma_absent(a, "args"@);
        assert(defs[k].name@ == "git"@);
        assert("git"@.len() != "shell"@.len());
        assert("git"@.len() != "read_file"@.len());
        assert("git"@.len() != "write_file"@.len());
        assert("git"@.len() != "search_text"@.len());
        assert("git"@.len() != "find_rust_definition"@.len());
        assert("git"@.len() != "user_input"@.len());
        assert("git"@.len() != "cargo_command"@.len());
        assert(tool_arguments("git"@, a) is Ok);
    }
    if k == 7 {
        assert(req[0]@ == "command"@);
        assert(props[0].0@ == "command"@);
        assert forall|i: int| 0 <= i < a.len() implies a[i].0 == "command"@ by {
            let j = choose|j: int| 0 <= j < req.len() && a[i].0 == (#[trigger] req[j])@;
        }
        assert(exists|i: int| 0 <= i < a.len() && a[i].0 == (#[trigger] req[0])@);
        lemma_present(a, "command"@);
        lemma_absent(a, "args"@);
        assert(defs[k].name@ == "cargo_command"@);
        assert("cargo_command"@.len() != "shell"@.len());
        assert("cargo_command"@.len() != "read_file"@.len());
        assert("cargo_command"@.len() != "write_file"@.len());
        assert("cargo_command"@.len() != "search_text"@.len());
        assert("cargo_command"@.len() != "find_rust_definition"@.len());
        assert("cargo_command"@.len() != "user_input"@.len());
        assert(tool_arguments("cargo_command"@, a) is Ok);
    }
    if k == 8 {
        assert(req[0]@ == "path"@);
        assert(props[0].0@ == "path"@);
        assert forall|i: int| 0 <= i < a.len() implies a[i].0 == "path"@ by {
            let j = choose|j: int| 0 <= j < req.len() && a[i].0 == (#[trigger] req[j])@;
        }
        assert(exists|i: int| 0 <= i < a.len() && a[i].0 == (#[trigger] req[0])@);
        lemma_present(a, "path"@);
        lemma_absent(a, "depth"@);
        lemma_absent(a, "show_hidden"@);
        assert(defs[k].name@ == "list_directory"@);
        assert("list_directory"@.len() != "shell"@.len());
        assert("list_directory"@.len() != "read_file"@.len());
        assert("list_directory"@.len() != "write_file"@.len());
        assert("list_directory"@.len() != "search_text"@.len());
        assert("list_directory"@.len() != "find_rust_definition"@.len());
        assert("list_directory"@.len() != "user_input"@.len());
        assert("list_directory"@.len() != "cargo_command"@.len());
        assert("list_directory"@.len() != "git"@.len());
        assert(tool_arguments("list_directory"@, a) is Ok);
    }
}

/// Only the offered tools' calls are read: a call of any other name is
/// refused.
pub proof fn law_only_offered_tools_are_read(defs: Seq<ToolDefinition>, name: Seq<char>,
    a: Seq<(Seq<char>, JsonV)>)
    requires
        cli_tool_definitions(defs),
        tool_arguments(name, a) is Ok,
    ensures
        exists|i: int| 0 <= i < defs.len() && #[trigger] defs[i].name@ == name,
{
    law_offered_tools_are_the_known_tools(defs, name, a);
}

/// Whether two tool definitions declare the same tool: the same name,
/// description and parameters, as the model is shown them.
pub open spec fn same_definition(d: ToolDefinition, e: ToolDefinition) -> bool {
    crate::chat_api::function_declaration(d) == crate::chat_api::function_declaration(e)
}

proof fn lemma_same_param(p: ToolParameter, q: ToolParameter, k: ParamKind, d: Seq<char>)
    requires
        param_of_kind(p, k, d),
        param_of_kind(q, k, d),
    ensures
        param_json(p) == param_json(q),
{
    match k {
        ParamKind::TextList => {
            let a = *p.items->0;
            let b = *q.items->0;
            assert(param_json(a) == param_json(b));
        },
        _ => {},
    }
}

proof fn lemma_same_props(ps: Seq<(String, ToolParameter)>, qs: Seq<(String, ToolParameter)>)
    requires
        ps.len() == qs.len(),
        forall|i: int| 0 <= i < ps.len() ==> (#[trigger] ps[i]).0@ == qs[i].0@ && param_json(ps[i].1) == param_json(qs[i].1),
    ensures
        props_json(ps) == props_json(qs),
    decreases ps.len(),
{
    if ps.len() > 0 {
        lemma_same_props(ps.drop_last(), qs.drop_last());
        assert(ps.last() == ps[ps.len() - 1]);
    }
}

proof fn lemma_same_definition(d: ToolDefinition, e: ToolDefinition, name: Seq<char>, description: Seq<char>,
    props: Seq<(&str, ParamKind, &str)>, required: Seq<&str>)
    requires
        definition_is(d, name, description, props, required),
        definition_is(e, name, description, props, required),
    ensures
        same_definition(d, e),
{
    let ps = d.parameters.properties@;
    let qs = e.parameters.properties@;
    assert forall|i: int| 0 <= i < ps.len() implies (#[trigger] ps[i]).0@ == qs[i].0@ && param_json(ps[i].1) == param_json(qs[i].1) by {
        lemma_same_param(ps[i].1, qs[i].1, props[i].1, props[i].2@);
    }
    lemma_same_props(ps, qs);
    crate::models::lemma_str_seq(d.parameters.required@);
    crate::models::lemma_str_seq(e.parameters.required@);
    assert(str_seq(d.parameters.required@) =~= str_seq(e.parameters.required@));
    assert(params_def_json(d.parameters) == params_def_json(e.parameters));
}

/// Two command-line providers offer the same tools: each definition of one
/// has the same name, description, parameter names, parameters and required
/// names as the definition at the same place of the other.
pub proof fn law_providers_offer_equal_definitions(d1: Seq<ToolDefinition>, d2: Seq<ToolDefinition>)
    requires
        cli_tool_definitions(d1),
        cli_tool_definitions(d2),
    ensures
        d1.len() == d2.len(),
        forall|i: int| 0 <= i < d1.len() ==> same_definition(#[trigger] d1[i], d2[i]),
{
    assert forall|i: int| 0 <= i < d1.len() implies same_definition(#[trigger] d1[i], d2[i]) by {
        if i == 0 { lemma_same_definition(d1[0], d2[0], "shell"@, "Run a shell command and get the output"@,
        seq![("command", ParamKind::Text, "The shell command to run")],
        seq!["command"]) }
        if i == 1 { lemma_same_definition(d1[1], d2[1], "read_file"@, "Read the contents of a file"@,
        seq![("path", ParamKind::Text, "Path to the file to read")],
        seq!["path"]) }
        if i == 2 { lemma_same_definition(d1[2], d2[2], "write_file"@, "Write content to a file"@,
        seq![("path", ParamKind::Text, "Path to the file to write"), ("content", ParamKind::Text, "Content to write to the file")],
        seq!["path", "content"]) }
        if i == 3 { lemma_same_definition(d1[3], d2[3], "search_text"@, "Search for text patterns in files, returning matching lines with context. Requires 'ripgrep' (rg) to be installed."@,
        seq![("pattern", ParamKind::Text, "Text or regex pattern to search for"), ("path", ParamKind::Text, "Directory or file path to search in (defaults to current directory)"), ("file_glob", ParamKind::Text, "Glob pattern to filter files (e.g., \"*.rs\", \"*.md\", defaults to \"*\") - Use forward slashes ('/') as path separators in globs, even on Windows."), ("case_sensitive", ParamKind::Flag, "Perform case-sensitive search (defaults to false)"), ("context_lines", ParamKind::Count, "Number of context lines before and after each match (defaults to 1)"), ("max_results", ParamKind::Count, "Maximum number of matching lines to return (defaults to 50)")],
        seq!["pattern"]) }
        if i == 4 { lemma_same_definition(d1[4], d2[4], "find_rust_definition"@, "Find where a Rust symbol (function, struct, enum, trait, etc.) is defined in the codebase. Searches *.rs files."@,
        seq![("symbol", ParamKind::Text, "Rust symbol name to search for (function, struct, enum, trait, macro, etc.)"), ("path", ParamKind::Text, "Directory path to search in (defaults to current directory)")],
        seq!["symbol"]) }
        if i == 5 { lemma_same_definition(d1[5], d2[5], "user_input"@, "Ask the user for input when a choice needs to be made"@,
        seq![("prompt", ParamKind::Text, "The question or prompt to show the user"), ("options", ParamKind::TextList, "Optional list of specific options to present to the user")],
        seq!["prompt"]) }
        if i == 6 { lemma_same_definition(d1[6], d2[6], "git"@, "Executes an allowed git subcommand with optional arguments and path. Denied commands: push, reset, rebase, checkout, branch -D, etc."@,
        seq![("subcommand", ParamKind::Text, "The git subcommand to execute (e.g., 'status', 'diff', 'log')"), ("args", ParamKind::TextList, "Optional arguments for the git subcommand (e.g., [\"--porcelain\"], [\"--staged\"], [\"src/main.rs\"], [\"-m\", \"My message\"])")],
        seq!["subcommand"]) }
        if i == 7 { lemma_same_definition(d1[7], d2[7], "cargo_command"@, "Run a safe cargo command. Denied commands: publish, install, login, owner, etc."@,
        seq![("command", ParamKind::Text, "The cargo subcommand to run (e.g., \"build\", \"test\", \"check\", \"fmt\", \"run\")"), ("args", ParamKind::TextList, "Arguments for the cargo subcommand (e.g., [\"--release\"], [\"my_test\", \"--\", \"--nocapture\"])")],
        seq!["command"]) }
        if i == 8 { lemma_same_definition(d1[8], d2[8], "list_directory"@, "List files and directories at a given path, respecting .gitignore. Output is raw text, one path per line."@,
        seq![("path", ParamKind::Text, "The directory path to explore."), ("depth", ParamKind::Count, "Maximum depth to recurse (1 lists immediate contents, 2 includes subdirs, etc.). Defaults to 1. Use 0 to list only the directory itself (if not hidden/ignored)."), ("show_hidden", ParamKind::Flag, "Include hidden files/directories (starting with '.'). Defaults to false.")],
        seq!["path"]) }
    }
}


/// The command-line provider's tools have distinct names, and no tool
/// names a parameter twice (`defs` stands for what `get_tool_definitions`
/// returns).
pub proof fn law_cli_names_distinct(defs: Seq<ToolDefinition>)
    requires
        cli_tool_definitions(defs),
    ensures
        forall|k: int| 0 <= k < defs.len() ==> distinct_param_names(#[trigger] defs[k].parameters.properties@),
        forall|i: int, j: int| 0 <= i < j < defs.len() ==> (#[trigger] defs[i]).name@ != (#[trigger] defs[j]).name@,
{
    reveal_strlit("args");
    reveal_strlit("cargo_command");
    reveal_strlit("case_sensitive");
    reveal_strlit("command");
    reveal_strlit("content");
    reveal_strlit("context_lines");
    reveal_strlit("depth");
    reveal_strlit("file_glob");
    reveal_strlit("find_rust_definition");
    reveal_strlit("git");
    reveal_strlit("list_directory");
    reveal_strlit("max_results");
    reveal_strlit("options");
    reveal_strlit("path");
    reveal_strlit("pattern");
    reveal_strlit("prompt");
    reveal_strlit("read_file");
    reveal_strlit("search_text");
    reveal_strlit("shell");
    reveal_strlit("show_hidden");
    reveal_strlit("subcommand");
    reveal_strlit("symbol");
    reveal_strlit("user_input");
    reveal_strlit("write_file");
    assert(distinct_param_names(defs[0].parameters.properties@)) by {
        let ps = defs[0].parameters.properties@;
        assert(ps[0].0@ == "command"@);
    }
    assert(distinct_param_names(defs[1].parameters.properties@)) by {
        let ps = defs[1].parameters.properties@;
        assert(ps[0].0@ == "path"@);
    }
    assert(distinct_param_names(defs[2].parameters.properties@)) by {
        let ps = defs[2].parameters.properties@;
        assert(ps[0].0@ == "path"@);
        assert(ps[1].0@ == "content"@);
        assert("path"@.len() != "content"@.len());
    }
    assert(distinct_param_names(defs[3].parameters.properties@)) by {
        let ps = defs[3].parameters.properties@;
        assert(ps[0].0@ == "pattern"@);
        assert(ps[1].0@ == "path"@);
        assert(ps[2].0@ == "file_glob"@);
        assert(ps[3].0@ == "case_sensitive"@);
        assert(ps[4].0@ == "context_lines"@);
        assert(ps[5].0@ == "max_results"@);
        assert("pattern"@.len() != "path"@.len());
        assert("pattern"@.len() != "file_glob"@.len());
        assert("pattern"@.len() != "case_sensitive"@.len());
        assert("pattern"@.len() != "context_lines"@.len());
        assert("pattern"@.len() != "max_results"@.len());
        assert("path"@.len() != "file_glob"@.len());
        assert("path"@.len() != "case_sensitive"@.len());
        assert("path"@.len() != "context_lines"@.len());
        assert("path"@.len() != "max_results"@.len());
        assert("file_glob"@.len() != "case_sensitive"@.len());
        assert("file_glob"@.len() != "context_lines"@.len());
        assert("file_glob"@.len() != "max_results"@.len());
        assert("case_sensitive"@.len() != "context_lines"@.len());
        assert("case_sensitive"@.len() != "max_results"@.len());
        assert("context_lines"@.len() != "max_results"@.len());
    }
    assert(distinct_param_names(defs[4].parameters.properties@)) by {
        let ps = defs[4].parameters.properties@;
        assert(ps[0].0@ == "symbol"@);
        assert(ps[1].0@ == "path"@);
        assert("symbol"@.len() != "path"@.len());
    }
    assert(distinct_param_names(defs[5].parameters.properties@)) by {
        let ps = defs[5].parameters.properties@;
        assert(ps[0].0@ == "prompt"@);
        assert(ps[1].0@ == "options"@);
        assert("prompt"@.len() != "options"@.len());
    }
    assert(distinct_param_names(defs[6].parameters.properties@)) by {
        let ps = defs[6].parameters.properties@;
        assert(ps[0].0@ == "subcommand"@);
        assert(ps[1].0@ == "args"@);
        assert("subcommand"@.len() != "args"@.len());
    }
    assert(distinct_param_names(defs[7].parameters.properties@)) by {
        let ps = defs[7].parameters.properties@;
        assert(ps[0].0@ == "command"@);
        assert(ps[1].0@ == "args"@);
        assert("command"@.len() != "args"@.len());
    }
    assert(distinct_param_names(defs[8].parameters.properties@)) by {
        let ps = defs[8].parameters.properties@;
        assert(ps[0].0@ == "path"@);
        assert(ps[1].0@ == "depth"@);
        assert(ps[2].0@ == "show_hidden"@);
        assert("path"@.len() != "depth"@.len());
        assert("path"@.len() != "show_hidden"@.len());
        assert("depth"@.len() != "show_hidden"@.len());
    }
    assert(defs[0].name@ == "shell"@);
    assert(defs[1].name@ == "read_file"@);
    assert(defs[2].name@ == "write_file"@);
    assert(defs[3].name@ == "search_text"@);
    assert(defs[4].name@ == "find_rust_definition"@);
    assert(defs[5].name@ == "user_input"@);
    assert(defs[6].name@ == "git"@);
    assert(defs[7].name@ == "cargo_command"@);
    assert(defs[8].name@ == "list_directory"@);
    assert("shell"@.len() != "read_file"@.len());
    assert("shell"@.len() != "write_file"@.len());
    assert("shell"@.len() != "search_text"@.len());
    assert("shell"@.len() != "find_rust_definition"@.len());
    assert("shell"@.len() != "user_input"@.len());
    assert("shell"@.len() != "git"@.len());
    assert("shell"@.len() != "cargo_command"@.len());
    assert("shell"@.len() != "list_directory"@.len());
    assert("read_file"@.len() != "write_file"@.len());
    assert("read_file"@.len() != "search_text"@.len());
    assert("read_file"@.len() != "find_rust_definition"@.len());
    assert("read_file"@.len() != "user_input"@.len());
    assert("read_file"@.len() != "git"@.len());
    assert("read_file"@.len() != "cargo_command"@.len());
    assert("read_file"@.len() != "list_directory"@.len());
    assert("write_file"@.len() != "search_text"@.len());
    assert("write_file"@.len() != "find_rust_definition"@.len());
    assert("write_file"@[0] != "user_input"@[0]);
    assert("write_file"@.len() != "git"@.len());
    assert("write_file"@.len() != "cargo_command"@.len());
    assert("write_file"@.len() != "list_directory"@.len());
    assert("search_text"@.len() != "find_rust_definition"@.len());
    assert("search_text"@.len() != "user_input"@.len());
    assert("search_text"@.len() != "git"@.len());
    assert("search_text"@.len() != "cargo_command"@.len());
    assert("search_text"@.len() != "list_directory"@.len());
    assert("find_rust_definition"@.len() != "user_input"@.len());
    assert("find_rust_definition"@.len() != "git"@.len());
    assert("find_rust_definition"@.len() != "cargo_command"@.len());
    assert("find_rust_definition"@.len() != "list_directory"@.len());
    assert("user_input"@.len() != "git"@.len());
    assert("user_input"@.len() != "cargo_command"@.len());
    assert("user_input"@.len() != "list_directory"@.len());
    assert("git"@.len() != "cargo_command"@.len());
    assert("git"@.len() != "list_directory"@.len());
    assert("cargo_command"@.len() != "list_directory"@.len());
    assert forall|k: int| 0 <= k < defs.len() implies distinct_param_names(#[trigger] defs[k].parameters.properties@) by {
        assert(k == 0 || k == 1 || k == 2 || k == 3 || k == 4 || k == 5 || k == 6 || k == 7 || k == 8);
    }
    assert forall|i: int, j: int| 0 <= i < j < defs.len() implies (#[trigger] defs[i]).name@ != (#[trigger] defs[j]).name@ by {
        assert(i == 0 || i == 1 || i == 2 || i == 3 || i == 4 || i == 5 || i == 6 || i == 7 || i == 8);
        assert(j == 1 || j == 2 || j == 3 || j == 4 || j == 5 || j == 6 || j == 7 || j == 8);
    }
}

} // verus!

