//! The rules of the command-line tools: which cargo and git commands are
//! refused, how a confirmation answer is read, how search commands are built
//! and quoted for the shell, and the reports the tools hand back to the model.

use vstd::prelude::*;
use crate::text::{push_str, push_char, to_owned, str_eq, chars_of, starts_with, contains,
    to_lowercase, trim, lowercased, trimmed, has_prefix, has_substring, decimal, u64_to_decimal};
use crate::toml_value::{signed_decimal, i64_to_decimal};
use crate::models::{str_seq, lemma_str_seq};

verus! {

/// The items of a list joined by a separator.
pub open spec fn joined(v: Seq<Seq<char>>, sep: Seq<char>) -> Seq<char>
    decreases v.len(),
{
    if v.len() == 0 {
        Seq::empty()
    } else if v.len() == 1 {
        v[0]
    } else {
        joined(v.drop_last(), sep) + sep + v.last()
    }
}

/// The items of a list joined by a separator, as `join` of std writes them.
pub fn join_with(v: &[String], sep: &str) -> (r: String)
    ensures
        r@ == joined(str_seq(v@), sep@),
{
    proof { lemma_str_seq(v@); }
    let mut r = String::new();
    let mut i: usize = 0;
    while i < v.len()
        invariant
            i <= v.len(),
            str_seq(v@).len() == v@.len(),
            forall|j: int| 0 <= j < v@.len() ==> #[trigger] str_seq(v@)[j] == v@[j]@,
            r@ == joined(str_seq(v@).subrange(0, i as int), sep@),
        decreases v.len() - i,
    {
        if i > 0 {
            push_str(&mut r, sep);
        }
        push_str(&mut r, v[i].as_str());
        proof {
            let sub = str_seq(v@).subrange(0, i + 1);
            assert(sub.drop_last() =~= str_seq(v@).subrange(0, i as int));
            if i == 0 {
                assert(sub.len() == 1);
            }
        }
        i = i + 1;
    }
    assert(str_seq(v@).subrange(0, v@.len() as int) =~= str_seq(v@));
    r
}

/// Whether `s` is one of the strings of `list`.
pub fn is_listed(list: &[String], s: &str) -> (r: bool)
    ensures
        r == str_seq(list@).contains(s@),
{
    proof { lemma_str_seq(list@); }
    let mut i: usize = 0;
    while i < list.len()
        invariant
            i <= list.len(),
            str_seq(list@).len() == list@.len(),
            forall|j: int| 0 <= j < list@.len() ==> #[trigger] str_seq(list@)[j] == list@[j]@,
            forall|j: int| 0 <= j < i ==> str_seq(list@)[j] != s@,
        decreases list.len() - i,
    {
        if str_eq(list[i].as_str(), s) {
            assert(str_seq(list@)[i as int] == s@);
            return true;
        }
        i = i + 1;
    }
    false
}

/// A list of owned strings holding the given literals, in order.
pub fn owned_list(items: &[&str]) -> (r: Vec<String>)
    ensures
        str_seq(r@) == items@.map_values(|s: &str| s@),
{
    let mut r: Vec<String> = Vec::new();
    let mut i: usize = 0;
    while i < items.len()
        invariant
            i <= items.len(),
            str_seq(r@) == items@.subrange(0, i as int).map_values(|s: &str| s@),
        decreases items.len() - i,
    {
        let s = to_owned(items[i]);
        proof {
            crate::models::lemma_str_seq_push(r@, s);
            assert(items@.subrange(0, i + 1).map_values(|s: &str| s@)
                =~= items@.subrange(0, i as int).map_values(|s: &str| s@).push(items@[i as int]@));
        }
        r.push(s);
        i = i + 1;
    }
    assert(items@.subrange(0, items@.len() as int) =~= items@);
    r
}

/// The cargo commands that the assistant may not run.
pub open spec fn denied_cargo_commands() -> Seq<Seq<char>> {
    seq!["login"@, "logout"@, "publish"@, "owner"@, "yank"@, "install"@]
}

/// The cargo commands that the assistant may not run.
pub fn get_denied_cargo_commands() -> (r: Vec<String>)
    ensures
        str_seq(r@) == denied_cargo_commands(),
{
    let items = ["login", "logout", "publish", "owner", "yank", "install"];
    let r = owned_list(&items);
    assert(items@.map_values(|s: &str| s@) =~= denied_cargo_commands());
    r
}

/// The answer given in place of running a refused cargo command.
pub open spec fn cargo_denial_text(name: Seq<char>) -> Seq<char> {
    "Error: The cargo command '"@ + name + "' is not allowed for security reasons."@
}

/// The answer to a cargo command that may not run, or `None` where it may.
pub fn cargo_command_denial(command_name: &str) -> (r: Option<String>)
    ensures
        match r {
            Some(m) => denied_cargo_commands().contains(command_name@) && m@ == cargo_denial_text(command_name@),
            None => !denied_cargo_commands().contains(command_name@),
        },
{
    let denied = get_denied_cargo_commands();
    if is_listed(denied.as_slice(), command_name) {
        let mut m = to_owned("Error: The cargo command '");
        push_str(&mut m, command_name);
        push_str(&mut m, "' is not allowed for security reasons.");
        Some(m)
    } else {
        None
    }
}

/// The git commands that the assistant may not run at all.
pub open spec fn denied_git_commands() -> Seq<Seq<char>> {
    seq!["push"@, "reset"@, "rebase"@, "checkout"@, "merge"@, "clone"@, "remote"@, "fetch"@, "pull"@]
}

/// Whether a git command is refused: one of the denied commands, or a
/// branch deletion forced with `-D`.
pub open spec fn git_denied(name: Seq<char>, args: Seq<Seq<char>>) -> bool {
    denied_git_commands().contains(name) || (name == "branch"@ && args.contains("-D"@))
}

/// Whether a git command is refused.
pub fn is_git_command_denied(command_name: &str, args: &[String]) -> (r: bool)
    ensures
        r == git_denied(command_name@, str_seq(args@)),
{
    let items = ["push", "reset", "rebase", "checkout", "merge", "clone", "remote", "fetch", "pull"];
    let denied = owned_list(&items);
    assert(items@.map_values(|s: &str| s@) =~= denied_git_commands());
    if is_listed(denied.as_slice(), command_name) {
        return true;
    }
    if str_eq(command_name, "branch") && is_listed(args, "-D") {
        return true;
    }
    false
}

/// The answer given in place of running a refused git command.
pub open spec fn git_denial_text(name: Seq<char>, args: Seq<Seq<char>>) -> Seq<char> {
    "Error: The git command 'git "@ + name + " "@ + joined(args, " "@)
        + "' is not allowed for security or stability reasons."@
}

/// The answer given in place of running a refused git command.
pub fn git_denial_message(command_name: &str, args: &[String]) -> (r: String)
    ensures
        r@ == git_denial_text(command_name@, str_seq(args@)),
{
    let mut m = to_owned("Error: The git command 'git ");
    push_str(&mut m, command_name);
    push_str(&mut m, " ");
    let a = join_with(args, " ");
    push_str(&mut m, a.as_str());
    push_str(&mut m, "' is not allowed for security or stability reasons.");
    m
}

/// A captured stream as the reports show it: the text, or a marker where
/// nothing was written.
pub open spec fn shown_output(s: Seq<char>) -> Seq<char> {
    if s.len() == 0 { "<no output>"@ } else { s }
}

fn push_shown(r: &mut String, s: &str)
    ensures
        final(r)@ == old(r)@ + shown_output(s@),
{
    if s.is_empty() {
        push_str(r, "<no output>");
    } else {
        push_str(r, s);
    }
}

/// The report of a git command that ran.
pub open spec fn git_report_text(name: Seq<char>, args: Seq<Seq<char>>, status: int,
    stdout: Seq<char>, stderr: Seq<char>) -> Seq<char>
{
    "Command executed: git "@ + name + " "@ + joined(args, " "@)
        + "\nStatus: "@ + signed_decimal(status)
        + "\nStdout:\n"@ + shown_output(stdout)
        + "\nStderr:\n"@ + shown_output(stderr)
}

/// The report of a git command that ran, from its exit status and output.
pub fn git_command_report(command_name: &str, args: &[String], status: i32, stdout: &str, stderr: &str) -> (r: String)
    ensures
        r@ == git_report_text(command_name@, str_seq(args@), status as int, stdout@, stderr@),
{
    let mut m = to_owned("Command executed: git ");
    push_str(&mut m, command_name);
    push_str(&mut m, " ");
    let a = join_with(args, " ");
    push_str(&mut m, a.as_str());
    push_str(&mut m, "\nStatus: ");
    let st = i64_to_decimal(status as i64);
    push_str(&mut m, st.as_str());
    push_str(&mut m, "\nStdout:\n");
    push_shown(&mut m, stdout);
    push_str(&mut m, "\nStderr:\n");
    push_shown(&mut m, stderr);
    m
}

/// The exit status a finished command is reported with: its code, or, where
/// a signal ended it, 0 for success and 1 otherwise.
pub open spec fn exit_status(code: Option<i32>, success: bool) -> i32 {
    match code {
        Some(c) => c,
        None => if success { 0 } else { 1 },
    }
}

/// The exit status a finished command is reported with.
pub fn exit_status_of(code: Option<i32>, success: bool) -> (r: i32)
    ensures
        r == exit_status(code, success),
{
    match code {
        Some(c) => c,
        None => if success { 0 } else { 1 },
    }
}

/// The report of a shell command that ran.
pub open spec fn shell_report_text(status: int, stdout: Seq<char>, stderr: Seq<char>) -> Seq<char> {
    "Command executed with status: "@ + signed_decimal(status)
        + "\nStdout:\n"@ + shown_output(stdout)
        + "\nStderr:\n"@ + shown_output(stderr)
}

/// The report of a shell command that ran, from its exit status and output.
pub fn shell_command_report(status: i32, stdout: &str, stderr: &str) -> (r: String)
    ensures
        r@ == shell_report_text(status as int, stdout@, stderr@),
{
    let mut m = to_owned("Command executed with status: ");
    let st = i64_to_decimal(status as i64);
    push_str(&mut m, st.as_str());
    push_str(&mut m, "\nStdout:\n");
    push_shown(&mut m, stdout);
    push_str(&mut m, "\nStderr:\n");
    push_shown(&mut m, stderr);
    m
}

/// Whether a typed answer grants a request: `y`, in either case, with any
/// white space around it.
pub open spec fn grants(answer: Seq<char>) -> bool {
    lowercased(trimmed(answer)) == "y"@
}

/// Whether a typed answer grants a request.
pub fn is_confirmed(answer: &str) -> (r: bool)
    ensures
        r == grants(answer@),
{
    let t = trim(answer);
    let l = to_lowercase(t);
    str_eq(l.as_str(), "y")
}

/// The answer given when the user refuses a shell command.
pub fn shell_denied_message(command: &str) -> (r: String)
    ensures
        r@ == "Shell command execution denied by user: "@ + command@,
{
    let mut m = to_owned("Shell command execution denied by user: ");
    push_str(&mut m, command);
    m
}

/// A string with each single quote written as `'\''`, the form that lets it
/// stand inside single quotes in a POSIX shell.
pub open spec fn quote_escaped(s: Seq<char>) -> Seq<char>
    decreases s.len(),
{
    if s.len() == 0 {
        Seq::empty()
    } else {
        quote_escaped(s.drop_last()) + (if s.last() == '\'' { "'\\''"@ } else { seq![s.last()] })
    }
}

/// A string as one single-quoted shell word.
pub open spec fn shell_quoted(s: Seq<char>) -> Seq<char> {
    "'"@ + quote_escaped(s) + "'"@
}

/// A string as one single-quoted shell word.
pub fn shell_quote(s: &str) -> (r: String)
    ensures
        r@ == shell_quoted(s@),
{
    let cs = chars_of(s);
    let mut r = to_owned("'");
    let ghost start = r@;
    let mut i: usize = 0;
    while i < cs.len()
        invariant
            cs@ == s@,
            i <= cs.len(),
            r@ == start + quote_escaped(s@.subrange(0, i as int)),
        decreases cs.len() - i,
    {
        let c = cs[i];
        if c == '\'' {
            push_str(&mut r, "'\\''");
        } else {
            push_char(&mut r, c);
        }
        proof {
            let sub = s@.subrange(0, i + 1);
            assert(sub.drop_last() =~= s@.subrange(0, i as int));
            assert(r@ =~= start + quote_escaped(sub));
        }
        i = i + 1;
    }
    assert(s@.subrange(0, s@.len() as int) =~= s@);
    push_str(&mut r, "'");
    r
}

/// Words as a shell command line: each single-quoted, separated by spaces.
pub open spec fn quoted_line(words: Seq<Seq<char>>) -> Seq<char> {
    joined(words.map_values(|w: Seq<char>| shell_quoted(w)), " "@)
}

/// Words as a shell command line: each single-quoted, separated by spaces.
pub fn quote_line(words: &[String]) -> (r: String)
    ensures
        r@ == quoted_line(str_seq(words@)),
{
    proof { lemma_str_seq(words@); }
    let mut q: Vec<String> = Vec::new();
    let mut i: usize = 0;
    while i < words.len()
        invariant
            i <= words.len(),
            str_seq(words@).len() == words@.len(),
            forall|j: int| 0 <= j < words@.len() ==> #[trigger] str_seq(words@)[j] == words@[j]@,
            str_seq(q@) == str_seq(words@).subrange(0, i as int).map_values(|w: Seq<char>| shell_quoted(w)),
        decreases words.len() - i,
    {
        let w = shell_quote(words[i].as_str());
        proof {
            crate::models::lemma_str_seq_push(q@, w);
            assert(str_seq(words@).subrange(0, i + 1).map_values(|w: Seq<char>| shell_quoted(w))
                =~= str_seq(words@).subrange(0, i as int).map_values(|w: Seq<char>| shell_quoted(w)).push(w@));
        }
        q.push(w);
        i = i + 1;
    }
    assert(str_seq(words@).subrange(0, words@.len() as int) =~= str_seq(words@));
    join_with(q.as_slice(), " ")
}

/// The value of an optional string, or a default.
pub open spec fn or_default(o: Option<Seq<char>>, d: Seq<char>) -> Seq<char> {
    match o {
        Some(s) => s,
        None => d,
    }
}

/// The view of an optional string slice.
pub open spec fn opt_view(o: Option<&str>) -> Option<Seq<char>> {
    match o {
        Some(s) => Some(s@),
        None => None,
    }
}

fn str_or<'a>(o: Option<&'a str>, d: &'a str) -> (r: &'a str)
    ensures
        r@ == or_default(opt_view(o), d@),
{
    match o {
        Some(s) => s,
        None => d,
    }
}

/// The words of a text search with ripgrep.
pub open spec fn search_words(pattern: Seq<char>, path: Seq<char>, glob: Seq<char>, ignore_case: bool,
    context: nat) -> Seq<Seq<char>>
{
    let base = seq!["rg"@, "--pretty"@, "--trim"@, "--context"@, decimal(context), "--glob"@, glob];
    let flagged = if ignore_case { base.push("--ignore-case"@) } else { base };
    flagged.push(pattern).push(path)
}

/// The shell command line of a text search: ripgrep with one line of context
/// by default, in `.` and over `*` unless told otherwise, case-insensitive
/// unless asked to match case, its output cut at 50 lines by default.
pub open spec fn search_command_text(pattern: Seq<char>, search_path: Option<Seq<char>>,
    file_glob: Option<Seq<char>>, case_sensitive: Option<bool>, context_lines: Option<u32>,
    max_results: Option<usize>) -> Seq<char>
{
    let path = or_default(search_path, "."@);
    let glob = or_default(file_glob, "*"@);
    let ignore_case = !(match case_sensitive { Some(b) => b, None => false });
    let context: nat = match context_lines { Some(c) => c as nat, None => 1 };
    let max: nat = match max_results { Some(m) => m as nat, None => 50 };
    quoted_line(search_words(pattern, path, glob, ignore_case, context)) + " | head -n "@ + decimal(max)
}

/// The shell command line of a text search.
pub fn search_command(pattern: &str, search_path: Option<&str>, file_glob: Option<&str>,
    case_sensitive: Option<bool>, context_lines: Option<u32>, max_results: Option<usize>) -> (r: String)
    ensures
        r@ == search_command_text(pattern@, opt_view(search_path), opt_view(file_glob), case_sensitive,
            context_lines, max_results),
{
    let path = str_or(search_path, ".");
    let glob = str_or(file_glob, "*");
    let ignore_case = match case_sensitive { Some(b) => !b, None => true };
    let context: u32 = match context_lines { Some(c) => c, None => 1 };
    let max: usize = match max_results { Some(m) => m, None => 50 };
    let mut words: Vec<String> = Vec::new();
    words.push(to_owned("rg"));
    words.push(to_owned("--pretty"));
    words.push(to_owned("--trim"));
    words.push(to_owned("--context"));
    words.push(u64_to_decimal(context as u64));
    words.push(to_owned("--glob"));
    words.push(to_owned(glob));
    if ignore_case {
        words.push(to_owned("--ignore-case"));
    }
    words.push(to_owned(pattern));
    words.push(to_owned(path));
    proof {
        reveal_with_fuel(str_seq, 11);
        assert(str_seq(words@) =~= search_words(pattern@, path@, glob@, ignore_case, context as nat));
    }
    let mut r = quote_line(words.as_slice());
    push_str(&mut r, " | head -n ");
    let m = u64_to_decimal(max as u64);
    push_str(&mut r, m.as_str());
    r
}

/// Whether a command report shows that nothing was found: it is empty, or it
/// reports a command whose standard output was empty.
pub open spec fn reports_nothing(result: Seq<char>) -> bool {
    result.len() == 0 || (has_prefix(result, "Command executed"@) && has_substring(result, "Stdout:\n<no output>"@))
}

fn is_nothing_report(result: &str) -> (r: bool)
    ensures
        r == reports_nothing(result@),
{
    result.is_empty() || (starts_with(result, "Command executed") && contains(result, "Stdout:\n<no output>"))
}

/// What a text search answers, from the report of the command it ran.
pub open spec fn search_outcome_text(pattern: Seq<char>, search_path: Option<Seq<char>>,
    file_glob: Option<Seq<char>>, result: Seq<char>) -> Seq<char>
{
    if reports_nothing(result) {
        "No matches found for pattern: '"@ + pattern + "' in path: '"@ + or_default(search_path, "."@)
            + "' matching glob: '"@ + or_default(file_glob, "*"@) + "'"@
    } else {
        "Search results (details included below):\n"@ + result
    }
}

/// What a text search answers, from the report of the command it ran.
pub fn search_outcome(pattern: &str, search_path: Option<&str>, file_glob: Option<&str>, result: &str) -> (r: String)
    ensures
        r@ == search_outcome_text(pattern@, opt_view(search_path), opt_view(file_glob), result@),
{
    if is_nothing_report(result) {
        let mut m = to_owned("No matches found for pattern: '");
        push_str(&mut m, pattern);
        push_str(&mut m, "' in path: '");
        push_str(&mut m, str_or(search_path, "."));
        push_str(&mut m, "' matching glob: '");
        push_str(&mut m, str_or(file_glob, "*"));
        push_str(&mut m, "'");
        m
    } else {
        let mut m = to_owned("Search results (details included below):\n");
        push_str(&mut m, result);
        m
    }
}

/// Whether a character has a meaning of its own in a regular expression: the
/// characters that `regex_syntax::is_meta_character` lists.
pub open spec fn is_regex_meta(c: char) -> bool {
    c == '\\' || c == '.' || c == '+' || c == '*' || c == '?' || c == '(' || c == ')' || c == '|'
        || c == '[' || c == ']' || c == '{' || c == '}' || c == '^' || c == '$' || c == '#'
        || c == '&' || c == '-' || c == '~'
}

/// A string with a backslash before each regular-expression meta character,
/// so that a regular expression matches it literally.
pub open spec fn regex_escaped(s: Seq<char>) -> Seq<char>
    decreases s.len(),
{
    if s.len() == 0 {
        Seq::empty()
    } else {
        regex_escaped(s.drop_last()) + (if is_regex_meta(s.last()) { seq!['\\', s.last()] } else { seq![s.last()] })
    }
}

/// `regex::escape`: it copies the string character by character and puts a
/// backslash before each meta character (`regex_syntax::escape_into`).
#[verifier::external_body]
fn regex_escape(s: &str) -> (r: String)
    ensures
        r@ == regex_escaped(s@),
{
    regex::escape(s)
}

/// The ripgrep pattern that finds the line where a Rust item named `symbol`
/// is defined.
pub open spec fn definition_pattern(symbol: Seq<char>) -> Seq<char> {
    "^(?:pub\\s+)?(?:unsafe\\s+)?(?:async\\s+)?(fn|struct|enum|trait|const|static|type|mod|impl|macro_rules!)\\s+"@
        + regex_escaped(symbol) + "\\\\b"@
}

/// The words of a search for a Rust definition.
pub open spec fn definition_words(symbol: Seq<char>, dir: Seq<char>) -> Seq<Seq<char>> {
    seq!["rg"@, "--pretty"@, "--trim"@, "--glob"@, "*.rs"@, "--ignore-case"@, "--max-count=10"@, "-e"@,
        definition_pattern(symbol), dir]
}

/// The shell command line that searches for a Rust definition, in `.` unless
/// told otherwise.
pub fn definition_command(symbol: &str, search_path: Option<&str>) -> (r: String)
    ensures
        r@ == quoted_line(definition_words(symbol@, or_default(opt_view(search_path), "."@))),
{
    let dir = str_or(search_path, ".");
    let mut pattern = to_owned("^(?:pub\\s+)?(?:unsafe\\s+)?(?:async\\s+)?(fn|struct|enum|trait|const|static|type|mod|impl|macro_rules!)\\s+");
    let escaped = regex_escape(symbol);
    push_str(&mut pattern, escaped.as_str());
    push_str(&mut pattern, "\\\\b");
    let mut words: Vec<String> = Vec::new();
    words.push(to_owned("rg"));
    words.push(to_owned("--pretty"));
    words.push(to_owned("--trim"));
    words.push(to_owned("--glob"));
    words.push(to_owned("*.rs"));
    words.push(to_owned("--ignore-case"));
    words.push(to_owned("--max-count=10"));
    words.push(to_owned("-e"));
    words.push(pattern);
    words.push(to_owned(dir));
    proof {
        reveal_with_fuel(str_seq, 11);
        assert(str_seq(words@) =~= definition_words(symbol@, dir@));
    }
    quote_line(words.as_slice())
}

/// What a definition search answers, from the report of the command it ran.
pub open spec fn definition_outcome_text(symbol: Seq<char>, result: Seq<char>) -> Seq<char> {
    if reports_nothing(result) {
        "No Rust definition found for symbol: "@ + symbol
    } else {
        "Potential definition(s) found (details included below):\n"@ + result
    }
}

/// What a definition search answers, from the report of the command it ran.
pub fn definition_outcome(symbol: &str, result: &str) -> (r: String)
    ensures
        r@ == definition_outcome_text(symbol@, result@),
{
    if is_nothing_report(result) {
        let mut m = to_owned("No Rust definition found for symbol: ");
        push_str(&mut m, symbol);
        m
    } else {
        let mut m = to_owned("Potential definition(s) found (details included below):\n");
        push_str(&mut m, result);
        m
    }
}

/// The numbered lines in which the choices of a question are shown, counting
/// from one.
pub open spec fn option_line(index: nat, option: Seq<char>) -> Seq<char> {
    "  "@ + decimal(index + 1) + ". "@ + option
}

/// The numbered lines in which the choices of a question are shown.
pub fn option_lines(options: &[String]) -> (r: Vec<String>)
    ensures
        r@.len() == options@.len(),
        forall|i: int| 0 <= i < options@.len() ==> #[trigger] r@[i]@ == option_line(i as nat, options@[i]@),
{
    let mut r: Vec<String> = Vec::new();
    let mut i: usize = 0;
    while i < options.len()
        invariant
            i <= options.len(),
            r@.len() == i,
            forall|j: int| 0 <= j < i ==> #[trigger] r@[j]@ == option_line(j as nat, options@[j]@),
        decreases options.len() - i,
    {
        let mut line = to_owned("  ");
        let n = u64_to_decimal(i as u64 + 1);
        push_str(&mut line, n.as_str());
        push_str(&mut line, ". ");
        push_str(&mut line, options[i].as_str());
        r.push(line);
        i = i + 1;
    }
    r
}

/// The answer after a file was written.
pub fn file_written_message(relative_path: &str) -> (r: String)
    ensures
        r@ == "Successfully wrote to file: "@ + relative_path@,
{
    let mut m = to_owned("Successfully wrote to file: ");
    push_str(&mut m, relative_path);
    m
}

/// The answer when the user refuses a write outside the working directory.
pub fn file_write_denied_message(relative_path: &str) -> (r: String)
    ensures
        r@ == "File write denied by user: "@ + relative_path@,
{
    let mut m = to_owned("File write denied by user: ");
    push_str(&mut m, relative_path);
    m
}

/// What a file write does next.
pub enum WriteDecision {
    /// Write the file.
    Write,
    /// Ask the user first: the target lies outside the working directory.
    AskUser,
    /// Refused by the user, with the answer to give.
    Denied(String),
}

/// What a file write does next, from whether its target lies inside the
/// working directory and, where it does not, the user's answer once asked:
/// inside, it writes; outside, it asks, then writes only on a `y`.
pub fn write_decision(relative_path: &str, within: bool, answer: Option<&str>) -> (r: WriteDecision)
    ensures
        within ==> r is Write,
        !within && answer is None ==> r is AskUser,
        !within && answer is Some && grants(answer->0@) ==> r is Write,
        !within && answer is Some && !grants(answer->0@) ==>
            (r matches WriteDecision::Denied(m) && m@ == "File write denied by user: "@ + relative_path@),
{
    if within {
        return WriteDecision::Write;
    }
    match answer {
        None => WriteDecision::AskUser,
        Some(a) => if is_confirmed(a) {
            WriteDecision::Write
        } else {
            WriteDecision::Denied(file_write_denied_message(relative_path))
        },
    }
}

/// Which git commands are refused: `push`, `reset`, `rebase`, `checkout`,
/// `merge`, `clone`, `remote`, `fetch` and `pull`, whatever their arguments,
/// and `branch` with a `-D` argument; every other command runs. Only
/// `branch` depends on its arguments.
pub proof fn law_git_denials(name: Seq<char>, args: Seq<Seq<char>>, other_args: Seq<Seq<char>>)
    ensures
        git_denied(name, args) <==> (name == "push"@ || name == "reset"@ || name == "rebase"@
            || name == "checkout"@ || name == "merge"@ || name == "clone"@ || name == "remote"@
            || name == "fetch"@ || name == "pull"@ || (name == "branch"@ && args.contains("-D"@))),
        name != "branch"@ ==> git_denied(name, args) == git_denied(name, other_args),
{
    let d = denied_git_commands();
    assert(d[0] == "push"@ && d[1] == "reset"@ && d[2] == "rebase"@ && d[3] == "checkout"@ && d[4] == "merge"@);
    assert(d[5] == "clone"@ && d[6] == "remote"@ && d[7] == "fetch"@ && d[8] == "pull"@);
    if d.contains(name) {
        let k = choose|k: int| 0 <= k < d.len() && d[k] == name;
        assert(k == 0 || k == 1 || k == 2 || k == 3 || k == 4 || k == 5 || k == 6 || k == 7 || k == 8);
    }
    if name == "push"@ { assert(d[0] == name); }
    if name == "reset"@ { assert(d[1] == name); }
    if name == "rebase"@ { assert(d[2] == name); }
    if name == "checkout"@ { assert(d[3] == name); }
    if name == "merge"@ { assert(d[4] == name); }
    if name == "clone"@ { assert(d[5] == name); }
    if name == "remote"@ { assert(d[6] == name); }
    if name == "fetch"@ { assert(d[7] == name); }
    if name == "pull"@ { assert(d[8] == name); }
}

} // verus!
