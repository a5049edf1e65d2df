//! The decisions of the command-line session: what a typed line asks for,
//! how loud the log is, which strategy runs, how the git server learns the
//! commands it may run, how messages are previewed, and which failures have
//! already been reported to the user.

use vstd::prelude::*;
use crate::models::{ChatMessage, ChatMessageV, msgs_view, str_seq, lemma_str_seq};
use crate::text::{to_owned, push_str, to_lowercase, lowercased, trim, trimmed, str_eq, chars_of, contains,
    has_substring};
use crate::cli_tools::{joined, join_with, is_listed};

verus! {

/// What a line typed in the interactive session asks for.
#[derive(Debug)]
pub enum InputAction {
    /// Leave the session.
    Exit,
    /// Save the conversation and start a new one.
    NewConversation,
    /// Send the trimmed line to the agent.
    Prompt(String),
}

/// What a typed line asks for: an empty line, `exit` or `quit` ends the
/// session, `new` starts a new conversation (in any case, around white
/// space); anything else is a prompt.
pub open spec fn input_action(line: Seq<char>) -> (u8, Seq<char>) {
    let t = trimmed(line);
    if t.len() == 0 || lowercased(t) == "exit"@ || lowercased(t) == "quit"@ {
        (0, t)
    } else if lowercased(t) == "new"@ {
        (1, t)
    } else {
        (2, t)
    }
}

/// What a typed line asks for.
pub fn classify_input(line: &str) -> (r: InputAction)
    ensures
        match r {
            InputAction::Exit => input_action(line@).0 == 0,
            InputAction::NewConversation => input_action(line@).0 == 1,
            InputAction::Prompt(p) => input_action(line@).0 == 2 && p@ == input_action(line@).1,
        },
{
    let t = trim(line);
    let lower = to_lowercase(t);
    if t.is_empty() || str_eq(lower.as_str(), "exit") || str_eq(lower.as_str(), "quit") {
        InputAction::Exit
    } else if str_eq(lower.as_str(), "new") {
        InputAction::NewConversation
    } else {
        InputAction::Prompt(to_owned(t))
    }
}

/// How much the log shows.
#[derive(Debug, Clone, Copy, PartialEq, Eq, Structural)]
pub enum LogLevel {
    Warn,
    Info,
    Debug,
    Trace,
}

/// The log level for the number of `-v` flags given: warnings by default,
/// then information, debugging and tracing.
pub fn log_level(verbose: u8) -> (r: LogLevel)
    ensures
        r == (if verbose == 0 { LogLevel::Warn } else if verbose == 1 { LogLevel::Info }
            else if verbose == 2 { LogLevel::Debug } else { LogLevel::Trace }),
{
    if verbose == 0 {
        LogLevel::Warn
    } else if verbose == 1 {
        LogLevel::Info
    } else if verbose == 2 {
        LogLevel::Debug
    } else {
        LogLevel::Trace
    }
}

/// The strategies the agent can run a task with.
#[derive(Debug, Clone, Copy, PartialEq, Eq, Structural)]
pub enum StrategyKind {
    CompleteTask,
    PlanExecute,
}

/// What the configuration says of the plan-and-execute strategy: whether it
/// names a planning and an execution provider.
#[derive(Debug, Clone, Copy, PartialEq, Eq, Structural)]
pub struct PlanExecuteSettings {
    pub has_planning_provider: bool,
    pub has_execution_provider: bool,
}

/// The strategy run for a strategy name: plan-and-execute only where it is
/// asked for and configured with both providers; otherwise complete-task.
pub open spec fn strategy_for(name: Seq<char>, settings: Option<PlanExecuteSettings>) -> StrategyKind {
    if name == "plan_execute"@ && (settings matches Some(s) && s.has_planning_provider && s.has_execution_provider) {
        StrategyKind::PlanExecute
    } else {
        StrategyKind::CompleteTask
    }
}

/// The strategy run for a strategy name.
pub fn choose_strategy(name: &str, settings: Option<PlanExecuteSettings>) -> (r: StrategyKind)
    ensures
        r == strategy_for(name@, settings),
{
    if str_eq(name, "plan_execute") {
        match settings {
            Some(s) => if s.has_planning_provider && s.has_execution_provider {
                return StrategyKind::PlanExecute;
            },
            None => {},
        }
    }
    StrategyKind::CompleteTask
}

/// The strategy a session runs: the session asks for complete-task.
pub fn select_base_strategy(settings: Option<PlanExecuteSettings>) -> (r: StrategyKind)
    ensures
        r == strategy_for("complete_task"@, settings),
        r == StrategyKind::CompleteTask,
{
    proof {
        reveal_strlit("complete_task");
        reveal_strlit("plan_execute");
        assert("complete_task"@.len() != "plan_execute"@.len());
    }
    choose_strategy("complete_task", settings)
}

/// The git server's arguments once told which commands it may run: where
/// commands are listed and the arguments do not already carry the flag, the
/// flag and the commands joined by commas are added.
pub open spec fn with_allowed_commands(args: Seq<Seq<char>>, allowed: Seq<Seq<char>>) -> Seq<Seq<char>> {
    if allowed.len() > 0 && !args.contains("--allowed-commands"@) {
        args.push("--allowed-commands"@).push(joined(allowed, ","@))
    } else {
        args
    }
}

/// Tells the git server's arguments which commands it may run.
pub fn add_allowed_commands(args: &mut Vec<String>, allowed: &[String])
    ensures
        str_seq(final(args)@) == with_allowed_commands(str_seq(old(args)@), str_seq(allowed@)),
{
    proof { lemma_str_seq(allowed@); }
    if allowed.len() > 0 && !is_listed(args.as_slice(), "--allowed-commands") {
        let flag = to_owned("--allowed-commands");
        let list = join_with(allowed, ",");
        proof {
            crate::models::lemma_str_seq_push(args@, flag);
            crate::models::lemma_str_seq_push(args@.push(flag), list);
        }
        args.push(flag);
        args.push(list);
    }
}

/// Telling the git server its allowed commands a second time changes
/// nothing: the flag is added at most once.
pub proof fn law_allowed_commands_once(args: Seq<Seq<char>>, allowed: Seq<Seq<char>>)
    ensures
        with_allowed_commands(with_allowed_commands(args, allowed), allowed) == with_allowed_commands(args, allowed),
{
    let once = with_allowed_commands(args, allowed);
    if allowed.len() > 0 && !args.contains("--allowed-commands"@) {
        assert(once[args.len() as int] == "--allowed-commands"@);
        assert(once.contains("--allowed-commands"@));
    }
}

/// The number of lines of a text, as `str::lines` counts them: a final line
/// ending does not start another line.
pub open spec fn line_count(s: Seq<char>) -> nat {
    if s.len() == 0 {
        0
    } else {
        (s.filter(|c: char| c == '\n').len() + (if s.last() == '\n' { 0nat } else { 1nat })) as nat
    }
}

/// The index of the first line ending, if any.
pub open spec fn first_newline(s: Seq<char>, i: int) -> Option<int>
    decreases s.len() - i,
{
    if i < 0 || i >= s.len() {
        None
    } else if s[i] == '\n' {
        Some(i)
    } else {
        first_newline(s, i + 1)
    }
}

/// The first line of a text, as `str::lines` gives it: up to the first line
/// ending, without a carriage return before it; empty for an empty text.
pub open spec fn first_line(s: Seq<char>) -> Seq<char> {
    match first_newline(s, 0) {
        Some(k) => if k > 0 && s[k - 1] == '\r' { s.subrange(0, k - 1) } else { s.subrange(0, k) },
        None => s,
    }
}

/// Whether a message is shortened in the conversation view: it has more
/// than one line or more than 100 characters.
pub open spec fn is_shortened(content: Seq<char>) -> bool {
    line_count(content) > 1 || content.len() > 100
}

/// How a message shows in the conversation view without `--full`: its
/// first line cut to 100 characters and trimmed, with `...` where the
/// message is shortened.
pub open spec fn message_preview_text(content: Seq<char>) -> Seq<char> {
    let line = first_line(content);
    let cut = if line.len() > 100 { line.subrange(0, 100) } else { line };
    if is_shortened(content) { trimmed(cut) + "..."@ } else { trimmed(cut) }
}

fn count_newlines(cs: &Vec<char>) -> (r: usize)
    ensures
        r == cs@.filter(|c: char| c == '\n').len(),
{
    let mut n: usize = 0;
    let mut i: usize = 0;
    while i < cs.len()
        invariant
            i <= cs.len(),
            n == cs@.subrange(0, i as int).filter(|c: char| c == '\n').len(),
            n <= i,
        decreases cs.len() - i,
    {
        proof {
            let sub = cs@.subrange(0, i + 1);
            assert(sub.drop_last() =~= cs@.subrange(0, i as int));
            cs@.subrange(0, i as int).lemma_filter_push(cs@[i as int], |c: char| c == '\n');
            assert(sub =~= cs@.subrange(0, i as int).push(cs@[i as int]));
        }
        if cs[i] == '\n' {
            n = n + 1;
        }
        i = i + 1;
    }
    assert(cs@.subrange(0, cs.len() as int) =~= cs@);
    n
}

/// Whether a message is shortened in the conversation view.
pub fn message_is_shortened(content: &str) -> (r: bool)
    ensures
        r == is_shortened(content@),
{
    let cs = chars_of(content);
    if cs.len() > 100 {
        return true;
    }
    if cs.len() == 0 {
        return false;
    }
    let newlines = count_newlines(&cs);
    let lines = if cs[cs.len() - 1] == '\n' { newlines } else { newlines + 1 };
    lines > 1
}

/// How a message shows in the conversation view without `--full`.
pub fn message_preview(content: &str) -> (r: String)
    ensures
        r@ == message_preview_text(content@),
{
    let cs = chars_of(content);
    let mut k: usize = 0;
    while k < cs.len() && cs[k] != '\n'
        invariant
            cs@ == content@,
            k <= cs.len(),
            first_newline(content@, 0) == first_newline(content@, k as int),
        decreases cs.len() - k,
    {
        k = k + 1;
    }
    let end = if k < cs.len() && k > 0 && cs[k - 1] == '\r' { k - 1 } else { k };
    let stop = if end > 100 { 100 } else { end };
    let mut cut = String::new();
    let mut j: usize = 0;
    while j < stop
        invariant
            cs@ == content@,
            stop <= cs.len(),
            j <= stop,
            cut@ == content@.subrange(0, j as int),
        decreases stop - j,
    {
        crate::text::push_char(&mut cut, cs[j]);
        assert(content@.subrange(0, j + 1) =~= content@.subrange(0, j as int).push(content@[j as int]));
        j = j + 1;
    }
    proof {
        let line = first_line(content@);
        assert(line =~= content@.subrange(0, end as int));
        if line.len() > 100 {
            assert(line.subrange(0, 100) =~= content@.subrange(0, 100));
        }
    }
    let t = trim(cut.as_str());
    let mut r = to_owned(t);
    if message_is_shortened(content) {
        push_str(&mut r, "...");
    }
    r
}

/// Whether any message of a conversation is shortened in the view.
pub open spec fn any_shortened(ms: Seq<ChatMessageV>) -> bool {
    exists|i: int| 0 <= i < ms.len() && is_shortened(#[trigger] crate::providers::content_text(ms[i]))
}

/// Whether any message of a conversation is shortened in the view.
pub fn conversation_is_shortened(messages: &Vec<ChatMessage>) -> (r: bool)
    ensures
        r == any_shortened(msgs_view(messages@)),
{
    let ghost mv = msgs_view(messages@);
    let mut i: usize = 0;
    while i < messages.len()
        invariant
            i <= messages.len(),
            mv == msgs_view(messages@),
            mv.len() == messages.len(),
            forall|j: int| 0 <= j < i ==> !is_shortened(#[trigger] crate::providers::content_text(mv[j])),
        decreases messages.len() - i,
    {
        assert(mv[i as int] == messages@[i as int]@);
        let hit = match &messages[i].content {
            Some(c) => message_is_shortened(c.as_str()),
            None => message_is_shortened(""),
        };
        proof {
            reveal_strlit("");
            if messages@[i as int].content is None {
                assert(crate::providers::content_text(mv[i as int]) =~= ""@);
            }
        }
        if hit {
            assert(is_shortened(crate::providers::content_text(mv[i as int])));
            return true;
        }
        i = i + 1;
    }
    false
}

/// Whether a failure was already reported to the user when it reaches the
/// end of the program: it says so, or it comes from a confirmation prompt.
pub open spec fn already_reported(error_text: Seq<char>, from_prompt: bool) -> bool {
    has_substring(error_text, "Could not load conversation history"@)
        || has_substring(error_text, "Agent run encountered an error"@)
        || has_substring(error_text, "Failed to load history"@)
        || has_substring(error_text, "Error reading input"@)
        || from_prompt
}

/// Whether a failure was already reported to the user.
pub fn is_already_reported(error_text: &str, from_prompt: bool) -> (r: bool)
    ensures
        r == already_reported(error_text@, from_prompt),
{
    contains(error_text, "Could not load conversation history")
        || contains(error_text, "Agent run encountered an error")
        || contains(error_text, "Failed to load history")
        || contains(error_text, "Error reading input")
        || from_prompt
}

/// What reading a line in the interactive session gave.
#[derive(Debug)]
pub enum ReadOutcome {
    /// A line was typed.
    Line(String),
    /// The user pressed Ctrl-C.
    Interrupted,
    /// The input ended (Ctrl-D).
    Eof,
    /// Reading failed.
    Failed,
}

/// What the interactive session does next.
#[derive(Debug)]
pub enum SessionAction {
    /// Save and leave.
    Quit,
    /// Save the conversation and start a new one.
    StartNew,
    /// Run a turn of the agent on this prompt.
    RunTurn(String),
    /// Read the next line.
    Continue,
}

/// The session's next step after a read: a line is acted on as typed, an
/// interruption reads on, and the end of input or a failure leaves.
pub fn next_action(read: ReadOutcome) -> (r: SessionAction)
    ensures
        match read {
            ReadOutcome::Line(line) => match r {
                SessionAction::Quit => input_action(line@).0 == 0,
                SessionAction::StartNew => input_action(line@).0 == 1,
                SessionAction::RunTurn(p) => input_action(line@).0 == 2 && p@ == input_action(line@).1,
                SessionAction::Continue => false,
            },
            ReadOutcome::Interrupted => r is Continue,
            ReadOutcome::Eof => r is Quit,
            ReadOutcome::Failed => r is Quit,
        },
{
    match read {
        ReadOutcome::Line(line) => match classify_input(line.as_str()) {
            InputAction::Exit => SessionAction::Quit,
            InputAction::NewConversation => SessionAction::StartNew,
            InputAction::Prompt(p) => SessionAction::RunTurn(p),
        },
        ReadOutcome::Interrupted => SessionAction::Continue,
        ReadOutcome::Eof => SessionAction::Quit,
        ReadOutcome::Failed => SessionAction::Quit,
    }
}

/// Records a finished turn in its conversation: a turn that completed gives
/// the conversation its messages; either way the conversation was updated
/// now, and keeps its identity and creation time.
pub fn record_turn(history: &mut crate::history::ConversationHistory, messages: Option<Vec<ChatMessage>>,
    now: crate::history::Timestamp)
    ensures
        final(history).id == old(history).id,
        final(history).created_at == old(history).created_at,
        final(history).last_updated_at == now,
        final(history).messages@ == match messages { Some(m) => m@, None => old(history).messages@ },
{
    match messages {
        Some(m) => {
            history.messages = m;
        },
        None => {},
    }
    history.last_updated_at = now;
}

} // verus!

