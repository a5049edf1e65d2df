//! The agent's turn: the conversation state, the steps of the complete-task
//! strategy (ask the model, run the tools it asks for, give back their
//! results, finish with its answer), the routing of tools to their servers
//! and the rendering of tool results.

use vstd::prelude::*;
use crate::json::{Json, JsonV, jv_entries, jv_seq, get, get_str};
use crate::json_text::{json_text, to_json_text};
use crate::models::{ChatMessage, ChatMessageV, ToolCall, ToolCallV, ApiResponse, msgs_view, calls_view,
    opt_str, ToolDefinition, ToolParametersDefinition};
use crate::schema::{mcp_schema_to_tool_params, params_match, schema_properties, schema_required};
use crate::providers::{ProviderEntry, ConfiguredProvider, build_registry, all_supported, provider_built,
    supported_provider_type};
use crate::text::{str_eq, to_owned, push_str, concat, chars_of, from_chars, push_char};

verus! {

/// Whether a tool ran.
#[derive(Debug, Clone, Copy, PartialEq, Eq, Structural)]
pub enum ToolExecutionStatus {
    Success,
    Failure,
}

/// The outcome of one tool call.
#[derive(Debug)]
pub struct ToolResult {
    pub tool_call_id: String,
    pub output: String,
    pub status: ToolExecutionStatus,
}

/// What went wrong in an agent run.
#[derive(Debug)]
pub enum AgentError {
    Config(String),
    Api(String),
    Mcp(String),
    Strategy(String),
}

/// The conversation so far and the tool calls waiting to run.
#[derive(Debug)]
pub struct AgentState {
    pub messages: Vec<ChatMessage>,
    pub pending_tool_calls: Vec<ToolCall>,
}

/// What the agent does next.
#[derive(Debug)]
pub enum NextStep {
    /// Send the conversation to the model.
    CallApi,
    /// Run the pending tool calls.
    CallTools,
    /// The turn is over; this is the model's final answer.
    Completed(String),
}

pub struct AgentStateV {
    pub messages: Seq<ChatMessageV>,
    pub pending: Seq<ToolCallV>,
}

impl View for AgentState {
    type V = AgentStateV;

    open spec fn view(&self) -> AgentStateV {
        AgentStateV { messages: msgs_view(self.messages@), pending: calls_view(self.pending_tool_calls@) }
    }
}

/// A user message.
pub open spec fn user_message(text: Seq<char>) -> ChatMessageV {
    ChatMessageV { role: "user"@, content: Some(text), tool_calls: None, tool_call_id: None }
}

/// A tool message answering a tool call.
pub open spec fn tool_message(call_id: Seq<char>, output: Seq<char>) -> ChatMessageV {
    ChatMessageV { role: "tool"@, content: Some(output), tool_calls: None, tool_call_id: Some(call_id) }
}

/// The state at the start of a turn: the history, then the user's input.
pub open spec fn turn_start(history: Seq<ChatMessageV>, input: Seq<char>) -> AgentStateV {
    AgentStateV { messages: history.push(user_message(input)), pending: Seq::empty() }
}

/// The tool calls of a message, if it asks for any.
pub open spec fn requested_calls(m: ChatMessageV) -> Seq<ToolCallV> {
    match m.tool_calls {
        Some(cs) => cs,
        None => Seq::empty(),
    }
}

/// The state after the model answered with `reply`: the reply joins the
/// conversation and its tool calls, if any, wait to run.
pub open spec fn after_reply(s: AgentStateV, reply: ChatMessageV) -> AgentStateV {
    AgentStateV { messages: s.messages.push(reply), pending: requested_calls(reply) }
}

/// The step after the model answered with `reply`: run its tool calls, or
/// finish with its text.
pub open spec fn step_after_reply(reply: ChatMessageV) -> StepV {
    if requested_calls(reply).len() > 0 {
        StepV::CallTools
    } else {
        StepV::Completed(match reply.content { Some(c) => c, None => Seq::empty() })
    }
}

pub enum StepV {
    CallApi,
    CallTools,
    Completed(Seq<char>),
}

pub open spec fn step_view(s: NextStep) -> StepV {
    match s {
        NextStep::CallApi => StepV::CallApi,
        NextStep::CallTools => StepV::CallTools,
        NextStep::Completed(t) => StepV::Completed(t@),
    }
}

/// The tool messages for the first `n` results.
pub open spec fn result_messages(rs: Seq<ToolResult>, n: nat) -> Seq<ChatMessageV>
    decreases n,
{
    if n == 0 {
        Seq::empty()
    } else {
        result_messages(rs, (n - 1) as nat).push(tool_message(rs[n - 1].tool_call_id@, rs[n - 1].output@))
    }
}

/// The state after the tools ran: one tool message per result, in order,
/// and nothing pending.
pub open spec fn after_results(s: AgentStateV, rs: Seq<ToolResult>) -> AgentStateV {
    AgentStateV { messages: s.messages + result_messages(rs, rs.len()), pending: Seq::empty() }
}

/// The views of an optional history.
pub open spec fn history_view(h: Option<Vec<ChatMessage>>) -> Seq<ChatMessageV> {
    match h {
        Some(v) => msgs_view(v@),
        None => Seq::empty(),
    }
}

impl AgentState {
    /// The state for a new turn: the history (if any), then the user's input
    /// as a user message, with no tool call pending.
    pub fn new_turn(history: Option<Vec<ChatMessage>>, current_user_input: String) -> (r: AgentState)
        ensures
            r@ == turn_start(history_view(history), current_user_input@),
    {
        proof { reveal_strlit("user"); }
        let mut messages = match history {
            Some(v) => v,
            None => Vec::new(),
        };
        let m = ChatMessage {
            role: to_owned("user"),
            content: Some(current_user_input),
            tool_calls: None,
            tool_call_id: None,
        };
        messages.push(m);
        let r = AgentState { messages, pending_tool_calls: Vec::new() };
        assert(r@.messages =~= turn_start(history_view(history), current_user_input@).messages);
        assert(r@.pending =~= Seq::<ToolCallV>::empty());
        r
    }
}

pub proof fn lemma_calls_view_push(s: Seq<ToolCall>, c: ToolCall)
    ensures
        calls_view(s.push(c)) == calls_view(s).push(c@),
{
    assert(calls_view(s.push(c)) =~= calls_view(s).push(c@));
}

pub proof fn lemma_msgs_view_push(s: Seq<ChatMessage>, m: ChatMessage)
    ensures
        msgs_view(s.push(m)) == msgs_view(s).push(m@),
{
    assert(msgs_view(s.push(m)) =~= msgs_view(s).push(m@));
}

/// A copy of a tool call.
pub fn clone_call(c: &ToolCall) -> (r: ToolCall)
    ensures
        r@ == c@,
{
    ToolCall {
        id: c.id.clone(),
        call_type: c.call_type.clone(),
        function: crate::models::ToolFunction { name: c.function.name.clone(), arguments: c.function.arguments.clone() },
    }
}

/// A copy of a message.
pub fn clone_message(m: &ChatMessage) -> (r: ChatMessage)
    ensures
        r@ == m@,
{
    let tool_calls = match &m.tool_calls {
        Some(cs) => {
            let mut out: Vec<ToolCall> = Vec::new();
            let mut i: usize = 0;
            while i < cs.len()
                invariant
                    i <= cs.len(),
                    calls_view(out@) == calls_view(cs@).subrange(0, i as int),
                decreases cs.len() - i,
            {
                let c = clone_call(&cs[i]);
                proof { lemma_calls_view_push(out@, c); }
                out.push(c);
                i = i + 1;
                assert(calls_view(out@) =~= calls_view(cs@).subrange(0, i as int));
            }
            assert(calls_view(cs@).subrange(0, cs.len() as int) =~= calls_view(cs@));
            Some(out)
        },
        None => None,
    };
    let r = ChatMessage {
        role: m.role.clone(),
        content: match &m.content { Some(c) => Some(c.clone()), None => None },
        tool_calls,
        tool_call_id: match &m.tool_call_id { Some(c) => Some(c.clone()), None => None },
    };
    r
}

/// A copy of the conversation, for sending to the model.
pub fn clone_messages(ms: &Vec<ChatMessage>) -> (r: Vec<ChatMessage>)
    ensures
        msgs_view(r@) == msgs_view(ms@),
{
    let mut out: Vec<ChatMessage> = Vec::new();
    let mut i: usize = 0;
    while i < ms.len()
        invariant
            i <= ms.len(),
            msgs_view(out@) == msgs_view(ms@).subrange(0, i as int),
        decreases ms.len() - i,
    {
        let m = clone_message(&ms[i]);
        proof { lemma_msgs_view_push(out@, m); }
        out.push(m);
        i = i + 1;
        assert(msgs_view(out@) =~= msgs_view(ms@).subrange(0, i as int));
    }
    assert(msgs_view(ms@).subrange(0, ms.len() as int) =~= msgs_view(ms@));
    out
}

/// The agent of one turn: its conversation state and the provider it asks.
pub struct Agent {
    pub state: AgentState,
    pub provider_ids: Vec<String>,
    pub current_provider_id: String,
}

impl Agent {
    /// An agent for a new turn, asking the registry's default provider.
    pub fn new(
        history: Option<Vec<ChatMessage>>,
        current_user_input: String,
        provider_ids: Vec<String>,
        default_provider_id: String,
    ) -> (r: Agent)
        ensures
            r.state@ == turn_start(history_view(history), current_user_input@),
            r.provider_ids@ == provider_ids@,
            r.current_provider_id@ == default_provider_id@,
    {
        Agent {
            state: AgentState::new_turn(history, current_user_input),
            provider_ids,
            current_provider_id: default_provider_id,
        }
    }

    /// An agent for a new turn together with its provider registry, built
    /// from the configured providers: one provider per entry, in order and
    /// under the entry's id, with the agent asking the default provider;
    /// or the error of the first entry whose type is not supported.
    pub fn from_config(
        history: Option<Vec<ChatMessage>>,
        current_user_input: String,
        entries: Vec<ProviderEntry>,
        default_provider_id: String,
    ) -> (r: Result<(Agent, Vec<(String, ConfiguredProvider)>), String>)
        ensures
            all_supported(entries@, entries@.len() as int) ==> (r matches Ok((a, reg))
                && a.state@ == turn_start(history_view(history), current_user_input@)
                && a.current_provider_id@ == default_provider_id@
                && a.provider_ids@.len() == entries@.len()
                && reg@.len() == entries@.len()
                && forall|i: int| 0 <= i < entries@.len() ==> (#[trigger] a.provider_ids@[i])@ == entries@[i].id@
                    && reg@[i].0 == entries@[i].id && provider_built(reg@[i].1, entries@[i])),
            !all_supported(entries@, entries@.len() as int) ==> exists|k: int| 0 <= k < entries@.len()
                && all_supported(entries@, k) && !supported_provider_type(#[trigger] entries@[k].provider_type@)
                && (r matches Err(e) && e@ == "Unsupported provider type: "@ + entries@[k].provider_type@),
    {
        let mut ids: Vec<String> = Vec::new();
        let mut i: usize = 0;
        while i < entries.len()
            invariant
                i <= entries.len(),
                ids@.len() == i,
                forall|j: int| 0 <= j < i ==> (#[trigger] ids@[j])@ == entries@[j].id@,
            decreases entries.len() - i,
        {
            ids.push(entries[i].id.clone());
            i = i + 1;
        }
        match build_registry(entries) {
            Ok(reg) => Ok((Agent::new(history, current_user_input, ids, default_provider_id), reg)),
            Err(e) => Err(e),
        }
    }

    /// Makes `provider_id` the provider to ask, if the registry has it.
    pub fn switch_provider(&mut self, provider_id: &str) -> (r: Result<(), String>)
        ensures
            final(self).state == old(self).state,
            final(self).provider_ids == old(self).provider_ids,
            (exists|i: int| 0 <= i < old(self).provider_ids@.len() && #[trigger] old(self).provider_ids@[i]@ == provider_id@)
                ==> r is Ok && final(self).current_provider_id@ == provider_id@,
            !(exists|i: int| 0 <= i < old(self).provider_ids@.len() && #[trigger] old(self).provider_ids@[i]@ == provider_id@)
                ==> (r matches Err(e) && e@ == "Provider not found in registry: "@ + provider_id@
                    && final(self).current_provider_id == old(self).current_provider_id),
    {
        let mut i: usize = 0;
        while i < self.provider_ids.len()
            invariant
                *self == *old(self),
                i <= self.provider_ids.len(),
                forall|j: int| 0 <= j < i ==> self.provider_ids@[j]@ != provider_id@,
            decreases self.provider_ids.len() - i,
        {
            if str_eq(self.provider_ids[i].as_str(), provider_id) {
                self.current_provider_id = to_owned(provider_id);
                return Ok(());
            }
            i = i + 1;
        }
        Err(concat("Provider not found in registry: ", provider_id))
    }

    /// Starts the turn: the first step is to ask the model.
    pub fn initialize_interaction(&self) -> (r: NextStep)
        ensures
            step_view(r) == StepV::CallApi,
    {
        NextStep::CallApi
    }

    /// The conversation to send to the model.
    pub fn messages_for_api(&self) -> (r: Vec<ChatMessage>)
        ensures
            msgs_view(r@) == self.state@.messages,
    {
        clone_messages(&self.state.messages)
    }

    /// Takes the model's answer: its first choice's message joins the
    /// conversation; if it asks for tools they wait to run, otherwise the
    /// turn completes with its text. An answer without choices is an error
    /// and changes nothing.
    pub fn process_api_response(&mut self, response: ApiResponse) -> (r: Result<NextStep, AgentError>)
        ensures
            response.choices@.len() == 0 ==> (r matches Err(AgentError::Api(e))
                && e@ == "API response contained no choices"@ && final(self).state@ == old(self).state@),
            response.choices@.len() > 0 ==> (r matches Ok(step)
                && final(self).state@ == after_reply(old(self).state@, response.choices@[0].message@)
                && step_view(step) == step_after_reply(response.choices@[0].message@)),
            final(self).provider_ids == old(self).provider_ids,
            final(self).current_provider_id == old(self).current_provider_id,
    {
        let mut response = response;
        if response.choices.len() == 0 {
            return Err(AgentError::Api(to_owned("API response contained no choices")));
        }
        let choice = response.choices.remove(0);
        let reply = choice.message;
        let ghost reply_v = reply@;
        let pending = match &reply.tool_calls {
            Some(cs) => {
                let mut out: Vec<ToolCall> = Vec::new();
                let mut i: usize = 0;
                while i < cs.len()
                    invariant
                        i <= cs.len(),
                        calls_view(out@) == calls_view(cs@).subrange(0, i as int),
                    decreases cs.len() - i,
                {
                    let c = clone_call(&cs[i]);
                    proof { lemma_calls_view_push(out@, c); }
                    out.push(c);
                    i = i + 1;
                    assert(calls_view(out@) =~= calls_view(cs@).subrange(0, i as int));
                }
                assert(calls_view(cs@).subrange(0, cs.len() as int) =~= calls_view(cs@));
                out
            },
            None => Vec::new(),
        };
        assert(calls_view(pending@) =~= requested_calls(reply_v));
        let step = if pending.len() > 0 {
            NextStep::CallTools
        } else {
            NextStep::Completed(match &reply.content {
                Some(c) => c.clone(),
                None => String::new(),
            })
        };
        self.state.messages.push(reply);
        self.state.pending_tool_calls = pending;
        assert(self.state@.messages =~= old(self).state@.messages.push(reply_v));
        Ok(step)
    }

    /// Takes the results of the pending tool calls: each becomes a tool
    /// message, in order, nothing stays pending, and the model is asked again.
    pub fn process_tool_results(&mut self, results: Vec<ToolResult>) -> (r: NextStep)
        ensures
            final(self).state@ == after_results(old(self).state@, results@),
            step_view(r) == StepV::CallApi,
            final(self).provider_ids == old(self).provider_ids,
            final(self).current_provider_id == old(self).current_provider_id,
    {
        proof { reveal_strlit("tool"); }
        let ghost start = self.state@.messages;
        let mut i: usize = 0;
        while i < results.len()
            invariant
                i <= results.len(),
                msgs_view(self.state.messages@) == start + result_messages(results@, i as nat),
                self.provider_ids == old(self).provider_ids,
                self.current_provider_id == old(self).current_provider_id,
            decreases results.len() - i,
        {
            let m = ChatMessage {
                role: to_owned("tool"),
                content: Some(results[i].output.clone()),
                tool_calls: None,
                tool_call_id: Some(results[i].tool_call_id.clone()),
            };
            proof { lemma_msgs_view_push(self.state.messages@, m); }
            self.state.messages.push(m);
            i = i + 1;
            assert(msgs_view(self.state.messages@) =~= start + result_messages(results@, i as nat));
        }
        self.state.pending_tool_calls = Vec::new();
        assert(self.state@.pending =~= Seq::<ToolCallV>::empty());
        NextStep::CallApi
    }
}

} // verus!

verus! {

/// A turn in which the model answers without asking for tools ends with the
/// history, the user's input and the answer, in that order; the model was
/// sent the history followed by the input, and the turn's result is the
/// answer's text.
pub proof fn law_turn_without_tools(history: Seq<ChatMessageV>, input: Seq<char>, reply: ChatMessageV)
    requires
        requested_calls(reply).len() == 0,
    ensures
        turn_start(history, input).messages == history + seq![user_message(input)],
        after_reply(turn_start(history, input), reply).messages == history + seq![user_message(input), reply],
        after_reply(turn_start(history, input), reply).pending.len() == 0,
        step_after_reply(reply) == StepV::Completed(match reply.content { Some(c) => c, None => Seq::empty() }),
{
    assert(turn_start(history, input).messages =~= history + seq![user_message(input)]);
    assert(after_reply(turn_start(history, input), reply).messages =~= history + seq![user_message(input), reply]);
}

/// A second turn started from the first turn's final conversation sends the
/// model the whole first turn followed by the new input.
pub proof fn law_next_turn_carries_history(
    history: Seq<ChatMessageV>,
    first: Seq<char>,
    reply: ChatMessageV,
    second: Seq<char>,
)
    requires
        requested_calls(reply).len() == 0,
    ensures
        turn_start(after_reply(turn_start(history, first), reply).messages, second).messages
            == history + seq![user_message(first), reply, user_message(second)],
{
    assert(turn_start(after_reply(turn_start(history, first), reply).messages, second).messages
        =~= history + seq![user_message(first), reply, user_message(second)]);
}

/// The conversation only grows: taking an answer or tool results keeps the
/// earlier messages as a prefix.
pub proof fn law_conversation_only_grows(s: AgentStateV, reply: ChatMessageV, results: Seq<ToolResult>)
    ensures
        after_reply(s, reply).messages.subrange(0, s.messages.len() as int) == s.messages,
        after_results(s, results).messages.subrange(0, s.messages.len() as int) == s.messages,
        after_reply(s, reply).messages.len() == s.messages.len() + 1,
{
    assert(after_reply(s, reply).messages.subrange(0, s.messages.len() as int) =~= s.messages);
    assert(after_results(s, results).messages.subrange(0, s.messages.len() as int) =~= s.messages);
}

/// Tool results come back as one tool message each, in order, carrying the
/// result's call id and output, and nothing stays pending.
pub proof fn law_results_become_tool_messages(s: AgentStateV, results: Seq<ToolResult>)
    ensures
        after_results(s, results).messages.len() == s.messages.len() + results.len(),
        forall|i: int| 0 <= i < results.len() ==>
            #[trigger] after_results(s, results).messages[s.messages.len() + i]
                == tool_message(results[i].tool_call_id@, results[i].output@),
        after_results(s, results).pending.len() == 0,
{
    lemma_result_messages(results, results.len());
}

proof fn lemma_result_messages(rs: Seq<ToolResult>, n: nat)
    requires
        n <= rs.len(),
    ensures
        result_messages(rs, n).len() == n,
        forall|i: int| 0 <= i < n ==> #[trigger] result_messages(rs, n)[i] == tool_message(rs[i].tool_call_id@, rs[i].output@),
    decreases n,
{
    if n > 0 {
        lemma_result_messages(rs, (n - 1) as nat);
    }
}

/// The MCP server that runs a tool, if the agent knows the tool.
pub open spec fn tool_server(name: Seq<char>) -> Option<Seq<char>> {
    if name == "read_file"@ || name == "write_file"@ {
        Some("filesystem"@)
    } else if name == "shell"@ {
        Some("shell"@)
    } else if name == "git_diff"@ || name == "git_status"@ || name == "git_commit"@ {
        Some("git"@)
    } else if name == "search_text"@ {
        Some("search"@)
    } else {
        None
    }
}

/// The MCP server that runs a tool, if the agent knows the tool.
pub fn map_tool_to_server(name: &str) -> (r: Option<&'static str>)
    ensures
        match tool_server(name@) {
            Some(s) => r matches Some(x) && x@ == s,
            None => r is None,
        },
{
    proof {
        reveal_strlit("read_file");
        reveal_strlit("write_file");
        reveal_strlit("filesystem");
        reveal_strlit("shell");
        reveal_strlit("git_diff");
        reveal_strlit("git_status");
        reveal_strlit("git_commit");
        reveal_strlit("git");
        reveal_strlit("search_text");
        reveal_strlit("search");
    }
    if str_eq(name, "read_file") || str_eq(name, "write_file") {
        Some("filesystem")
    } else if str_eq(name, "shell") {
        Some("shell")
    } else if str_eq(name, "git_diff") || str_eq(name, "git_status") || str_eq(name, "git_commit") {
        Some("git")
    } else if str_eq(name, "search_text") {
        Some("search")
    } else {
        None
    }
}

/// The failed result for a tool no server runs.
pub fn unknown_tool_result(call: &ToolCall) -> (r: ToolResult)
    ensures
        r.tool_call_id@ == call.id@,
        r.output@ == "Error: Unknown tool name '"@ + call.function.name@ + "'"@,
        r.status == ToolExecutionStatus::Failure,
{
    let a = concat("Error: Unknown tool name '", call.function.name.as_str());
    ToolResult { tool_call_id: call.id.clone(), output: concat(a.as_str(), "'"), status: ToolExecutionStatus::Failure }
}

/// The failed result for a tool whose server reported an error.
pub fn failed_tool_result(call: &ToolCall, server_id: &str, error: &str) -> (r: ToolResult)
    ensures
        r.tool_call_id@ == call.id@,
        r.output@ == "Error executing MCP tool '"@ + call.function.name@ + "' on server '"@ + server_id@ + "': "@ + error@,
        r.status == ToolExecutionStatus::Failure,
{
    let mut o = to_owned("Error executing MCP tool '");
    push_str(&mut o, call.function.name.as_str());
    push_str(&mut o, "' on server '");
    push_str(&mut o, server_id);
    push_str(&mut o, "': ");
    push_str(&mut o, error);
    ToolResult { tool_call_id: call.id.clone(), output: o, status: ToolExecutionStatus::Failure }
}

/// How a tool's JSON result is shown to the model.
#[derive(Debug)]
pub enum RenderedOutput {
    /// This text.
    Text(String),
    /// The value's pretty-printed JSON text.
    Pretty,
}

pub enum RenderedV {
    Text(Seq<char>),
    Pretty,
}

pub open spec fn rendered_view(r: RenderedOutput) -> RenderedV {
    match r {
        RenderedOutput::Text(t) => RenderedV::Text(t@),
        RenderedOutput::Pretty => RenderedV::Pretty,
    }
}

/// How a tool's result is shown: a string as itself; an object with a
/// `content` member as its compact JSON; an object with a `text` member as
/// that text (empty if not a string); an empty array as `<empty result>`;
/// `null` as `<no output>`; a boolean or number as its JSON text; other
/// arrays and objects pretty-printed.
pub open spec fn tool_output_rendering(v: JsonV) -> RenderedV {
    match v {
        JsonV::String(s) => RenderedV::Text(s),
        JsonV::Object(_) => if get(v, "content"@) is Some {
            RenderedV::Text(json_text(v))
        } else if get(v, "text"@) is Some {
            RenderedV::Text(match get_str(v, "text"@) { Some(t) => t, None => Seq::empty() })
        } else {
            RenderedV::Pretty
        },
        JsonV::Array(a) => if a.len() == 0 { RenderedV::Text("<empty result>"@) } else { RenderedV::Pretty },
        JsonV::Null => RenderedV::Text("<no output>"@),
        _ => RenderedV::Text(json_text(v)),
    }
}

/// How a tool's JSON result is shown to the model.
pub fn render_tool_output(v: &Json) -> (r: RenderedOutput)
    ensures
        rendered_view(r) == tool_output_rendering(v@),
{
    proof {
        reveal_strlit("content");
        reveal_strlit("text");
        reveal_strlit("<empty result>");
        reveal_strlit("<no output>");
    }
    match v {
        Json::String(s) => RenderedOutput::Text(s.clone()),
        Json::Object(_) => {
            if v.get("content").is_some() {
                RenderedOutput::Text(to_json_text(v))
            } else {
                match v.get("text") {
                    Some(t) => match t.as_str() {
                        Some(s) => RenderedOutput::Text(to_owned(s)),
                        None => RenderedOutput::Text(String::new()),
                    },
                    None => RenderedOutput::Pretty,
                }
            }
        },
        Json::Array(a) => {
            proof { crate::json::lemma_jv_seq_len(a@); }
            if a.len() == 0 {
                RenderedOutput::Text(to_owned("<empty result>"))
            } else {
                RenderedOutput::Pretty
            }
        },
        Json::Null => RenderedOutput::Text(to_owned("<no output>")),
        _ => RenderedOutput::Text(to_json_text(v)),
    }
}

/// The successful result of a tool, with its rendered output.
pub fn successful_tool_result(call: &ToolCall, output: String) -> (r: ToolResult)
    ensures
        r.tool_call_id@ == call.id@,
        r.output@ == output@,
        r.status == ToolExecutionStatus::Success,
{
    ToolResult { tool_call_id: call.id.clone(), output, status: ToolExecutionStatus::Success }
}

/// What a tool's server answered to a call: an error, or its rendered output.
pub enum ServerAnswer {
    Failed(String),
    Output(String),
}

/// Whether `r` is the result a call gets: where no server runs its tool,
/// the unknown-tool failure; otherwise the failure naming its server, or
/// the server's output.
pub open spec fn result_for(r: ToolResult, call: ToolCall, answer: Option<ServerAnswer>) -> bool {
    &&& r.tool_call_id@ == call.id@
    &&& match tool_server(call.function.name@) {
        None => r.output@ == "Error: Unknown tool name '"@ + call.function.name@ + "'"@
            && r.status == ToolExecutionStatus::Failure,
        Some(server) => match answer {
            Some(ServerAnswer::Failed(error)) => r.output@ == "Error executing MCP tool '"@ + call.function.name@
                + "' on server '"@ + server + "': "@ + error@ && r.status == ToolExecutionStatus::Failure,
            Some(ServerAnswer::Output(t)) => r.output@ == t@ && r.status == ToolExecutionStatus::Success,
            None => false,
        },
    }
}

/// Whether each call whose tool a server runs has that server's answer.
pub open spec fn answered(calls: Seq<ToolCall>, answers: Seq<Option<ServerAnswer>>) -> bool {
    &&& answers.len() == calls.len()
    &&& forall|i: int| 0 <= i < calls.len() && #[trigger] tool_server(calls[i].function.name@) is Some
        ==> answers[i] is Some
}

/// The result a call gets, from its server's answer where a server runs its
/// tool; a call no server runs gets the unknown-tool failure, whatever was
/// handed in for it.
pub fn tool_result(call: &ToolCall, answer: Option<ServerAnswer>) -> (r: ToolResult)
    requires
        tool_server(call.function.name@) is Some ==> answer is Some,
    ensures
        result_for(r, *call, answer),
{
    match map_tool_to_server(call.function.name.as_str()) {
        None => unknown_tool_result(call),
        Some(server) => match answer {
            Some(ServerAnswer::Failed(error)) => failed_tool_result(call, server, error.as_str()),
            Some(ServerAnswer::Output(t)) => successful_tool_result(call, t),
            None => { assert(false); unknown_tool_result(call) },
        },
    }
}

/// The results of the pending calls, one per call, in the calls' order and
/// under each call's id (see `result_for`).
pub fn results_for_calls(calls: &Vec<ToolCall>, answers: Vec<Option<ServerAnswer>>) -> (r: Vec<ToolResult>)
    requires
        answered(calls@, answers@),
    ensures
        r@.len() == calls@.len(),
        forall|i: int| 0 <= i < r@.len() ==> (#[trigger] r@[i]).tool_call_id@ == calls@[i].id@,
        forall|i: int| 0 <= i < r@.len() ==> result_for(#[trigger] r@[i], calls@[i], answers@[i]),
{
    let ghost all = answers@;
    let mut rest = answers;
    let mut r: Vec<ToolResult> = Vec::new();
    let mut i: usize = 0;
    while i < calls.len()
        invariant
            answered(calls@, all),
            i <= calls.len(),
            rest@ == all.subrange(i as int, all.len() as int),
            r@.len() == i,
            forall|j: int| 0 <= j < i ==> result_for(#[trigger] r@[j], calls@[j], all[j]),
        decreases calls.len() - i,
    {
        let o = rest.remove(0);
        assert(o == all[i as int]);
        assert(tool_server(calls@[i as int].function.name@) is Some ==> all[i as int] is Some);
        r.push(tool_result(&calls[i], o));
        i = i + 1;
        assert(rest@ =~= all.subrange(i as int, all.len() as int));
    }
    r
}

/// The first `n` characters of `s` (all of it if shorter).
pub open spec fn prefix_chars(s: Seq<char>, n: nat) -> Seq<char> {
    if s.len() <= n { s } else { s.subrange(0, n as int) }
}

/// `s` with each newline written as a backslash and an `n`.
pub open spec fn escape_newlines(s: Seq<char>) -> Seq<char>
    decreases s.len(),
{
    if s.len() == 0 {
        Seq::empty()
    } else {
        escape_newlines(s.drop_last()) + (if s.last() == '\n' { seq!['\\', 'n'] } else { seq![s.last()] })
    }
}

/// The first `n` characters of `s`.
pub fn take_chars(s: &str, n: usize) -> (r: String)
    ensures
        r@ == prefix_chars(s@, n as nat),
{
    let v = chars_of(s);
    let mut out = String::new();
    let mut i: usize = 0;
    while i < v.len() && i < n
        invariant
            v@ == s@,
            i <= v.len(),
            i <= n,
            out@ == s@.subrange(0, i as int),
        decreases v.len() - i,
    {
        push_char(&mut out, v[i]);
        i = i + 1;
    }
    assert(out@ =~= prefix_chars(s@, n as nat));
    out
}

/// `s` with each newline written as a backslash and an `n`.
pub fn replace_newlines(s: &str) -> (r: String)
    ensures
        r@ == escape_newlines(s@),
{
    let v = chars_of(s);
    let mut out = String::new();
    let mut i: usize = 0;
    while i < v.len()
        invariant
            v@ == s@,
            i <= v.len(),
            out@ == escape_newlines(s@.subrange(0, i as int)),
        decreases v.len() - i,
    {
        if v[i] == '\n' {
            push_char(&mut out, '\\');
            push_char(&mut out, 'n');
        } else {
            push_char(&mut out, v[i]);
        }
        assert(s@.subrange(0, i + 1).drop_last() =~= s@.subrange(0, i as int));
        i = i + 1;
    }
    assert(s@.subrange(0, v.len() as int) =~= s@);
    out
}

/// The summary line printed for a tool call once it ran: a green check or
/// a red cross, the call with its arguments, the status, and the output's
/// first seventy characters on one line, with `...` when the output is
/// longer than seventy bytes.
pub open spec fn summary_line_text(name: Seq<char>, arguments: Seq<char>, status: ToolExecutionStatus,
    output: Seq<char>, output_bytes: nat) -> Seq<char>
{
    let icon = match status {
        ToolExecutionStatus::Success => "\x1b[32m\u{2705}\x1b[0m"@,
        ToolExecutionStatus::Failure => "\x1b[31m\u{274c}\x1b[0m"@,
    };
    let status_name = match status {
        ToolExecutionStatus::Success => "Success"@,
        ToolExecutionStatus::Failure => "Failure"@,
    };
    icon + " "@ + name + "("@ + arguments + ") -> "@ + status_name + " \""@
        + escape_newlines(prefix_chars(output, 70)) + (if output_bytes > 70 { "..."@ } else { Seq::empty() }) + "\""@
}

/// The summary line printed for a tool call once it ran.
pub fn summary_line(call: &ToolCall, result: &ToolResult) -> (r: String)
    ensures
        r@ == summary_line_text(call.function.name@, call.function.arguments@, result.status,
            result.output@, (vstd::utf8::encode_utf8(result.output@).len() as usize) as nat),
{
    proof {
        reveal_strlit("\x1b[32m\u{2705}\x1b[0m");
        reveal_strlit("\x1b[31m\u{274c}\x1b[0m");
        reveal_strlit("Success");
        reveal_strlit("Failure");
        reveal_strlit("...");
    }
    let mut r = String::new();
    match result.status {
        ToolExecutionStatus::Success => push_str(&mut r, "\x1b[32m\u{2705}\x1b[0m"),
        ToolExecutionStatus::Failure => push_str(&mut r, "\x1b[31m\u{274c}\x1b[0m"),
    }
    push_str(&mut r, " ");
    push_str(&mut r, call.function.name.as_str());
    push_str(&mut r, "(");
    push_str(&mut r, call.function.arguments.as_str());
    push_str(&mut r, ") -> ");
    match result.status {
        ToolExecutionStatus::Success => push_str(&mut r, "Success"),
        ToolExecutionStatus::Failure => push_str(&mut r, "Failure"),
    }
    push_str(&mut r, " \"");
    let preview = take_chars(result.output.as_str(), 70);
    let shown = replace_newlines(preview.as_str());
    push_str(&mut r, shown.as_str());
    if result.output.as_str().len() > 70 {
        push_str(&mut r, "...");
    }
    push_str(&mut r, "\"");
    proof { reveal_strlit("\""); reveal_strlit(" \""); reveal_strlit(") -> "); reveal_strlit("("); reveal_strlit(" "); }
    assert(r@ =~= summary_line_text(call.function.name@, call.function.arguments@, result.status,
            result.output@, (vstd::utf8::encode_utf8(result.output@).len() as usize) as nat));
    r
}

/// The note printed before tools run: the assistant's text, when the last
/// message is the assistant's and its text is not blank.
pub open spec fn assistant_notice_text(ms: Seq<ChatMessageV>) -> Option<Seq<char>> {
    if ms.len() > 0 && ms.last().role == "assistant"@ {
        match ms.last().content {
            Some(c) => if crate::text::trimmed(c).len() > 0 { Some("\u{1f916} Assistant: "@ + c) } else { None },
            None => None,
        }
    } else {
        None
    }
}

impl Agent {
    /// The note printed before the pending tools run, if any.
    pub fn assistant_notice(&self) -> (r: Option<String>)
        ensures
            match assistant_notice_text(self.state@.messages) {
                Some(t) => r matches Some(x) && x@ == t,
                None => r is None,
            },
    {
        proof { reveal_strlit("assistant"); reveal_strlit("\u{1f916} Assistant: "); }
        let n = self.state.messages.len();
        if n == 0 {
            return None;
        }
        let last = &self.state.messages[n - 1];
        assert(msgs_view(self.state.messages@).last() == last@);
        if !str_eq(last.role.as_str(), "assistant") {
            return None;
        }
        match &last.content {
            Some(c) => {
                let t = crate::text::trim(c.as_str());
                if t.unicode_len() > 0 {
                    Some(concat("\u{1f916} Assistant: ", c.as_str()))
                } else {
                    None
                }
            },
            None => None,
        }
    }

    /// The pending tool calls; an error when the strategy asked for tools
    /// but none are pending.
    pub fn pending_calls(&self) -> (r: Result<&Vec<ToolCall>, AgentError>)
        ensures
            self.state.pending_tool_calls@.len() == 0 ==> (r matches Err(AgentError::Strategy(e))
                && e@ == "Strategy requested tool calls, but none were pending in state"@),
            self.state.pending_tool_calls@.len() > 0 ==> r == Ok::<&Vec<ToolCall>, AgentError>(&self.state.pending_tool_calls),
    {
        if self.state.pending_tool_calls.len() == 0 {
            Err(AgentError::Strategy(to_owned("Strategy requested tool calls, but none were pending in state")))
        } else {
            Ok(&self.state.pending_tool_calls)
        }
    }
}

/// The tool definition an MCP tool announces: its name, its description
/// and the parameters read from its input schema.
pub fn mcp_tool_definition(name: &str, description: &str, input_schema: &Vec<(String, Json)>) -> (r: ToolDefinition)
    ensures
        r.name@ == name@,
        r.description@ == description@,
        r.parameters.param_type@ == "object"@,
        params_match(r.parameters.properties@, schema_properties(jv_entries(input_schema@))),
        crate::models::str_seq(r.parameters.required@) == schema_required(jv_entries(input_schema@)),
{
    ToolDefinition {
        name: to_owned(name),
        description: to_owned(description),
        parameters: mcp_schema_to_tool_params(Some(input_schema)),
    }
}

/// Every tool that the file system, search or shell server offers is
/// routed to that server: a call of any tool such a server announces reaches
/// it (`offered` stands for what `filesystem_server_tools`,
/// `search_server_tools` or `shell_server_tools` returns).
pub proof fn law_offered_tools_are_routed(offered: Seq<crate::servers::ServerToolV>, server: Seq<char>)
    requires
        (server == "filesystem"@ && offered == seq![crate::servers::read_file_tool(), crate::servers::write_file_tool()])
        || (server == "search"@ && offered == seq![crate::servers::search_tool()])
        || (server == "shell"@ && offered == seq![crate::servers::shell_tool()]),
    ensures
        forall|i: int| 0 <= i < offered.len() ==> tool_server(#[trigger] offered[i].name) == Some(server),
{
    reveal_strlit("read_file");
    reveal_strlit("write_file");
    reveal_strlit("shell");
    reveal_strlit("search_text");
    reveal_strlit("filesystem");
    reveal_strlit("search");
    reveal_strlit("git_diff");
    reveal_strlit("git_status");
    reveal_strlit("git_commit");
    assert("search_text"@.len() != "read_file"@.len() && "search_text"@.len() != "write_file"@.len());
    assert("search_text"@.len() != "shell"@.len());
    assert("search_text"@[0] != "git_diff"@[0] && "search_text"@[0] != "git_status"@[0]);
    assert("search_text"@[0] != "git_commit"@[0]);
    assert("shell"@.len() != "read_file"@.len() && "shell"@.len() != "write_file"@.len());
}

/// Which server runs which tool: `read_file` and `write_file` go to the
/// file system server, `shell` to the shell server, `git_diff`,
/// `git_status` and `git_commit` to the git server and `search_text` to
/// the search server; no other tool name reaches a server.
pub proof fn law_tool_routing(name: Seq<char>)
    ensures
        tool_server(name) == Some("filesystem"@) <==> (name == "read_file"@ || name == "write_file"@),
        tool_server(name) == Some("shell"@) <==> name == "shell"@,
        tool_server(name) == Some("git"@) <==> (name == "git_diff"@ || name == "git_status"@ || name == "git_commit"@),
        tool_server(name) == Some("search"@) <==> name == "search_text"@,
        tool_server(name) is Some <==> (name == "read_file"@ || name == "write_file"@ || name == "shell"@
            || name == "git_diff"@ || name == "git_status"@ || name == "git_commit"@ || name == "search_text"@),
{
    reveal_strlit("filesystem");
    reveal_strlit("shell");
    reveal_strlit("git");
    reveal_strlit("search");
    assert("filesystem"@.len() != "shell"@.len() && "filesystem"@.len() != "git"@.len());
    assert("filesystem"@.len() != "search"@.len() && "shell"@.len() != "git"@.len());
    assert("shell"@[0] != "search"@[0] || "shell"@[1] != "search"@[1]);
    assert("git"@.len() != "search"@.len());
    reveal_strlit("read_file");
    reveal_strlit("write_file");
    reveal_strlit("git_diff");
    reveal_strlit("git_status");
    reveal_strlit("git_commit");
    reveal_strlit("search_text");
    assert("shell"@.len() != "read_file"@.len() && "shell"@.len() != "write_file"@.len());
    assert("git_diff"@.len() != "read_file"@.len() && "git_diff"@[0] != "write_file"@[0]);
    assert("git_status"@.len() != "read_file"@.len() && "git_status"@[0] != "write_file"@[0]);
    assert("git_commit"@.len() != "read_file"@.len() && "git_commit"@[0] != "write_file"@[0]);
    assert("git_diff"@.len() != "shell"@.len() && "git_status"@.len() != "shell"@.len());
    assert("git_commit"@.len() != "shell"@.len());
}

} // verus!
