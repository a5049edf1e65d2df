//! Requests to and answers from the chat completion APIs: which endpoint
//! speaks which dialect, where the API key goes, the request payloads for
//! Gemini and for OpenAI-compatible endpoints, and the reading of a Gemini
//! answer, with the reasons for which Gemini refuses one.

use vstd::prelude::*;
use crate::json::{Json, JsonV, jv, jv_seq, jv_entries, jstr, lemma_jv_seq_push, lemma_jv_entries_push,
    lemma_jv_seq_len, get, get_str, get_array};
use crate::models::{ChatMessage, ChatMessageV, ToolCall, ToolCallV, ToolDefinition, Choice, ApiResponse,
    ApiResponseV, ChoiceV, msgs_view, calls_view, params_def_json, params_def_to_json, object1, object2,
    messages_json, messages_to_json, opt_str};
use crate::toml_value::{TomlValue, toml_json};
use crate::text::{str_eq, to_owned, contains, has_substring, starts_with, has_prefix, concat, push_str,
    u128_to_decimal, decimal};
use crate::json_text::{json_text, to_json_text};
use crate::json_parse::{json_parsed, parse_json_text};

verus! {

/// What the JSON texts of a message parse to: its content, and the
/// arguments of each of its tool calls, in order.
#[derive(Debug)]
pub struct MessageJson {
    pub content: Option<Json>,
    pub arguments: Vec<Option<Json>>,
}

pub struct MessageJsonV {
    pub content: Option<JsonV>,
    pub arguments: Seq<Option<JsonV>>,
}

/// Whether parsed arguments are given for each tool call of a message.
pub open spec fn aligned(m: ChatMessage, p: MessageJson) -> bool {
    m.tool_calls matches Some(cs) ==> cs.len() == p.arguments.len()
}

/// The view of an optional JSON value.
pub open spec fn opt_json(o: Option<Json>) -> Option<JsonV> {
    match o {
        Some(j) => Some(j@),
        None => None,
    }
}

impl View for MessageJson {
    type V = MessageJsonV;

    open spec fn view(&self) -> MessageJsonV {
        MessageJsonV {
            content: opt_json(self.content),
            arguments: self.arguments@.map_values(|a: Option<Json>| opt_json(a)),
        }
    }
}

/// The views of a sequence of parsed messages.
pub open spec fn parsed_view(s: Seq<MessageJson>) -> Seq<MessageJsonV> {
    s.map_values(|p: MessageJson| p@)
}

/// The Gemini role of a chat role; system messages travel apart, and other
/// roles are not sent.
pub open spec fn gemini_role(role: Seq<char>) -> Option<Seq<char>> {
    if role == "user"@ {
        Some("user"@)
    } else if role == "assistant"@ {
        Some("model"@)
    } else if role == "tool"@ {
        Some("function"@)
    } else {
        None
    }
}

/// The Gemini role of a chat role.
pub fn map_role_to_gemini(role: &str) -> (r: Option<&'static str>)
    ensures
        match r {
            Some(s) => gemini_role(role@) == Some(s@),
            None => gemini_role(role@) is None,
        },
{
    proof {
        reveal_strlit("user");
        reveal_strlit("assistant");
        reveal_strlit("model");
        reveal_strlit("tool");
        reveal_strlit("function");
    }
    if str_eq(role, "user") {
        Some("user")
    } else if str_eq(role, "assistant") {
        Some("model")
    } else if str_eq(role, "tool") {
        Some("function")
    } else {
        None
    }
}

/// A JSON object of one text part.
pub open spec fn text_part(t: Seq<char>) -> JsonV {
    JsonV::Object(seq![("text"@, JsonV::String(t))])
}

/// The value sent back to Gemini as a tool's response: the parsed content,
/// or the content as a string where it is not JSON.
pub open spec fn tool_response(content: Option<Seq<char>>, parsed: Option<JsonV>) -> JsonV {
    match parsed {
        Some(j) => j,
        None => JsonV::String(match content { Some(c) => c, None => Seq::empty() }),
    }
}

/// The function-call parts for the first `n` tool calls whose arguments parsed.
pub open spec fn call_parts(cs: Seq<ToolCallV>, args: Seq<Option<JsonV>>, n: nat) -> Seq<JsonV>
    decreases n,
{
    if n == 0 {
        Seq::empty()
    } else {
        let prev = call_parts(cs, args, (n - 1) as nat);
        match args[n - 1] {
            Some(a) => prev.push(JsonV::Object(seq![("functionCall"@, JsonV::Object(seq![
                ("name"@, JsonV::String(cs[n - 1].name)),
                ("args"@, a),
            ]))])),
            None => prev,
        }
    }
}

/// The parts of a user or assistant message: its text, then its tool calls.
pub open spec fn message_parts(m: ChatMessageV, p: MessageJsonV) -> Seq<JsonV> {
    let texts = match m.content {
        Some(c) => seq![text_part(c)],
        None => Seq::empty(),
    };
    match m.tool_calls {
        Some(cs) => texts + call_parts(cs, p.arguments, cs.len()),
        None => texts,
    }
}

/// The Gemini content a message turns into, if any.
pub open spec fn gemini_entry(m: ChatMessageV, p: MessageJsonV) -> Option<JsonV> {
    if m.role == "system"@ {
        None
    } else if m.role == "tool"@ {
        match m.tool_call_id {
            Some(id) => Some(JsonV::Object(seq![
                ("role"@, JsonV::String("function"@)),
                ("parts"@, JsonV::Array(seq![JsonV::Object(seq![("functionResponse"@, JsonV::Object(seq![
                    ("name"@, JsonV::String(id)),
                    ("response"@, JsonV::Object(seq![("content"@, tool_response(m.content, p.content))])),
                ]))])])),
            ])),
            None => None,
        }
    } else {
        match gemini_role(m.role) {
            Some(r) => {
                let parts = message_parts(m, p);
                if parts.len() > 0 {
                    Some(JsonV::Object(seq![("role"@, JsonV::String(r)), ("parts"@, JsonV::Array(parts))]))
                } else {
                    None
                }
            },
            None => None,
        }
    }
}

/// The Gemini contents of the first `n` messages.
pub open spec fn gemini_contents(ms: Seq<ChatMessageV>, ps: Seq<MessageJsonV>, n: nat) -> Seq<JsonV>
    decreases n,
{
    if n == 0 {
        Seq::empty()
    } else {
        let prev = gemini_contents(ms, ps, (n - 1) as nat);
        match gemini_entry(ms[n - 1], ps[n - 1]) {
            Some(e) => prev.push(e),
            None => prev,
        }
    }
}

/// The system-instruction parts of the first `n` messages.
pub open spec fn system_parts(ms: Seq<ChatMessageV>, n: nat) -> Seq<JsonV>
    decreases n,
{
    if n == 0 {
        Seq::empty()
    } else {
        let prev = system_parts(ms, (n - 1) as nat);
        if ms[n - 1].role == "system"@ {
            match ms[n - 1].content {
                Some(c) => prev.push(text_part(c)),
                None => prev,
            }
        } else {
            prev
        }
    }
}

/// A tool as Gemini declares a function.
pub open spec fn function_declaration(t: ToolDefinition) -> JsonV {
    JsonV::Object(seq![
        ("name"@, JsonV::String(t.name@)),
        ("description"@, JsonV::String(t.description@)),
        ("parameters"@, params_def_json(t.parameters)),
    ])
}

/// A tool as OpenAI-compatible APIs declare it.
pub open spec fn typed_function(t: ToolDefinition) -> JsonV {
    JsonV::Object(seq![
        ("type"@, JsonV::String("function"@)),
        ("function"@, function_declaration(t)),
    ])
}

/// Whether a model parameter is one that Gemini's `generationConfig` takes.
pub open spec fn is_generation_key(k: Seq<char>) -> bool {
    k == "temperature"@ || k == "topP"@ || k == "topK"@ || k == "candidateCount"@
        || k == "maxOutputTokens"@ || k == "stopSequences"@
}

/// The `generationConfig` entries made of the first `n` parameters.
pub open spec fn generation_config(es: Seq<(String, TomlValue)>, n: nat) -> Seq<(Seq<char>, JsonV)>
    decreases n,
{
    if n == 0 {
        Seq::empty()
    } else {
        let prev = generation_config(es, (n - 1) as nat);
        if is_generation_key(es[n - 1].0@) {
            prev.push((es[n - 1].0@, toml_json(es[n - 1].1)))
        } else {
            prev
        }
    }
}

/// All parameters as payload members.
pub open spec fn parameter_members(es: Seq<(String, TomlValue)>, n: nat) -> Seq<(Seq<char>, JsonV)>
    decreases n,
{
    if n == 0 {
        Seq::empty()
    } else {
        parameter_members(es, (n - 1) as nat).push((es[n - 1].0@, toml_json(es[n - 1].1)))
    }
}

/// The request payload for Gemini: `contents`, then `systemInstruction`,
/// `tools` and `generationConfig` where there is something to put in them.
pub open spec fn gemini_payload(
    ms: Seq<ChatMessageV>,
    ps: Seq<MessageJsonV>,
    tools: Option<Seq<ToolDefinition>>,
    params: Option<TomlValue>,
) -> JsonV {
    let base = seq![("contents"@, JsonV::Array(gemini_contents(ms, ps, ms.len())))];
    let sys = system_parts(ms, ms.len());
    let with_sys = if sys.len() > 0 {
        base.push(("systemInstruction"@, JsonV::Object(seq![("parts"@, JsonV::Array(sys))])))
    } else {
        base
    };
    let with_tools = match tools {
        Some(ts) => if ts.len() > 0 {
            with_sys.push(("tools"@, JsonV::Array(seq![JsonV::Object(seq![(
                "functionDeclarations"@,
                JsonV::Array(ts.map_values(|t: ToolDefinition| function_declaration(t))),
            )])])))
        } else {
            with_sys
        },
        None => with_sys,
    };
    let with_config = match params {
        Some(TomlValue::Table(es)) => {
            let cfg = generation_config(es@, es@.len());
            if cfg.len() > 0 {
                with_tools.push(("generationConfig"@, JsonV::Object(cfg)))
            } else {
                with_tools
            }
        },
        _ => with_tools,
    };
    JsonV::Object(with_config)
}

/// The request payload for an OpenAI-compatible endpoint: `model`,
/// `messages`, then `tools` where there are any, then every model parameter
/// as a member of its own.
pub open spec fn openai_payload(
    model: Seq<char>,
    ms: Seq<ChatMessageV>,
    tools: Option<Seq<ToolDefinition>>,
    params: Option<TomlValue>,
) -> JsonV {
    let with_tools = openai_base(model, ms, tools);
    match params {
        Some(TomlValue::Table(es)) => JsonV::Object(with_tools + parameter_members(es@, es@.len())),
        _ => JsonV::Object(with_tools),
    }
}

/// The members of an OpenAI-compatible payload before the model parameters.
pub open spec fn openai_base(model: Seq<char>, ms: Seq<ChatMessageV>, tools: Option<Seq<ToolDefinition>>)
    -> Seq<(Seq<char>, JsonV)>
{
    let base = seq![("model"@, JsonV::String(model)), ("messages"@, messages_json(ms))];
    match tools {
        Some(ts) => if ts.len() > 0 {
            base.push(("tools"@, JsonV::Array(ts.map_values(|t: ToolDefinition| typed_function(t)))))
        } else {
            base
        },
        None => base,
    }
}

/// A JSON object of one text part.
pub fn make_text_part(t: &str) -> (r: Json)
    ensures
        r@ == text_part(t@),
{
    proof { reveal_strlit("text"); }
    object1("text", jstr(t))
}

/// A copy of an optional JSON value.
fn clone_opt(o: &Option<Json>) -> (r: Option<Json>)
    ensures
        opt_json(r) == opt_json(*o),
{
    match o {
        Some(j) => Some(j.deep_clone()),
        None => None,
    }
}

/// The Gemini content of one message, if any.
pub fn gemini_message_entry(m: &ChatMessage, p: &MessageJson) -> (r: Option<Json>)
    requires
        aligned(*m, *p),
    ensures
        opt_json(r) == gemini_entry(m@, p@),
{
    proof {
        reveal_strlit("system");
        reveal_strlit("tool");
        reveal_strlit("role");
        reveal_strlit("function");
        reveal_strlit("parts");
        reveal_strlit("functionResponse");
        reveal_strlit("name");
        reveal_strlit("response");
        reveal_strlit("content");
        reveal_strlit("functionCall");
        reveal_strlit("args");
    }
    if str_eq(m.role.as_str(), "system") {
        return None;
    }
    if str_eq(m.role.as_str(), "tool") {
        match &m.tool_call_id {
            Some(id) => {
                let response = match clone_opt(&p.content) {
                    Some(j) => j,
                    None => match &m.content {
                        Some(c) => jstr(c.as_str()),
                        None => Json::String(String::new()),
                    },
                };
                assert(response@ == tool_response(m@.content, p@.content));
                let fr = object2("name", jstr(id.as_str()), "response", object1("content", response));
                let part = object1("functionResponse", fr);
                let mut parts: Vec<Json> = Vec::new();
                proof { lemma_jv_seq_push(parts@, part); }
                parts.push(part);
                assert(jv_seq(parts@) =~= seq![part@]);
                return Some(object2("role", jstr("function"), "parts", Json::Array(parts)));
            },
            None => { return None; },
        }
    }
    match map_role_to_gemini(m.role.as_str()) {
        Some(r) => {
            let mut parts: Vec<Json> = Vec::new();
            match &m.content {
                Some(c) => {
                    let t = make_text_part(c.as_str());
                    proof { lemma_jv_seq_push(parts@, t); }
                    parts.push(t);
                },
                None => {},
            }
            let ghost texts = jv_seq(parts@);
            match &m.tool_calls {
                Some(cs) => {
                    let mut i: usize = 0;
                    while i < cs.len()
                        invariant
                            i <= cs.len(),
                            cs.len() == p.arguments.len(),
                            jv_seq(parts@) == texts + call_parts(calls_view(cs@), p@.arguments, i as nat),
                        decreases cs.len() - i,
                    {
                        match &p.arguments[i] {
                            Some(a) => {
                                let call = object2("name", jstr(cs[i].function.name.as_str()), "args", a.deep_clone());
                                let part = object1("functionCall", call);
                                proof { lemma_jv_seq_push(parts@, part); }
                                parts.push(part);
                            },
                            None => {},
                        }
                        i = i + 1;
                        assert(jv_seq(parts@) =~= texts + call_parts(calls_view(cs@), p@.arguments, i as nat));
                    }
                },
                None => {},
            }
            assert(jv_seq(parts@) =~= message_parts(m@, p@));
            if parts.len() > 0 {
                Some(object2("role", jstr(r), "parts", Json::Array(parts)))
            } else {
                None
            }
        },
        None => None,
    }
}

/// The Gemini function declaration of a tool.
pub fn make_function_declaration(t: &ToolDefinition) -> (r: Json)
    ensures
        r@ == function_declaration(*t),
{
    proof {
        reveal_strlit("name");
        reveal_strlit("description");
        reveal_strlit("parameters");
    }
    let mut es: Vec<(String, Json)> = Vec::new();
    let e0 = (to_owned("name"), jstr(t.name.as_str()));
    let e1 = (to_owned("description"), jstr(t.description.as_str()));
    let e2 = (to_owned("parameters"), params_def_to_json(&t.parameters));
    proof {
        lemma_jv_entries_push(es@, e0);
        lemma_jv_entries_push(es@.push(e0), e1);
        lemma_jv_entries_push(es@.push(e0).push(e1), e2);
    }
    es.push(e0);
    es.push(e1);
    es.push(e2);
    assert(jv_entries(es@) =~= seq![
        ("name"@, JsonV::String(t.name@)),
        ("description"@, JsonV::String(t.description@)),
        ("parameters"@, params_def_json(t.parameters)),
    ]);
    Json::Object(es)
}

/// The OpenAI-compatible declaration of a tool.
pub fn make_typed_function(t: &ToolDefinition) -> (r: Json)
    ensures
        r@ == typed_function(*t),
{
    proof {
        reveal_strlit("type");
        reveal_strlit("function");
    }
    object2("type", jstr("function"), "function", make_function_declaration(t))
}

/// What the Gemini payload reads as JSON in a message, as `serde_json`
/// reads it: a tool message's content, and each tool call's arguments.
pub open spec fn message_json_of(m: ChatMessageV) -> MessageJsonV {
    MessageJsonV {
        content: if m.role == "tool"@ {
            match m.content {
                Some(c) => json_parsed(c),
                None => None,
            }
        } else {
            None
        },
        arguments: match m.tool_calls {
            Some(cs) => cs.map_values(|c: ToolCallV| json_parsed(c.arguments)),
            None => Seq::empty(),
        },
    }
}

/// Reads a message's JSON texts (see `message_json_of`).
pub fn message_json(m: &ChatMessage) -> (r: MessageJson)
    ensures
        aligned(*m, r),
        r@ == message_json_of(m@),
{
    proof { reveal_strlit("tool"); }
    let content = if str_eq(m.role.as_str(), "tool") {
        match &m.content {
            Some(c) => parse_json_text(c.as_str()),
            None => None,
        }
    } else {
        None
    };
    let mut arguments: Vec<Option<Json>> = Vec::new();
    match &m.tool_calls {
        Some(cs) => {
            let mut i: usize = 0;
            while i < cs.len()
                invariant
                    i <= cs.len(),
                    arguments@.len() == i,
                    forall|j: int| 0 <= j < i ==> opt_json(#[trigger] arguments@[j]) == json_parsed(cs@[j].function.arguments@),
                decreases cs.len() - i,
            {
                arguments.push(parse_json_text(cs[i].function.arguments.as_str()));
                i = i + 1;
            }
            assert(arguments@.map_values(|a: Option<Json>| opt_json(a))
                =~= calls_view(cs@).map_values(|c: ToolCallV| json_parsed(c.arguments)));
        },
        None => {
            assert(arguments@.map_values(|a: Option<Json>| opt_json(a)) =~= Seq::<Option<JsonV>>::empty());
        },
    }
    MessageJson { content, arguments }
}

/// Builds the request payload for Gemini, reading the messages' JSON texts
/// with `serde_json` (see `message_json_of`).
pub fn build_gemini_request(
    messages: &Vec<ChatMessage>,
    tools: Option<&Vec<ToolDefinition>>,
    parameters: Option<&TomlValue>,
) -> (r: Json)
    ensures
        r@ == gemini_payload(msgs_view(messages@), msgs_view(messages@).map_values(|m: ChatMessageV| message_json_of(m)),
            match tools { Some(t) => Some(t@), None => None },
            match parameters { Some(p) => Some(*p), None => None }),
{
    let mut parsed: Vec<MessageJson> = Vec::new();
    let mut i: usize = 0;
    while i < messages.len()
        invariant
            i <= messages.len(),
            parsed@.len() == i,
            forall|j: int| 0 <= j < i ==> aligned(messages@[j], #[trigger] parsed@[j])
                && parsed@[j]@ == message_json_of(messages@[j]@),
        decreases messages.len() - i,
    {
        parsed.push(message_json(&messages[i]));
        i = i + 1;
    }
    assert(parsed_view(parsed@) =~= msgs_view(messages@).map_values(|m: ChatMessageV| message_json_of(m)));
    build_gemini_payload(messages, &parsed, tools, parameters)
}

/// Builds the request payload for Gemini.
pub fn build_gemini_payload(
    messages: &Vec<ChatMessage>,
    parsed: &Vec<MessageJson>,
    tools: Option<&Vec<ToolDefinition>>,
    parameters: Option<&TomlValue>,
) -> (r: Json)
    requires
        parsed.len() == messages.len(),
        forall|i: int| 0 <= i < messages.len() ==> aligned(#[trigger] messages@[i], parsed@[i]),
    ensures
        r@ == gemini_payload(msgs_view(messages@), parsed_view(parsed@),
            match tools { Some(t) => Some(t@), None => None },
            match parameters { Some(p) => Some(*p), None => None }),
{
    proof {
        reveal_strlit("contents");
        reveal_strlit("systemInstruction");
        reveal_strlit("parts");
        reveal_strlit("tools");
        reveal_strlit("functionDeclarations");
        reveal_strlit("generationConfig");
        reveal_strlit("system");
        reveal_strlit("temperature");
        reveal_strlit("topP");
        reveal_strlit("topK");
        reveal_strlit("candidateCount");
        reveal_strlit("maxOutputTokens");
        reveal_strlit("stopSequences");
    }
    let ghost ms = msgs_view(messages@);
    let ghost ps = parsed_view(parsed@);
    let mut contents: Vec<Json> = Vec::new();
    let mut system: Vec<Json> = Vec::new();
    let mut i: usize = 0;
    while i < messages.len()
        invariant
            i <= messages.len(),
            parsed.len() == messages.len(),
            ms == msgs_view(messages@),
            ps == parsed_view(parsed@),
            forall|j: int| 0 <= j < messages.len() ==> aligned(#[trigger] messages@[j], parsed@[j]),
            jv_seq(contents@) == gemini_contents(ms, ps, i as nat),
            jv_seq(system@) == system_parts(ms, i as nat),
        decreases messages.len() - i,
    {
        let m = &messages[i];
        assert(aligned(messages@[i as int], parsed@[i as int]));
        if str_eq(m.role.as_str(), "system") {
            match &m.content {
                Some(c) => {
                    let t = make_text_part(c.as_str());
                    proof { lemma_jv_seq_push(system@, t); }
                    system.push(t);
                },
                None => {},
            }
        }
        let e = gemini_message_entry(m, &parsed[i]);
        match e {
            Some(x) => {
                proof { lemma_jv_seq_push(contents@, x); }
                contents.push(x);
            },
            None => {},
        }
        i = i + 1;
    }
    let mut es: Vec<(String, Json)> = Vec::new();
    let e0 = (to_owned("contents"), Json::Array(contents));
    proof { lemma_jv_entries_push(es@, e0); }
    es.push(e0);
    let ghost base = jv_entries(es@);
    assert(base =~= seq![("contents"@, JsonV::Array(gemini_contents(ms, ps, ms.len())))]);
    if system.len() > 0 {
        let e = (to_owned("systemInstruction"), object1("parts", Json::Array(system)));
        proof { lemma_jv_entries_push(es@, e); }
        es.push(e);
    }
    let ghost with_sys = jv_entries(es@);
    match tools {
        Some(ts) => {
            if ts.len() > 0 {
                let mut decls: Vec<Json> = Vec::new();
                let mut k: usize = 0;
                while k < ts.len()
                    invariant
                        k <= ts.len(),
                        jv_seq(decls@) == ts@.subrange(0, k as int).map_values(|t: ToolDefinition| function_declaration(t)),
                    decreases ts.len() - k,
                {
                    let d = make_function_declaration(&ts[k]);
                    proof { lemma_jv_seq_push(decls@, d); }
                    decls.push(d);
                    k = k + 1;
                    assert(jv_seq(decls@) =~= ts@.subrange(0, k as int).map_values(|t: ToolDefinition| function_declaration(t)));
                }
                assert(ts@.subrange(0, ts.len() as int) =~= ts@);
                let holder = object1("functionDeclarations", Json::Array(decls));
                let mut arr: Vec<Json> = Vec::new();
                proof { lemma_jv_seq_push(arr@, holder); }
                arr.push(holder);
                assert(jv_seq(arr@) =~= seq![holder@]);
                let e = (to_owned("tools"), Json::Array(arr));
                proof { lemma_jv_entries_push(es@, e); }
                es.push(e);
            }
        },
        None => {},
    }
    let ghost with_tools = jv_entries(es@);
    match parameters {
        Some(p) => match p.as_table() {
            Some(table) => {
                let mut cfg: Vec<(String, Json)> = Vec::new();
                let mut k: usize = 0;
                while k < table.len()
                    invariant
                        k <= table.len(),
                        jv_entries(cfg@) == generation_config(table@, k as nat),
                    decreases table.len() - k,
                {
                    let key = table[k].0.as_str();
                    if str_eq(key, "temperature") || str_eq(key, "topP") || str_eq(key, "topK")
                        || str_eq(key, "candidateCount") || str_eq(key, "maxOutputTokens")
                        || str_eq(key, "stopSequences") {
                        let e = (table[k].0.clone(), table[k].1.to_json());
                        proof { lemma_jv_entries_push(cfg@, e); }
                        cfg.push(e);
                    }
                    k = k + 1;
                }
                if cfg.len() > 0 {
                    let e = (to_owned("generationConfig"), Json::Object(cfg));
                    proof { lemma_jv_entries_push(es@, e); }
                    es.push(e);
                }
            },
            None => {},
        },
        None => {},
    }
    Json::Object(es)
}

/// Builds the request payload for an OpenAI-compatible endpoint.
pub fn build_openai_payload(
    model_name: &str,
    messages: &Vec<ChatMessage>,
    tools: Option<&Vec<ToolDefinition>>,
    parameters: Option<&TomlValue>,
) -> (r: Json)
    ensures
        r@ == openai_payload(model_name@, msgs_view(messages@),
            match tools { Some(t) => Some(t@), None => None },
            match parameters { Some(p) => Some(*p), None => None }),
{
    proof {
        reveal_strlit("model");
        reveal_strlit("messages");
        reveal_strlit("tools");
    }
    let mut es: Vec<(String, Json)> = Vec::new();
    let e0 = (to_owned("model"), jstr(model_name));
    let e1 = (to_owned("messages"), messages_to_json(messages));
    proof {
        lemma_jv_entries_push(es@, e0);
        lemma_jv_entries_push(es@.push(e0), e1);
    }
    es.push(e0);
    es.push(e1);
    match tools {
        Some(ts) => {
            if ts.len() > 0 {
                let mut decls: Vec<Json> = Vec::new();
                let mut k: usize = 0;
                while k < ts.len()
                    invariant
                        k <= ts.len(),
                        jv_seq(decls@) == ts@.subrange(0, k as int).map_values(|t: ToolDefinition| typed_function(t)),
                    decreases ts.len() - k,
                {
                    let d = make_typed_function(&ts[k]);
                    proof { lemma_jv_seq_push(decls@, d); }
                    decls.push(d);
                    k = k + 1;
                    assert(jv_seq(decls@) =~= ts@.subrange(0, k as int).map_values(|t: ToolDefinition| typed_function(t)));
                }
                assert(ts@.subrange(0, ts.len() as int) =~= ts@);
                let e = (to_owned("tools"), Json::Array(decls));
                proof { lemma_jv_entries_push(es@, e); }
                es.push(e);
            }
        },
        None => {},
    }
    let ghost with_tools = jv_entries(es@);
    assert(with_tools =~= openai_base(model_name@, msgs_view(messages@), match tools { Some(t) => Some(t@), None => None }));
    match parameters {
        Some(p) => match p.as_table() {
            Some(table) => {
                let mut k: usize = 0;
                while k < table.len()
                    invariant
                        k <= table.len(),
                        jv_entries(es@) == with_tools + parameter_members(table@, k as nat),
                    decreases table.len() - k,
                {
                    let e = (table[k].0.clone(), table[k].1.to_json());
                    proof { lemma_jv_entries_push(es@, e); }
                    es.push(e);
                    k = k + 1;
                    assert(jv_entries(es@) =~= with_tools + parameter_members(table@, k as nat));
                }
            },
            None => {},
        },
        None => {},
    }
    proof {
        if !(parameters matches Some(p) && *p matches TomlValue::Table(_)) {
            assert(jv_entries(es@) =~= with_tools);
        }
    }
    Json::Object(es)
}

} // verus!

verus! {

/// `SystemTime::now()` of std read as nanoseconds since the Unix epoch
/// (zero for a clock set before it). Nothing is promised of the reading.
#[verifier::external_body]
fn clock_nanos() -> u128 {
    std::time::SystemTime::now().duration_since(std::time::UNIX_EPOCH).map(|d| d.as_nanos()).unwrap_or(0)
}

/// Whether `id` is `prefix`, an underscore and the decimal text of a number.
pub open spec fn generated_from(id: Seq<char>, prefix: Seq<char>) -> bool {
    exists|n: nat| id == prefix + "_"@ + decimal(n)
}

/// `prefix`, an underscore and the decimal text of `stamp`.
pub fn format_id(prefix: &str, stamp: u128) -> (r: String)
    ensures
        r@ == prefix@ + "_"@ + decimal(stamp as nat),
{
    let mut r = to_owned(prefix);
    push_str(&mut r, "_");
    let d = u128_to_decimal(stamp);
    push_str(&mut r, d.as_str());
    r
}

/// A fairly unique identifier: the prefix, an underscore and the current
/// time in nanoseconds.
pub fn generate_id(prefix: &str) -> (r: String)
    ensures
        generated_from(r@, prefix@),
{
    let stamp = clock_nanos();
    let r = format_id(prefix, stamp);
    assert(r@ == prefix@ + "_"@ + decimal(stamp as nat));
    r
}

/// Whether a safety rating's severity starts with `HIGH`.
pub open spec fn is_high_severity(r: JsonV) -> bool {
    match get_str(r, "severity"@) {
        Some(s) => has_prefix(s, "HIGH"@),
        None => false,
    }
}

/// The high-severity ratings among the first `n`.
pub open spec fn high_ratings(rs: Seq<JsonV>, n: nat) -> Seq<JsonV>
    decreases n,
{
    if n == 0 {
        Seq::empty()
    } else if is_high_severity(rs[n - 1]) {
        high_ratings(rs, (n - 1) as nat).push(rs[n - 1])
    } else {
        high_ratings(rs, (n - 1) as nat)
    }
}

/// What `format!("{:?}", v)` writes for the `serde_json::Value` that a value
/// converts to: serde_json's `Debug` of a value (`Object {"k": String("v")}`
/// and so on).
pub uninterp spec fn value_debug(v: JsonV) -> Seq<char>;

/// serde_json's `Debug` of a value; the result is named `value_debug`.
#[verifier::external_body]
fn debug_of_value(v: &Json) -> (r: String)
    ensures
        r@ == value_debug(v@),
{
    format!("{:?}", crate::json_text::value_of_json(v))
}

/// The ratings as the error shows them: each one's `Debug` form, separated
/// by a comma and a space.
pub open spec fn ratings_text(rs: Seq<JsonV>) -> Seq<char>
    decreases rs.len(),
{
    if rs.len() == 0 {
        Seq::empty()
    } else if rs.len() == 1 {
        value_debug(rs[0])
    } else {
        ratings_text(rs.drop_last()) + ", "@ + value_debug(rs.last())
    }
}

/// Why Gemini's prompt feedback says the request was blocked, if it does.
pub enum BlockCause {
    Reason(Seq<char>),
    Ratings(Seq<JsonV>),
}

/// The block reason of the prompt feedback, or else its high-severity
/// safety ratings, if any.
pub open spec fn block_cause(raw: JsonV) -> Option<BlockCause> {
    match get(raw, "promptFeedback"@) {
        Some(fb) => match get_str(fb, "blockReason"@) {
            Some(r) => Some(BlockCause::Reason(r)),
            None => match get_array(fb, "safetyRatings"@) {
                Some(rs) => {
                    let h = high_ratings(rs, rs.len());
                    if h.len() > 0 { Some(BlockCause::Ratings(h)) } else { None }
                },
                None => None,
            },
        },
        None => None,
    }
}

/// The error for an answer without a `candidates` array.
pub open spec fn missing_candidates_message(raw: JsonV, body: Seq<char>) -> Seq<char> {
    match block_cause(raw) {
        Some(BlockCause::Reason(r)) => "Gemini request blocked due to: "@ + r,
        Some(BlockCause::Ratings(h)) => "Gemini request blocked due to safety ratings: "@ + ratings_text(h),
        None => "Failed to extract choices from Gemini response structure (no candidates found). Raw Response: "@ + body,
    }
}

/// The error for an answer whose `candidates` array is empty.
pub open spec fn empty_candidates_message(raw: JsonV, body: Seq<char>) -> Seq<char> {
    match block_cause(raw) {
        Some(BlockCause::Reason(r)) => "Gemini request blocked due to: "@ + r + " (empty candidates)"@,
        Some(BlockCause::Ratings(h)) =>
            "Gemini request blocked due to safety ratings: "@ + ratings_text(h) + " (empty candidates)"@,
        None => "Failed to extract choices from Gemini response structure (candidates array was empty). Raw Response: "@ + body,
    }
}

/// The error for a candidate that finished for another reason than
/// `STOP`, `MAX_TOKENS` or `TOOL_CALLS`.
pub open spec fn non_standard_finish_message(raw: JsonV, finish: Seq<char>, body: Seq<char>) -> Seq<char> {
    match block_cause(raw) {
        Some(BlockCause::Reason(r)) =>
            "Gemini request blocked due to: "@ + r + " (finishReason: "@ + finish + ")"@,
        Some(BlockCause::Ratings(h)) =>
            "Gemini request blocked due to safety ratings: "@ + ratings_text(h) + " (finishReason: "@ + finish + ")"@,
        None => "Gemini response candidate indicates non-standard completion (finishReason: "@ + finish
            + "). Raw Response: "@ + body,
    }
}

/// Whether a finish reason is one of the three normal ones.
pub open spec fn is_standard_finish(f: Seq<char>) -> bool {
    f == "STOP"@ || f == "MAX_TOKENS"@ || f == "TOOL_CALLS"@
}

/// The text of the first `n` parts: the concatenation of their `text` members.
pub open spec fn parts_text(parts: Seq<JsonV>, n: nat) -> Seq<char>
    decreases n,
{
    if n == 0 {
        Seq::empty()
    } else {
        match get_str(parts[n - 1], "text"@) {
            Some(t) => parts_text(parts, (n - 1) as nat) + t,
            None => parts_text(parts, (n - 1) as nat),
        }
    }
}

/// The tool calls of the first `n` parts, each with an id prefix in place of
/// its id: the given one, or else `call_<name>`.
pub open spec fn parts_calls(parts: Seq<JsonV>, n: nat, prefix: Option<Seq<char>>) -> Seq<ToolCallV>
    decreases n,
{
    if n == 0 {
        Seq::empty()
    } else {
        let prev = parts_calls(parts, (n - 1) as nat, prefix);
        let p = parts[n - 1];
        match get_str(p, "text"@) {
            Some(_) => prev,
            None => match get(p, "functionCall"@) {
                Some(fc) => match (get_str(fc, "name"@), get(fc, "args"@)) {
                    (Some(name), Some(args)) => prev.push(ToolCallV {
                        id: match prefix { Some(x) => x, None => "call_"@ + name },
                        call_type: "function"@,
                        name: name,
                        arguments: json_text(args),
                    }),
                    _ => prev,
                },
                None => prev,
            },
        }
    }
}

/// The text of an optional string slice.
pub open spec fn opt_text(o: Option<&str>) -> Option<Seq<char>> {
    match o {
        Some(t) => Some(t@),
        None => None,
    }
}

/// The role of a candidate's content, or the default role where it names none.
pub open spec fn content_role(content: JsonV, default_role: Option<Seq<char>>) -> Option<Seq<char>> {
    match get_str(content, "role"@) {
        Some(r) => Some(r),
        None => default_role,
    }
}

/// The choice a standard candidate gives, with tool call id prefixes (the
/// given one, or else `call_<name>`) in place of the ids, if its content has
/// parts and a role (or there is a default role).
pub open spec fn candidate_choice(c: JsonV, finish: Seq<char>, prefix: Option<Seq<char>>,
    default_role: Option<Seq<char>>) -> Option<ChoiceV>
{
    match get(c, "content"@) {
        Some(content) => match (content_role(content, default_role), get_array(content, "parts"@)) {
            (Some(role), Some(parts)) => {
                let text = parts_text(parts, parts.len());
                let calls = parts_calls(parts, parts.len(), prefix);
                Some(ChoiceV {
                    index: 0,
                    message: ChatMessageV {
                        role: if role == "model"@ { "assistant"@ } else { role },
                        content: if text.len() > 0 { Some(text) } else { None },
                        tool_calls: if calls.len() > 0 { Some(calls) } else { None },
                        tool_call_id: None,
                    },
                    finish_reason: finish,
                })
            },
            _ => None,
        },
        None => None,
    }
}

/// The finish reason of a candidate, `unknown` where it gives none.
pub open spec fn finish_reason_of(c: JsonV) -> Seq<char> {
    match get_str(c, "finishReason"@) {
        Some(f) => f,
        None => "unknown"@,
    }
}

/// What a Gemini answer reads as: the response, with the id prefix
/// `gemini_resp` and the tool calls' id prefixes in place of the ids, or the
/// error message. Only the first candidate is read.
pub open spec fn gemini_answer(raw: JsonV, body: Seq<char>) -> Result<ApiResponseV, Seq<char>> {
    match get_array(raw, "candidates"@) {
        Some(cs) => if cs.len() == 0 {
            Err(empty_candidates_message(raw, body))
        } else {
            let f = finish_reason_of(cs[0]);
            if !is_standard_finish(f) {
                Err(non_standard_finish_message(raw, f, body))
            } else {
                match candidate_choice(cs[0], f, None, None) {
                    Some(ch) => Ok(ApiResponseV {
                        id: "gemini_resp"@,
                        content: match ch.message.content { Some(t) => t, None => Seq::empty() },
                        finish_reason: f,
                        prompt_tokens: 0,
                        completion_tokens: 0,
                        total_tokens: 0,
                        choices: seq![ch],
                    }),
                    None => Err("Failed to parse/extract choices from Gemini response structure: "@ + body),
                }
            }
        },
        None => Err(missing_candidates_message(raw, body)),
    }
}

/// Whether a tool call is its template with a generated id.
pub open spec fn call_instance(a: ToolCallV, t: ToolCallV) -> bool {
    generated_from(a.id, t.id) && a.call_type == t.call_type && a.name == t.name && a.arguments == t.arguments
}

/// Whether a choice is its template with generated tool call ids.
pub open spec fn choice_instance(a: ChoiceV, t: ChoiceV) -> bool {
    &&& a.index == t.index
    &&& a.finish_reason == t.finish_reason
    &&& a.message.role == t.message.role
    &&& a.message.content == t.message.content
    &&& a.message.tool_call_id == t.message.tool_call_id
    &&& match (a.message.tool_calls, t.message.tool_calls) {
        (None, None) => true,
        (Some(x), Some(y)) => x.len() == y.len() && forall|i: int| 0 <= i < x.len() ==> call_instance(#[trigger] x[i], y[i]),
        _ => false,
    }
}

/// Whether a response is its template with generated ids.
pub open spec fn response_instance(a: ApiResponseV, t: ApiResponseV) -> bool {
    &&& generated_from(a.id, t.id)
    &&& a.content == t.content
    &&& a.finish_reason == t.finish_reason
    &&& a.prompt_tokens == t.prompt_tokens
    &&& a.completion_tokens == t.completion_tokens
    &&& a.total_tokens == t.total_tokens
    &&& a.choices.len() == t.choices.len()
    &&& forall|i: int| 0 <= i < a.choices.len() ==> choice_instance(#[trigger] a.choices[i], t.choices[i])
}

/// The text of the high-severity ratings, for an error message.
fn high_ratings_text(rs: &Vec<Json>) -> (r: Option<String>)
    ensures
        ({
            let h = high_ratings(jv_seq(rs@), rs@.len());
            if h.len() > 0 { r is Some && r->0@ == ratings_text(h) } else { r is None }
        }),
{
    proof {
        reveal_strlit("severity");
        reveal_strlit("HIGH");
        reveal_strlit(", ");
        lemma_jv_seq_len(rs@);
    }
    let mut text = String::new();
    let mut count: usize = 0;
    let mut i: usize = 0;
    while i < rs.len()
        invariant
            i <= rs.len(),
            jv_seq(rs@).len() == rs.len(),
            forall|j: int| 0 <= j < rs.len() ==> #[trigger] jv_seq(rs@)[j] == jv(rs@[j]),
            count == high_ratings(jv_seq(rs@), i as nat).len(),
            count <= i,
            text@ == ratings_text(high_ratings(jv_seq(rs@), i as nat)),
        decreases rs.len() - i,
    {
        let high = match rs[i].get("severity") {
            Some(s) => match s.as_str() {
                Some(t) => starts_with(t, "HIGH"),
                None => false,
            },
            None => false,
        };
        assert(high == is_high_severity(jv_seq(rs@)[i as int]));
        if high {
            let ghost h = high_ratings(jv_seq(rs@), i as nat);
            if count > 0 {
                push_str(&mut text, ", ");
            }
            let d = debug_of_value(&rs[i]);
            push_str(&mut text, d.as_str());
            proof {
                let h2 = h.push(jv_seq(rs@)[i as int]);
                assert(h2.drop_last() =~= h);
                if count == 0 {
                    assert(h2.len() == 1);
                    assert(text@ =~= value_debug(h2[0]));
                }
            }
            count = count + 1;
        }
        i = i + 1;
    }
    if count > 0 {
        Some(text)
    } else {
        None
    }
}

/// The text of a block cause.
enum BlockText {
    Reason(String),
    Ratings(String),
}

/// What blocked the request, per the prompt feedback: the block reason, or
/// else the text of the high-severity safety ratings.
fn feedback_block(raw: &Json) -> (r: Option<BlockText>)
    ensures
        match block_cause(raw@) {
            Some(BlockCause::Reason(x)) => r matches Some(BlockText::Reason(t)) && t@ == x,
            Some(BlockCause::Ratings(h)) => r matches Some(BlockText::Ratings(t)) && t@ == ratings_text(h),
            None => r is None,
        },
{
    proof {
        reveal_strlit("promptFeedback");
        reveal_strlit("blockReason");
        reveal_strlit("safetyRatings");
    }
    match raw.get("promptFeedback") {
        Some(fb) => {
            match fb.get("blockReason") {
                Some(br) => match br.as_str() {
                    Some(reason) => { return Some(BlockText::Reason(to_owned(reason))); },
                    None => {},
                },
                None => {},
            }
            match fb.get("safetyRatings") {
                Some(sr) => match sr.as_array() {
                    Some(rs) => match { proof { lemma_jv_seq_len(rs@); } high_ratings_text(rs) } {
                        Some(t) => Some(BlockText::Ratings(t)),
                        None => None,
                    },
                    None => None,
                },
                None => None,
            }
        },
        None => None,
    }
}

/// The error for a Gemini answer whose `candidates` array is empty.
pub fn handle_empty_candidates(raw: &Json, response_body: &str) -> (r: Result<ApiResponse, String>)
    ensures
        r matches Err(e) && e@ == empty_candidates_message(raw@, response_body@),
{
    let msg = match feedback_block(raw) {
        Some(BlockText::Reason(reason)) => {
            let a = concat("Gemini request blocked due to: ", reason.as_str());
            concat(a.as_str(), " (empty candidates)")
        },
        Some(BlockText::Ratings(ratings)) => {
            let a = concat("Gemini request blocked due to safety ratings: ", ratings.as_str());
            concat(a.as_str(), " (empty candidates)")
        },
        None => concat(
            "Failed to extract choices from Gemini response structure (candidates array was empty). Raw Response: ",
            response_body,
        ),
    };
    Err(msg)
}

/// The error for a Gemini candidate that finished abnormally.
pub fn handle_non_standard_finish_reason(raw: &Json, finish_reason: &str, response_body: &str)
    -> (r: Result<ApiResponse, String>)
    ensures
        r matches Err(e) && e@ == non_standard_finish_message(raw@, finish_reason@, response_body@),
{
    let msg = match feedback_block(raw) {
        Some(BlockText::Reason(reason)) => {
            let a = concat("Gemini request blocked due to: ", reason.as_str());
            let b = concat(a.as_str(), " (finishReason: ");
            let c = concat(b.as_str(), finish_reason);
            concat(c.as_str(), ")")
        },
        Some(BlockText::Ratings(ratings)) => {
            let a = concat("Gemini request blocked due to safety ratings: ", ratings.as_str());
            let b = concat(a.as_str(), " (finishReason: ");
            let c = concat(b.as_str(), finish_reason);
            concat(c.as_str(), ")")
        },
        None => {
            let a = concat("Gemini response candidate indicates non-standard completion (finishReason: ", finish_reason);
            let b = concat(a.as_str(), "). Raw Response: ");
            concat(b.as_str(), response_body)
        },
    };
    Err(msg)
}

/// The error for a Gemini answer without a `candidates` array.
fn missing_candidates_error(raw: &Json, response_body: &str) -> (r: String)
    ensures
        r@ == missing_candidates_message(raw@, response_body@),
{
    match feedback_block(raw) {
        Some(BlockText::Reason(reason)) => concat("Gemini request blocked due to: ", reason.as_str()),
        Some(BlockText::Ratings(ratings)) => concat("Gemini request blocked due to safety ratings: ", ratings.as_str()),
        None => concat(
            "Failed to extract choices from Gemini response structure (no candidates found). Raw Response: ",
            response_body,
        ),
    }
}

} // verus!

verus! {

/// Whether a finish reason is one of the three normal ones.
pub(crate) fn standard_finish(f: &str) -> (r: bool)
    ensures
        r == is_standard_finish(f@),
{
    str_eq(f, "STOP") || str_eq(f, "MAX_TOKENS") || str_eq(f, "TOOL_CALLS")
}

/// The choice that a standard Gemini candidate gives, if its content has
/// parts and a role (or there is a default role); each tool call gets a
/// freshly generated id, from the given prefix or else `call_<name>`.
pub fn parse_candidate(c: &Json, finish: &str, prefix: Option<&str>, default_role: Option<&str>) -> (r: Option<Choice>)
    ensures
        match candidate_choice(c@, finish@, opt_text(prefix), opt_text(default_role)) {
            Some(t) => r is Some && choice_instance(r->0@, t),
            None => r is None,
        },
{
    proof {
        reveal_strlit("content");
        reveal_strlit("role");
        reveal_strlit("parts");
        reveal_strlit("text");
        reveal_strlit("functionCall");
        reveal_strlit("name");
        reveal_strlit("args");
        reveal_strlit("call_");
        reveal_strlit("function");
        reveal_strlit("model");
        reveal_strlit("assistant");
    }
    let content = match c.get("content") {
        Some(x) => x,
        None => { return None; },
    };
    let role = match content.get("role") {
        Some(x) => match x.as_str() {
            Some(s) => s,
            None => match default_role {
                Some(d) => d,
                None => { return None; },
            },
        },
        None => match default_role {
            Some(d) => d,
            None => { return None; },
        },
    };
    let parts = match content.get("parts") {
        Some(x) => match x.as_array() {
            Some(a) => a,
            None => { return None; },
        },
        None => { return None; },
    };
    proof { lemma_jv_seq_len(parts@); }
    let ghost ps = jv_seq(parts@);
    let mut text = String::new();
    let mut calls: Vec<ToolCall> = Vec::new();
    let mut i: usize = 0;
    while i < parts.len()
        invariant
            i <= parts.len(),
            ps == jv_seq(parts@),
            ps.len() == parts.len(),
            forall|j: int| 0 <= j < parts.len() ==> #[trigger] ps[j] == jv(parts@[j]),
            text@ == parts_text(ps, i as nat),
            calls.len() == parts_calls(ps, i as nat, opt_text(prefix)).len(),
            forall|j: int| 0 <= j < calls.len() ==> call_instance(#[trigger] calls@[j]@, parts_calls(ps, i as nat, opt_text(prefix))[j]),
        decreases parts.len() - i,
    {
        let p = &parts[i];
        let ghost before = parts_calls(ps, i as nat, opt_text(prefix));
        match p.get("text") {
            Some(t) => match t.as_str() {
                Some(s) => {
                    push_str(&mut text, s);
                    i = i + 1;
                    continue;
                },
                None => {},
            },
            None => {},
        }
        match p.get("functionCall") {
            Some(fc) => {
                let name = match fc.get("name") {
                    Some(n) => n.as_str(),
                    None => None,
                };
                match (name, fc.get("args")) {
                    (Some(name), Some(args)) => {
                        let id_prefix = match prefix {
                            Some(x) => to_owned(x),
                            None => concat("call_", name),
                        };
                        let call = ToolCall {
                            id: generate_id(id_prefix.as_str()),
                            call_type: to_owned("function"),
                            function: crate::models::ToolFunction {
                                name: to_owned(name),
                                arguments: to_json_text(args),
                            },
                        };
                        calls.push(call);
                        proof {
                            let after = parts_calls(ps, (i + 1) as nat, opt_text(prefix));
                            assert(after == before.push(after.last()));
                            assert forall|j: int| 0 <= j < calls.len() implies call_instance(#[trigger] calls@[j]@, after[j]) by {
                                if j < calls.len() - 1 {
                                    assert(after[j] == before[j]);
                                }
                            }
                        }
                    },
                    _ => {},
                }
            },
            None => {},
        }
        i = i + 1;
    }
    let ghost t_calls = parts_calls(ps, ps.len(), opt_text(prefix));
    let message_role = if str_eq(role, "model") { to_owned("assistant") } else { to_owned(role) };
    let msg_content = if text.unicode_len() > 0 { Some(text) } else { None };
    let msg_calls = if calls.len() > 0 { Some(calls) } else { None };
    let ch = Choice {
        index: 0,
        message: ChatMessage {
            role: message_role,
            content: msg_content,
            tool_calls: msg_calls,
            tool_call_id: None,
        },
        finish_reason: to_owned(finish),
    };
    proof {
        let t = candidate_choice(c@, finish@, opt_text(prefix), opt_text(default_role)).unwrap();
        if ch.message.tool_calls is Some {
            let v = ch.message.tool_calls->0;
            assert(calls_view(v@).len() == t_calls.len());
            assert forall|j: int| 0 <= j < calls_view(v@).len() implies
                call_instance(#[trigger] calls_view(v@)[j], t_calls[j]) by {}
        }
    }
    Some(ch)
}

/// Reads a Gemini answer: the first candidate's text and tool calls, or the
/// reason the answer holds none. The response and each tool call get a
/// freshly generated id.
pub fn parse_gemini_response(raw: &Json, response_body: &str) -> (r: Result<ApiResponse, String>)
    ensures
        match gemini_answer(raw@, response_body@) {
            Ok(t) => r is Ok && response_instance(r->Ok_0@, t),
            Err(m) => r matches Err(e) && e@ == m,
        },
{
    proof {
        reveal_strlit("candidates");
        reveal_strlit("finishReason");
        reveal_strlit("unknown");
        reveal_strlit("gemini_resp");
    }
    let cands = match raw.get("candidates") {
        Some(x) => x.as_array(),
        None => None,
    };
    match cands {
        Some(cs) => {
            proof { lemma_jv_seq_len(cs@); }
            if cs.len() == 0 {
                return handle_empty_candidates(raw, response_body);
            }
            let c = &cs[0];
            let finish = match c.get("finishReason") {
                Some(f) => match f.as_str() {
                    Some(s) => to_owned(s),
                    None => to_owned("unknown"),
                },
                None => to_owned("unknown"),
            };
            assert(finish@ == finish_reason_of(jv_seq(cs@)[0]));
            if !standard_finish(finish.as_str()) {
                return handle_non_standard_finish_reason(raw, finish.as_str(), response_body);
            }
            match parse_candidate(c, finish.as_str(), None, None) {
                Some(ch) => {
                    let content = match &ch.message.content {
                        Some(t) => t.clone(),
                        None => String::new(),
                    };
                    let fr = ch.finish_reason.clone();
                    let mut choices: Vec<Choice> = Vec::new();
                    choices.push(ch);
                    let resp = ApiResponse {
                        id: generate_id("gemini_resp"),
                        content: content,
                        finish_reason: fr,
                        prompt_tokens: 0,
                        completion_tokens: 0,
                        total_tokens: 0,
                        choices: choices,
                    };
                    proof {
                        let t = gemini_answer(raw@, response_body@)->Ok_0;
                        assert(resp@.choices.len() == 1);
                        assert(resp@.choices[0] == choices@[0]@);
                        assert forall|i: int| 0 <= i < resp@.choices.len() implies
                            choice_instance(#[trigger] resp@.choices[i], t.choices[i]) by {}
                    }
                    Ok(resp)
                },
                None => Err(concat("Failed to parse/extract choices from Gemini response structure: ", response_body)),
            }
        },
        None => Err(missing_candidates_error(raw, response_body)),
    }
}

/// Reads the body of a successful Gemini answer: its JSON as `serde_json`
/// reads it, then the answer (see `gemini_answer`); a body that is no JSON
/// is refused.
pub fn read_gemini_reply(response_body: &str) -> (r: Result<ApiResponse, String>)
    ensures
        match json_parsed(response_body@) {
            None => r matches Err(e) && e@ == "Failed to parse successful Gemini API response JSON: "@ + response_body@,
            Some(raw) => match gemini_answer(raw, response_body@) {
                Ok(t) => r is Ok && response_instance(r->Ok_0@, t),
                Err(m) => r matches Err(e) && e@ == m,
            },
        },
{
    match parse_json_text(response_body) {
        Some(raw) => parse_gemini_response(&raw, response_body),
        None => Err(concat("Failed to parse successful Gemini API response JSON: ", response_body)),
    }
}

/// The model parameters that reach `generationConfig` are the ones with a
/// generation key, each with its value, in order.
proof fn lemma_generation_config(es: Seq<(String, TomlValue)>, n: nat)
    requires
        n <= es.len(),
    ensures
        forall|i: int| 0 <= i < n && is_generation_key(#[trigger] es[i].0@) ==>
            generation_config(es, n).contains((es[i].0@, toml_json(es[i].1))),
        forall|k: int| 0 <= k < generation_config(es, n).len() ==>
            is_generation_key(#[trigger] generation_config(es, n)[k].0),
    decreases n,
{
    if n > 0 {
        lemma_generation_config(es, (n - 1) as nat);
        let prev = generation_config(es, (n - 1) as nat);
        let cur = generation_config(es, n);
        assert forall|i: int| 0 <= i < n && is_generation_key(#[trigger] es[i].0@) implies
            cur.contains((es[i].0@, toml_json(es[i].1))) by {
            if i < n - 1 {
                let k = choose|k: int| 0 <= k < prev.len() && prev[k] == (es[i].0@, toml_json(es[i].1));
                assert(cur[k] == prev[k]);
            } else {
                assert(cur[cur.len() - 1] == (es[i].0@, toml_json(es[i].1)));
            }
        }
        assert forall|k: int| 0 <= k < cur.len() implies is_generation_key(#[trigger] cur[k].0) by {
            if k < prev.len() {
                assert(cur[k] == prev[k]);
            }
        }
    }
}

/// Every model parameter named `temperature`, `topP`, `topK`,
/// `candidateCount`, `maxOutputTokens` or `stopSequences` reaches the Gemini
/// payload's `generationConfig`, the payload's last member, with its value;
/// no parameter of another name does.
pub proof fn law_generation_parameters_reach_the_config(ms: Seq<ChatMessageV>, ps: Seq<MessageJsonV>,
    tools: Option<Seq<ToolDefinition>>, es: Seq<(String, TomlValue)>, params: Vec<(String, TomlValue)>, i: int)
    requires
        params@ == es,
        0 <= i < es.len(),
        es[i].0@ == "temperature"@ || es[i].0@ == "topP"@ || es[i].0@ == "topK"@ || es[i].0@ == "candidateCount"@
            || es[i].0@ == "maxOutputTokens"@ || es[i].0@ == "stopSequences"@,
    ensures
        gemini_payload(ms, ps, tools, Some(TomlValue::Table(params))) matches JsonV::Object(m)
            && m.len() > 0 && m.last().0 == "generationConfig"@
            && (m.last().1 matches JsonV::Object(cfg)
                && cfg.contains((es[i].0@, toml_json(es[i].1)))
                && forall|k: int| 0 <= k < cfg.len() ==> {
                    let key = (#[trigger] cfg[k]).0;
                    key == "temperature"@ || key == "topP"@ || key == "topK"@ || key == "candidateCount"@
                        || key == "maxOutputTokens"@ || key == "stopSequences"@
                }),
{
    lemma_generation_config(es, es.len());
    let cfg = generation_config(es, es.len());
    assert(is_generation_key(es[i].0@));
    assert(cfg.contains((es[i].0@, toml_json(es[i].1))));
    assert(cfg.len() > 0);
    assert forall|k: int| 0 <= k < cfg.len() implies {
        let key = (#[trigger] cfg[k]).0;
        key == "temperature"@ || key == "topP"@ || key == "topK"@ || key == "candidateCount"@
            || key == "maxOutputTokens"@ || key == "stopSequences"@
    } by {
        assert(is_generation_key(cfg[k].0));
    }
}

/// A Gemini answer whose first candidate finished normally (`STOP`,
/// `MAX_TOKENS` or `TOOL_CALLS`) and holds content with a role and parts is
/// read: one choice, the candidate's finish reason, and the parts' joined
/// text as content. A candidate that finished for any other reason is
/// refused.
pub proof fn law_gemini_finish_reasons(raw: JsonV, body: Seq<char>, cs: Seq<JsonV>, f: Seq<char>,
    content: JsonV, parts: Seq<JsonV>)
    requires
        get_array(raw, "candidates"@) == Some(cs),
        cs.len() > 0,
        get_str(cs[0], "finishReason"@) == Some(f),
    ensures
        (f == "STOP"@ || f == "MAX_TOKENS"@ || f == "TOOL_CALLS"@)
            && get(cs[0], "content"@) == Some(content) && get_str(content, "role"@) is Some
            && get_array(content, "parts"@) == Some(parts)
            ==> (gemini_answer(raw, body) matches Ok(a) && a.finish_reason == f && a.choices.len() == 1
                && a.content == parts_text(parts, parts.len())),
        !(f == "STOP"@ || f == "MAX_TOKENS"@ || f == "TOOL_CALLS"@) ==> gemini_answer(raw, body) is Err,
{
}

} // verus!

verus! {

/// A parsed endpoint URL: its serialisation and its host.
#[derive(Debug)]
pub struct EndpointUrl {
    pub text: String,
    pub host: Option<String>,
}

/// What `reqwest::Url::parse` gives for a string, taken apart: the URL's
/// serialisation and its host, or nothing where the string is no URL.
pub uninterp spec fn url_parse(s: Seq<char>) -> Option<(Seq<char>, Option<Seq<char>>)>;

/// The serialisation of the URL `s` parses to, after
/// `query_pairs_mut().append_pair(key, value)`.
pub uninterp spec fn url_with_pair(s: Seq<char>, key: Seq<char>, value: Seq<char>) -> Seq<char>;

/// `reqwest::Url::parse`, then `as_str` and `host_str` of the URL.
#[verifier::external_body]
fn parse_url(s: &str) -> (r: Option<EndpointUrl>)
    ensures
        match url_parse(s@) {
            Some((text, host)) => r matches Some(u) && u.text@ == text && opt_str(u.host) == host,
            None => r is None,
        },
{
    match reqwest::Url::parse(s) {
        Ok(u) => Some(EndpointUrl { text: u.as_str().to_string(), host: u.host_str().map(|h| h.to_string()) }),
        Err(_) => None,
    }
}

/// `reqwest::Url::parse`, then `query_pairs_mut().append_pair(key, value)`
/// and the serialisation of the result.
#[verifier::external_body]
fn append_query_pair(s: &str, key: &str, value: &str) -> (r: Option<String>)
    ensures
        match url_parse(s@) {
            Some(_) => r matches Some(t) && t@ == url_with_pair(s@, key@, value@),
            None => r is None,
        },
{
    match reqwest::Url::parse(s) {
        Ok(mut u) => {
            u.query_pairs_mut().append_pair(key, value);
            Some(u.as_str().to_string())
        },
        Err(_) => None,
    }
}

/// Where the API key goes in a request.
#[derive(Debug, Clone, Copy, PartialEq, Eq, Structural)]
pub enum KeyPlacement {
    /// As the `key` query parameter (Google endpoints).
    QueryParameter,
    /// As a bearer token in the `Authorization` header.
    BearerHeader,
    /// Nowhere: the key is empty.
    Omitted,
}

/// An endpoint ready for a request: the URL to call, whether it is a
/// Google (Gemini) endpoint, and where the key went.
#[derive(Debug)]
pub struct PreparedEndpoint {
    pub url: String,
    pub is_google_api: bool,
    pub key_placement: KeyPlacement,
}

/// Whether a host is one of Google's APIs.
pub open spec fn is_google_host(host: Option<Seq<char>>) -> bool {
    match host {
        Some(h) => has_substring(h, "googleapis.com"@),
        None => false,
    }
}

/// Where the key goes, given the kind of endpoint.
pub open spec fn key_placement(is_google: bool, api_key: Seq<char>) -> KeyPlacement {
    if api_key.len() == 0 {
        KeyPlacement::Omitted
    } else if is_google {
        KeyPlacement::QueryParameter
    } else {
        KeyPlacement::BearerHeader
    }
}

/// Parses an endpoint and places the API key: Google endpoints take a
/// non-empty key as the `key` query parameter, others as a bearer token.
pub fn prepare_endpoint(endpoint_str: &str, api_key: &str) -> (r: Result<PreparedEndpoint, String>)
    ensures
        match url_parse(endpoint_str@) {
            None => r matches Err(e) && e@ == "Failed to parse endpoint URL: "@ + endpoint_str@,
            Some((text, host)) => r matches Ok(p)
                && p.is_google_api == is_google_host(host)
                && p.key_placement == key_placement(is_google_host(host), api_key@)
                && p.url@ == (if p.key_placement == KeyPlacement::QueryParameter {
                    url_with_pair(endpoint_str@, "key"@, api_key@)
                } else {
                    text
                }),
        },
{
    proof { reveal_strlit("googleapis.com"); reveal_strlit("key"); }
    let parsed = match parse_url(endpoint_str) {
        Some(u) => u,
        None => { return Err(concat("Failed to parse endpoint URL: ", endpoint_str)); },
    };
    let is_google = match &parsed.host {
        Some(h) => contains(h.as_str(), "googleapis.com"),
        None => false,
    };
    let placement = if api_key.unicode_len() == 0 {
        KeyPlacement::Omitted
    } else if is_google {
        KeyPlacement::QueryParameter
    } else {
        KeyPlacement::BearerHeader
    };
    let url = if placement == KeyPlacement::QueryParameter {
        match append_query_pair(endpoint_str, "key", api_key) {
            Some(t) => t,
            None => { return Err(concat("Failed to parse endpoint URL: ", endpoint_str)); },
        }
    } else {
        parsed.text
    };
    Ok(PreparedEndpoint { url, is_google_api: is_google, key_placement: placement })
}

/// The headers of a request as the log shows them: `{"name": "value", ...}`
/// without the `authorization` header.
pub open spec fn headers_log_text(hs: Seq<(Seq<char>, Seq<char>)>) -> Seq<char> {
    seq!['{'] + header_items(hs, hs.len()) + seq!['}']
}

/// The logged items of the first `n` headers.
pub open spec fn header_items(hs: Seq<(Seq<char>, Seq<char>)>, n: nat) -> Seq<char>
    decreases n,
{
    if n == 0 {
        Seq::empty()
    } else {
        let prev = header_items(hs, (n - 1) as nat);
        if hs[n - 1].0 == "authorization"@ {
            prev
        } else {
            let item = seq!['"'] + hs[n - 1].0 + "\": \""@ + hs[n - 1].1 + seq!['"'];
            if prev.len() > 0 { prev + ", "@ + item } else { item }
        }
    }
}

/// The views of header pairs.
pub open spec fn header_pairs(hs: Seq<(String, String)>) -> Seq<(Seq<char>, Seq<char>)> {
    hs.map_values(|h: (String, String)| (h.0@, h.1@))
}

/// Formats headers for the log, leaving out the `authorization` header.
/// Names are as the request holds them (lower case); values that are not
/// visible ASCII come as `<invalid header value>`.
pub fn format_headers_for_log(headers: &Vec<(String, String)>) -> (r: String)
    ensures
        r@ == headers_log_text(header_pairs(headers@)),
{
    proof { reveal_strlit("authorization"); reveal_strlit("\": \""); reveal_strlit(", "); }
    let ghost hs = header_pairs(headers@);
    let mut items = String::new();
    let mut i: usize = 0;
    while i < headers.len()
        invariant
            i <= headers.len(),
            hs == header_pairs(headers@),
            items@ == header_items(hs, i as nat),
        decreases headers.len() - i,
    {
        if !str_eq(headers[i].0.as_str(), "authorization") {
            if items.unicode_len() > 0 {
                push_str(&mut items, ", ");
            }
            push_str(&mut items, "\"");
            push_str(&mut items, headers[i].0.as_str());
            push_str(&mut items, "\": \"");
            push_str(&mut items, headers[i].1.as_str());
            push_str(&mut items, "\"");
            proof { reveal_strlit("\""); }
        }
        i = i + 1;
        assert(items@ =~= header_items(hs, i as nat));
    }
    let mut r = String::new();
    push_str(&mut r, "{");
    push_str(&mut r, items.as_str());
    push_str(&mut r, "}");
    proof { reveal_strlit("{"); reveal_strlit("}"); }
    assert(r@ =~= headers_log_text(hs));
    r
}

/// The error for an answer whose HTTP status is not a success.
pub open spec fn status_error_message(status: Seq<char>, endpoint: Seq<char>, body: Seq<char>) -> Seq<char> {
    "API request failed with status "@ + status + ". Endpoint: "@ + endpoint + ". Response: "@ + body
        + "\nCheck API key, endpoint, model name, and request payload."@
}

/// Accepts an answer with a success status; otherwise the error names the
/// status, the endpoint and the body.
pub fn check_status(success: bool, status: &str, endpoint: &str, body: &str) -> (r: Result<(), String>)
    ensures
        success ==> r is Ok,
        !success ==> (r matches Err(e) && e@ == status_error_message(status@, endpoint@, body@)),
{
    if success {
        Ok(())
    } else {
        let mut e = to_owned("API request failed with status ");
        push_str(&mut e, status);
        push_str(&mut e, ". Endpoint: ");
        push_str(&mut e, endpoint);
        push_str(&mut e, ". Response: ");
        push_str(&mut e, body);
        push_str(&mut e, "\nCheck API key, endpoint, model name, and request payload.");
        Err(e)
    }
}

} // verus!
