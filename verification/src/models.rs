//! Chat messages, tool calls, tool definitions and API responses, with their
//! views and the JSON form in which they travel to the chat providers.

use vstd::prelude::*;
use crate::json::{Json, JsonV, jv_seq, jv_entries, jstr, lemma_jv_seq_push, lemma_jv_entries_push};
use crate::text::to_owned;

verus! {

/// The view of an optional string.
pub open spec fn opt_str(o: Option<String>) -> Option<Seq<char>> {
    match o {
        Some(s) => Some(s@),
        None => None,
    }
}

/// The views of a sequence of strings.
pub open spec fn str_seq(s: Seq<String>) -> Seq<Seq<char>>
    decreases s.len(),
{
    if s.len() == 0 {
        Seq::empty()
    } else {
        str_seq(s.drop_last()).push(s.last()@)
    }
}

pub proof fn lemma_str_seq(s: Seq<String>)
    ensures
        str_seq(s).len() == s.len(),
        forall|i: int| 0 <= i < s.len() ==> #[trigger] str_seq(s)[i] == s[i]@,
    decreases s.len(),
{
    if s.len() > 0 {
        lemma_str_seq(s.drop_last());
    }
}

pub proof fn lemma_str_seq_push(s: Seq<String>, x: String)
    ensures
        str_seq(s.push(x)) == str_seq(s).push(x@),
{
    assert(s.push(x).drop_last() =~= s);
}

/// The function a model asks to call, with its arguments as JSON text.
#[derive(Debug)]
pub struct ToolFunction {
    pub name: String,
    pub arguments: String,
}

/// A tool call requested by a model.
#[derive(Debug)]
pub struct ToolCall {
    pub id: String,
    pub call_type: String,
    pub function: ToolFunction,
}

/// One message of a conversation.
#[derive(Debug)]
pub struct ChatMessage {
    pub role: String,
    pub content: Option<String>,
    pub tool_calls: Option<Vec<ToolCall>>,
    pub tool_call_id: Option<String>,
}

/// One alternative of a model's answer.
#[derive(Debug)]
pub struct Choice {
    pub index: u32,
    pub message: ChatMessage,
    pub finish_reason: String,
}

/// A model's answer, with the first choice's content and finish reason and
/// the token counts at the top.
#[derive(Debug)]
pub struct ApiResponse {
    pub id: String,
    pub content: String,
    pub finish_reason: String,
    pub prompt_tokens: u32,
    pub completion_tokens: u32,
    pub total_tokens: u32,
    pub choices: Vec<Choice>,
}

pub struct ToolCallV {
    pub id: Seq<char>,
    pub call_type: Seq<char>,
    pub name: Seq<char>,
    pub arguments: Seq<char>,
}

pub struct ChatMessageV {
    pub role: Seq<char>,
    pub content: Option<Seq<char>>,
    pub tool_calls: Option<Seq<ToolCallV>>,
    pub tool_call_id: Option<Seq<char>>,
}

pub struct ChoiceV {
    pub index: u32,
    pub message: ChatMessageV,
    pub finish_reason: Seq<char>,
}

pub struct ApiResponseV {
    pub id: Seq<char>,
    pub content: Seq<char>,
    pub finish_reason: Seq<char>,
    pub prompt_tokens: u32,
    pub completion_tokens: u32,
    pub total_tokens: u32,
    pub choices: Seq<ChoiceV>,
}

impl View for ToolCall {
    type V = ToolCallV;

    open spec fn view(&self) -> ToolCallV {
        ToolCallV {
            id: self.id@,
            call_type: self.call_type@,
            name: self.function.name@,
            arguments: self.function.arguments@,
        }
    }
}

/// The views of a sequence of tool calls.
pub open spec fn calls_view(s: Seq<ToolCall>) -> Seq<ToolCallV> {
    s.map_values(|c: ToolCall| c@)
}

impl View for ChatMessage {
    type V = ChatMessageV;

    open spec fn view(&self) -> ChatMessageV {
        ChatMessageV {
            role: self.role@,
            content: opt_str(self.content),
            tool_calls: match self.tool_calls {
                Some(v) => Some(calls_view(v@)),
                None => None,
            },
            tool_call_id: opt_str(self.tool_call_id),
        }
    }
}

/// The views of a sequence of messages.
pub open spec fn msgs_view(s: Seq<ChatMessage>) -> Seq<ChatMessageV> {
    s.map_values(|m: ChatMessage| m@)
}

impl View for Choice {
    type V = ChoiceV;

    open spec fn view(&self) -> ChoiceV {
        ChoiceV { index: self.index, message: self.message@, finish_reason: self.finish_reason@ }
    }
}

impl View for ApiResponse {
    type V = ApiResponseV;

    open spec fn view(&self) -> ApiResponseV {
        ApiResponseV {
            id: self.id@,
            content: self.content@,
            finish_reason: self.finish_reason@,
            prompt_tokens: self.prompt_tokens,
            completion_tokens: self.completion_tokens,
            total_tokens: self.total_tokens,
            choices: self.choices@.map_values(|c: Choice| c@),
        }
    }
}

/// The type of a tool parameter.
#[derive(Debug, Clone, Copy, PartialEq, Eq, Structural)]
pub enum ToolParameterType {
    String,
    Integer,
    Number,
    Boolean,
    Array,
    Object,
}

/// One parameter of a tool.
#[derive(Debug)]
pub struct ToolParameter {
    pub param_type: ToolParameterType,
    pub description: String,
    pub enum_values: Option<Vec<String>>,
    pub items: Option<Box<ToolParameter>>,
    pub properties: Option<Vec<(String, ToolParameter)>>,
    pub required: Option<Vec<String>>,
}

/// The parameters of a tool: an object type with named properties.
#[derive(Debug)]
pub struct ToolParametersDefinition {
    pub param_type: String,
    pub properties: Vec<(String, ToolParameter)>,
    pub required: Vec<String>,
}

/// A tool that a model may call.
#[derive(Debug)]
pub struct ToolDefinition {
    pub name: String,
    pub description: String,
    pub parameters: ToolParametersDefinition,
}

/// The JSON name of a parameter type.
pub open spec fn param_type_name(t: ToolParameterType) -> Seq<char> {
    match t {
        ToolParameterType::String => "string"@,
        ToolParameterType::Integer => "integer"@,
        ToolParameterType::Number => "number"@,
        ToolParameterType::Boolean => "boolean"@,
        ToolParameterType::Array => "array"@,
        ToolParameterType::Object => "object"@,
    }
}

/// The JSON name of a parameter type.
pub fn param_type_str(t: ToolParameterType) -> (r: &'static str)
    ensures
        r@ == param_type_name(t),
{
    proof {
        reveal_strlit("string");
        reveal_strlit("integer");
        reveal_strlit("number");
        reveal_strlit("boolean");
        reveal_strlit("array");
        reveal_strlit("object");
    }
    match t {
        ToolParameterType::String => "string",
        ToolParameterType::Integer => "integer",
        ToolParameterType::Number => "number",
        ToolParameterType::Boolean => "boolean",
        ToolParameterType::Array => "array",
        ToolParameterType::Object => "object",
    }
}

/// A JSON array of strings.
pub open spec fn str_array(s: Seq<Seq<char>>) -> JsonV {
    JsonV::Array(s.map_values(|x: Seq<char>| JsonV::String(x)))
}

/// The JSON form of a tool parameter: `type` and `description`, then `enum`,
/// `items`, `properties` and `required` where present.
pub open spec fn param_json(p: ToolParameter) -> JsonV
    decreases p,
{
    let base = seq![
        ("type"@, JsonV::String(param_type_name(p.param_type))),
        ("description"@, JsonV::String(p.description@)),
    ];
    let with_enum = match p.enum_values {
        Some(v) => base.push(("enum"@, str_array(str_seq(v@)))),
        None => base,
    };
    let with_items = match p.items {
        Some(b) => with_enum.push(("items"@, param_json(*b))),
        None => with_enum,
    };
    let with_props = match p.properties {
        Some(ps) => with_items.push(("properties"@, JsonV::Object(props_json(ps@)))),
        None => with_items,
    };
    let with_req = match p.required {
        Some(r) => with_props.push(("required"@, str_array(str_seq(r@)))),
        None => with_props,
    };
    JsonV::Object(with_req)
}

/// The JSON entries of named parameters.
pub open spec fn props_json(ps: Seq<(String, ToolParameter)>) -> Seq<(Seq<char>, JsonV)>
    decreases ps,
{
    if ps.len() == 0 {
        Seq::empty()
    } else {
        props_json(ps.drop_last()).push((ps.last().0@, param_json(ps.last().1)))
    }
}

/// The JSON form of a tool's parameters: `type`, `properties`, `required`.
pub open spec fn params_def_json(d: ToolParametersDefinition) -> JsonV {
    JsonV::Object(seq![
        ("type"@, JsonV::String(d.param_type@)),
        ("properties"@, JsonV::Object(props_json(d.properties@))),
        ("required"@, str_array(str_seq(d.required@))),
    ])
}

/// A JSON array of copies of the given strings.
pub fn strings_to_json(v: &Vec<String>) -> (r: Json)
    ensures
        r@ == str_array(str_seq(v@)),
{
    let mut out: Vec<Json> = Vec::new();
    let mut i: usize = 0;
    proof { lemma_str_seq(v@); }
    while i < v.len()
        invariant
            i <= v.len(),
            str_seq(v@).len() == v.len(),
            forall|j: int| 0 <= j < v.len() ==> #[trigger] str_seq(v@)[j] == v@[j]@,
            jv_seq(out@) == str_seq(v@).subrange(0, i as int).map_values(|x: Seq<char>| JsonV::String(x)),
        decreases v.len() - i,
    {
        let j = jstr(v[i].as_str());
        proof {
            lemma_jv_seq_push(out@, j);
        }
        out.push(j);
        i = i + 1;
        assert(jv_seq(out@) =~= str_seq(v@).subrange(0, i as int).map_values(|x: Seq<char>| JsonV::String(x)));
    }
    assert(str_seq(v@).subrange(0, v.len() as int) =~= str_seq(v@));
    Json::Array(out)
}

/// The JSON form of a tool parameter.
pub fn param_to_json(p: &ToolParameter) -> (r: Json)
    ensures
        r@ == param_json(*p),
    decreases p,
{
    proof {
        reveal_strlit("type");
        reveal_strlit("description");
        reveal_strlit("enum");
        reveal_strlit("items");
        reveal_strlit("properties");
        reveal_strlit("required");
    }
    let mut es: Vec<(String, Json)> = Vec::new();
    es.push((to_owned("type"), jstr(param_type_str(p.param_type))));
    es.push((to_owned("description"), jstr(p.description.as_str())));
    proof {
        lemma_jv_entries_push(Seq::empty(), es@[0]);
        assert(es@.drop_last() =~= seq![es@[0]]);
        lemma_jv_entries_push(seq![es@[0]], es@[1]);
        assert(seq![es@[0]] =~= Seq::<(String, Json)>::empty().push(es@[0]));
        assert(jv_entries(es@) =~= seq![
            ("type"@, JsonV::String(param_type_name(p.param_type))),
            ("description"@, JsonV::String(p.description@)),
        ]);
    }
    match &p.enum_values {
        Some(v) => {
            let e = (to_owned("enum"), strings_to_json(v));
            proof { lemma_jv_entries_push(es@, e); }
            es.push(e);
        },
        None => {},
    }
    match &p.items {
        Some(b) => {
            assert(decreases_to!(*p => p.items));
            assert(decreases_to!(p.items => p.items->0));
            let e = (to_owned("items"), param_to_json(b));
            proof { lemma_jv_entries_push(es@, e); }
            es.push(e);
        },
        None => {},
    }
    match &p.properties {
        Some(ps) => {
            assert(decreases_to!(*p => p.properties));
            let e = (to_owned("properties"), props_to_json(ps));
            proof { lemma_jv_entries_push(es@, e); }
            es.push(e);
        },
        None => {},
    }
    match &p.required {
        Some(v) => {
            let e = (to_owned("required"), strings_to_json(v));
            proof { lemma_jv_entries_push(es@, e); }
            es.push(e);
        },
        None => {},
    }
    Json::Object(es)
}

/// The JSON object of named parameters.
pub fn props_to_json(ps: &Vec<(String, ToolParameter)>) -> (r: Json)
    ensures
        r@ == JsonV::Object(props_json(ps@)),
    decreases ps,
{
    let mut es: Vec<(String, Json)> = Vec::new();
    let mut i: usize = 0;
    while i < ps.len()
        invariant
            i <= ps.len(),
            jv_entries(es@) == props_json(ps@.subrange(0, i as int)),
        decreases ps.len() - i,
    {
        assert(decreases_to!(*ps => ps@));
        assert(decreases_to!(ps@ => ps@[i as int]));
        assert(decreases_to!(ps@[i as int] => ps@[i as int].1));
        let e = (ps[i].0.clone(), param_to_json(&ps[i].1));
        proof {
            lemma_jv_entries_push(es@, e);
            assert(ps@.subrange(0, i + 1).drop_last() =~= ps@.subrange(0, i as int));
        }
        es.push(e);
        i = i + 1;
    }
    assert(ps@.subrange(0, ps.len() as int) =~= ps@);
    Json::Object(es)
}

/// The JSON form of a tool's parameters.
pub fn params_def_to_json(d: &ToolParametersDefinition) -> (r: Json)
    ensures
        r@ == params_def_json(*d),
{
    proof {
        reveal_strlit("type");
        reveal_strlit("properties");
        reveal_strlit("required");
    }
    let mut es: Vec<(String, Json)> = Vec::new();
    let e0 = (to_owned("type"), jstr(d.param_type.as_str()));
    let e1 = (to_owned("properties"), props_to_json(&d.properties));
    let e2 = (to_owned("required"), strings_to_json(&d.required));
    proof {
        lemma_jv_entries_push(es@, e0);
        lemma_jv_entries_push(es@.push(e0), e1);
        lemma_jv_entries_push(es@.push(e0).push(e1), e2);
    }
    es.push(e0);
    es.push(e1);
    es.push(e2);
    assert(jv_entries(es@) =~= seq![
        ("type"@, JsonV::String(d.param_type@)),
        ("properties"@, JsonV::Object(props_json(d.properties@))),
        ("required"@, str_array(str_seq(d.required@))),
    ]);
    Json::Object(es)
}

} // verus!

verus! {

/// The JSON form of a tool call: `id`, `type` and `function` with `name` and
/// `arguments`.
pub open spec fn call_json(c: ToolCallV) -> JsonV {
    JsonV::Object(seq![
        ("id"@, JsonV::String(c.id)),
        ("type"@, JsonV::String(c.call_type)),
        ("function"@, JsonV::Object(seq![
            ("name"@, JsonV::String(c.name)),
            ("arguments"@, JsonV::String(c.arguments)),
        ])),
    ])
}

/// The JSON form of a message: `role`, then `content`, `tool_calls` and
/// `tool_call_id` where present.
pub open spec fn message_json(m: ChatMessageV) -> JsonV {
    let base = seq![("role"@, JsonV::String(m.role))];
    let with_content = match m.content {
        Some(c) => base.push(("content"@, JsonV::String(c))),
        None => base,
    };
    let with_calls = match m.tool_calls {
        Some(cs) => with_content.push(("tool_calls"@, JsonV::Array(cs.map_values(|c: ToolCallV| call_json(c))))),
        None => with_content,
    };
    let with_id = match m.tool_call_id {
        Some(i) => with_calls.push(("tool_call_id"@, JsonV::String(i))),
        None => with_calls,
    };
    JsonV::Object(with_id)
}

/// The JSON array of a sequence of messages.
pub open spec fn messages_json(ms: Seq<ChatMessageV>) -> JsonV {
    JsonV::Array(ms.map_values(|m: ChatMessageV| message_json(m)))
}

/// A two-member JSON object.
pub fn object2(k0: &str, v0: Json, k1: &str, v1: Json) -> (r: Json)
    ensures
        r@ == JsonV::Object(seq![(k0@, v0@), (k1@, v1@)]),
{
    let mut es: Vec<(String, Json)> = Vec::new();
    let e0 = (to_owned(k0), v0);
    let e1 = (to_owned(k1), v1);
    proof {
        lemma_jv_entries_push(es@, e0);
        lemma_jv_entries_push(es@.push(e0), e1);
    }
    es.push(e0);
    es.push(e1);
    assert(jv_entries(es@) =~= seq![(k0@, v0@), (k1@, v1@)]);
    Json::Object(es)
}

/// A one-member JSON object.
pub fn object1(k0: &str, v0: Json) -> (r: Json)
    ensures
        r@ == JsonV::Object(seq![(k0@, v0@)]),
{
    let mut es: Vec<(String, Json)> = Vec::new();
    let e0 = (to_owned(k0), v0);
    proof {
        lemma_jv_entries_push(es@, e0);
    }
    es.push(e0);
    assert(jv_entries(es@) =~= seq![(k0@, v0@)]);
    Json::Object(es)
}

/// The JSON form of a tool call.
pub fn call_to_json(c: &ToolCall) -> (r: Json)
    ensures
        r@ == call_json(c@),
{
    proof {
        reveal_strlit("id");
        reveal_strlit("type");
        reveal_strlit("function");
        reveal_strlit("name");
        reveal_strlit("arguments");
    }
    let f = object2("name", jstr(c.function.name.as_str()), "arguments", jstr(c.function.arguments.as_str()));
    let mut es: Vec<(String, Json)> = Vec::new();
    let e0 = (to_owned("id"), jstr(c.id.as_str()));
    let e1 = (to_owned("type"), jstr(c.call_type.as_str()));
    let e2 = (to_owned("function"), f);
    proof {
        lemma_jv_entries_push(es@, e0);
        lemma_jv_entries_push(es@.push(e0), e1);
        lemma_jv_entries_push(es@.push(e0).push(e1), e2);
    }
    es.push(e0);
    es.push(e1);
    es.push(e2);
    assert(jv_entries(es@) =~= seq![
        ("id"@, JsonV::String(c@.id)),
        ("type"@, JsonV::String(c@.call_type)),
        ("function"@, JsonV::Object(seq![
            ("name"@, JsonV::String(c@.name)),
            ("arguments"@, JsonV::String(c@.arguments)),
        ])),
    ]);
    Json::Object(es)
}

/// The JSON form of a message.
pub fn message_to_json(m: &ChatMessage) -> (r: Json)
    ensures
        r@ == message_json(m@),
{
    proof {
        reveal_strlit("role");
        reveal_strlit("content");
        reveal_strlit("tool_calls");
        reveal_strlit("tool_call_id");
    }
    let mut es: Vec<(String, Json)> = Vec::new();
    let e0 = (to_owned("role"), jstr(m.role.as_str()));
    proof { lemma_jv_entries_push(es@, e0); }
    es.push(e0);
    assert(jv_entries(es@) =~= seq![("role"@, JsonV::String(m@.role))]);
    match &m.content {
        Some(c) => {
            let e = (to_owned("content"), jstr(c.as_str()));
            proof { lemma_jv_entries_push(es@, e); }
            es.push(e);
        },
        None => {},
    }
    match &m.tool_calls {
        Some(cs) => {
            let mut arr: Vec<Json> = Vec::new();
            let mut i: usize = 0;
            while i < cs.len()
                invariant
                    i <= cs.len(),
                    jv_seq(arr@) == calls_view(cs@).subrange(0, i as int).map_values(|c: ToolCallV| call_json(c)),
                decreases cs.len() - i,
            {
                let j = call_to_json(&cs[i]);
                proof { lemma_jv_seq_push(arr@, j); }
                arr.push(j);
                i = i + 1;
                assert(jv_seq(arr@) =~= calls_view(cs@).subrange(0, i as int).map_values(|c: ToolCallV| call_json(c)));
            }
            assert(calls_view(cs@).subrange(0, cs.len() as int) =~= calls_view(cs@));
            let e = (to_owned("tool_calls"), Json::Array(arr));
            proof { lemma_jv_entries_push(es@, e); }
            es.push(e);
        },
        None => {},
    }
    match &m.tool_call_id {
        Some(c) => {
            let e = (to_owned("tool_call_id"), jstr(c.as_str()));
            proof { lemma_jv_entries_push(es@, e); }
            es.push(e);
        },
        None => {},
    }
    Json::Object(es)
}

/// The JSON array of a sequence of messages.
pub fn messages_to_json(ms: &Vec<ChatMessage>) -> (r: Json)
    ensures
        r@ == messages_json(msgs_view(ms@)),
{
    let mut arr: Vec<Json> = Vec::new();
    let mut i: usize = 0;
    while i < ms.len()
        invariant
            i <= ms.len(),
            jv_seq(arr@) == msgs_view(ms@).subrange(0, i as int).map_values(|m: ChatMessageV| message_json(m)),
        decreases ms.len() - i,
    {
        let j = message_to_json(&ms[i]);
        proof { lemma_jv_seq_push(arr@, j); }
        arr.push(j);
        i = i + 1;
        assert(jv_seq(arr@) =~= msgs_view(ms@).subrange(0, i as int).map_values(|m: ChatMessageV| message_json(m)));
    }
    assert(msgs_view(ms@).subrange(0, ms.len() as int) =~= msgs_view(ms@));
    Json::Array(arr)
}

} // verus!
