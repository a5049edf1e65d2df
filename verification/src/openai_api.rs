//! The OpenAI chat-completions dialect: its endpoint, request payload and
//! headers, and the reading of its answers.

use vstd::prelude::*;
use crate::json::{Json, JsonV, jv_seq, jv_entries, jstr, get, at_key, at_index, str_of, as_i64, with_member,
    set_member, lemma_jv_seq_push, lemma_jv_entries_push};
use crate::models::{ChatMessage, ChatMessageV, ToolDefinition, Choice, ApiResponse, ApiResponseV, ChoiceV,
    msgs_view, messages_json, messages_to_json};
use crate::chat_api::{typed_function, make_typed_function, header_pairs};
use crate::toml_value::{TomlValue, toml_get};
use crate::text::{to_owned, push_str};

verus! {

/// The endpoint used where none is configured.
pub open spec fn default_openai_endpoint() -> Seq<char> {
    "https://api.openai.com/v1/chat/completions"@
}

/// A client of the OpenAI chat-completions API.
pub struct OpenAIProvider {
    pub api_key: String,
    pub endpoint: String,
}

/// The declarations of tools as OpenAI-compatible APIs take them.
pub fn typed_functions(ts: &Vec<ToolDefinition>) -> (r: Json)
    ensures
        r@ == JsonV::Array(ts@.map_values(|t: ToolDefinition| typed_function(t))),
{
    let mut decls: Vec<Json> = Vec::new();
    let mut k: usize = 0;
    while k < ts.len()
        invariant
            k <= ts.len(),
            jv_seq(decls@) == ts@.subrange(0, k as int).map_values(|t: ToolDefinition| typed_function(t)),
        decreases ts.len() - k,
    {
        let d = make_typed_function(&ts[k]);
        proof { lemma_jv_seq_push(decls@, d); }
        decls.push(d);
        k = k + 1;
        assert(jv_seq(decls@) =~= ts@.subrange(0, k as int).map_values(|t: ToolDefinition| typed_function(t)));
    }
    assert(ts@.subrange(0, ts.len() as int) =~= ts@);
    Json::Array(decls)
}

/// The members set from the floats among the first `n` entries of a
/// parameter table: each float sets the member of its name.
pub open spec fn float_members(es: Seq<(Seq<char>, JsonV)>, table: Seq<(String, TomlValue)>, n: nat)
    -> Seq<(Seq<char>, JsonV)>
    decreases n,
{
    if n == 0 {
        es
    } else {
        let prev = float_members(es, table, (n - 1) as nat);
        match table[n - 1].1 {
            TomlValue::Float(f) => with_member(prev, table[n - 1].0@, JsonV::Number(f@)),
            _ => prev,
        }
    }
}

/// The request payload: the model, the messages, a temperature of 0.7 and a
/// `top_p` of 0.8, the tools where they are given, and then each float of
/// the `generation_config` table of the parameters, by its name.
pub open spec fn openai_api_payload(model: Seq<char>, ms: Seq<ChatMessageV>, tools: Option<Seq<ToolDefinition>>,
    params: Option<TomlValue>) -> JsonV
{
    let base = seq![
        ("model"@, JsonV::String(model)),
        ("messages"@, messages_json(ms)),
        ("temperature"@, JsonV::Number("0.7"@)),
        ("top_p"@, JsonV::Number("0.8"@)),
    ];
    let with_tools = match tools {
        Some(ts) => base.push(("tools"@, JsonV::Array(ts.map_values(|t: ToolDefinition| typed_function(t))))),
        None => base,
    };
    let members = match params {
        Some(p) => match toml_get(p, "generation_config"@) {
            Some(TomlValue::Table(t)) => float_members(with_tools, t@, t@.len()),
            _ => with_tools,
        },
        None => with_tools,
    };
    JsonV::Object(members)
}

/// The first choice of an answer.
pub open spec fn first_choice(raw: JsonV) -> Option<JsonV> {
    at_index(get(raw, "choices"@), 0)
}

/// A token count of the usage report, zero where it is missing, cut to 32
/// bits as an `as u32` cast does.
pub open spec fn usage_count(raw: JsonV, k: Seq<char>) -> u32 {
    (match as_i64(at_key(get(raw, "usage"@), k)) {
        Some(n) => n,
        None => 0i64,
    }) as u32
}

/// How an answer is read: the first choice's message content is needed; its
/// finish reason is `stop` where it has none; the token counts come from the
/// usage report; the answer becomes one assistant choice.
pub open spec fn openai_answer(raw: JsonV) -> Result<ApiResponseV, Seq<char>> {
    match str_of(at_key(at_key(first_choice(raw), "message"@), "content"@)) {
        None => Err("No text content in response"@),
        Some(content) => {
            let finish = match str_of(at_key(first_choice(raw), "finish_reason"@)) {
                Some(f) => f,
                None => "stop"@,
            };
            Ok(ApiResponseV {
                id: match str_of(get(raw, "id"@)) { Some(i) => i, None => Seq::empty() },
                content,
                finish_reason: finish,
                prompt_tokens: usage_count(raw, "prompt_tokens"@),
                completion_tokens: usage_count(raw, "completion_tokens"@),
                total_tokens: usage_count(raw, "total_tokens"@),
                choices: seq![ChoiceV {
                    index: 0,
                    message: ChatMessageV {
                        role: "assistant"@,
                        content: Some(content),
                        tool_calls: None,
                        tool_call_id: None,
                    },
                    finish_reason: finish,
                }],
            })
        },
    }
}

/// The headers of a request: the content type, and the bearer token where
/// there is an API key.
pub open spec fn openai_headers(api_key: Seq<char>) -> Seq<(Seq<char>, Seq<char>)> {
    let base = seq![("Content-Type"@, "application/json"@)];
    if api_key.len() > 0 { base.push(("Authorization"@, "Bearer "@ + api_key)) } else { base }
}

fn usage(raw: &Json, k: &str) -> (r: u32)
    ensures
        r == usage_count(raw@, k@),
{
    let n: i64 = match raw.get("usage") {
        Some(u) => match u.get(k) {
            Some(v) => match v.as_i64() {
                Some(n) => n,
                None => 0,
            },
            None => 0,
        },
        None => 0,
    };
    n as u32
}

impl OpenAIProvider {
    /// A client for the given key, at the given endpoint or the default one.
    pub fn new(api_key: String, endpoint: Option<String>) -> (p: Self)
        ensures
            p.api_key@ == api_key@,
            p.endpoint@ == match endpoint { Some(e) => e@, None => default_openai_endpoint() },
    {
        let endpoint = match endpoint {
            Some(e) => e,
            None => to_owned("https://api.openai.com/v1/chat/completions"),
        };
        OpenAIProvider { api_key, endpoint }
    }

    /// The endpoint requests go to.
    pub fn get_endpoint(&self) -> (r: String)
        ensures
            r@ == self.endpoint@,
    {
        self.endpoint.clone()
    }

    /// The request payload.
    pub fn build_payload(&self, model_name: &str, messages: &Vec<ChatMessage>, tools: Option<&Vec<ToolDefinition>>,
        parameters: Option<&TomlValue>) -> (r: Result<Json, String>)
        ensures
            r matches Ok(p) && p@ == openai_api_payload(model_name@, msgs_view(messages@),
                match tools { Some(t) => Some(t@), None => None },
                match parameters { Some(p) => Some(*p), None => None }),
    {
        let mut es: Vec<(String, Json)> = Vec::new();
        let e0 = (to_owned("model"), jstr(model_name));
        let e1 = (to_owned("messages"), messages_to_json(messages));
        let e2 = (to_owned("temperature"), Json::Number(to_owned("0.7")));
        let e3 = (to_owned("top_p"), Json::Number(to_owned("0.8")));
        proof {
            lemma_jv_entries_push(es@, e0);
            lemma_jv_entries_push(es@.push(e0), e1);
            lemma_jv_entries_push(es@.push(e0).push(e1), e2);
            lemma_jv_entries_push(es@.push(e0).push(e1).push(e2), e3);
        }
        es.push(e0);
        es.push(e1);
        es.push(e2);
        es.push(e3);
        match tools {
            Some(ts) => {
                let e = (to_owned("tools"), typed_functions(ts));
                proof { lemma_jv_entries_push(es@, e); }
                es.push(e);
            },
            None => {},
        }
        let ghost with_tools = jv_entries(es@);
        assert(with_tools =~= {
            let base = seq![
                ("model"@, JsonV::String(model_name@)),
                ("messages"@, messages_json(msgs_view(messages@))),
                ("temperature"@, JsonV::Number("0.7"@)),
                ("top_p"@, JsonV::Number("0.8"@)),
            ];
            match tools {
                Some(ts) => base.push(("tools"@, JsonV::Array(ts@.map_values(|t: ToolDefinition| typed_function(t))))),
                None => base,
            }
        });
        match parameters {
            Some(p) => match p.get("generation_config") {
                Some(TomlValue::Table(table)) => {
                    let mut k: usize = 0;
                    while k < table.len()
                        invariant
                            k <= table.len(),
                            jv_entries(es@) == float_members(with_tools, table@, k as nat),
                        decreases table.len() - k,
                    {
                        match &table[k].1 {
                            TomlValue::Float(f) => {
                                set_member(&mut es, table[k].0.as_str(), Json::Number(f.clone()));
                            },
                            _ => {},
                        }
                        k = k + 1;
                    }
                },
                _ => {},
            },
            None => {},
        }
        proof {
            match parameters {
                Some(p) => match toml_get(*p, "generation_config"@) {
                    Some(TomlValue::Table(t)) => {},
                    _ => { assert(jv_entries(es@) =~= with_tools); },
                },
                None => { assert(jv_entries(es@) =~= with_tools); },
            }
        }
        Ok(Json::Object(es))
    }

    /// Reads an answer.
    pub fn parse_response(&self, raw: &Json) -> (r: Result<ApiResponse, String>)
        ensures
            match openai_answer(raw@) {
                Ok(a) => r matches Ok(x) && x@ == a,
                Err(m) => r matches Err(e) && e@ == m,
            },
    {
        let choice = match raw.get("choices") {
            Some(cs) => cs.nth(0),
            None => None,
        };
        let content = match choice {
            Some(c) => match c.get("message") {
                Some(m) => match m.get("content") {
                    Some(t) => t.as_str(),
                    None => None,
                },
                None => None,
            },
            None => None,
        };
        let content = match content {
            Some(t) => to_owned(t),
            None => return Err(to_owned("No text content in response")),
        };
        let finish = match choice {
            Some(c) => match c.get("finish_reason") {
                Some(f) => match f.as_str() {
                    Some(s) => to_owned(s),
                    None => to_owned("stop"),
                },
                None => to_owned("stop"),
            },
            None => to_owned("stop"),
        };
        let id = match raw.get("id") {
            Some(i) => match i.as_str() {
                Some(s) => to_owned(s),
                None => String::new(),
            },
            None => String::new(),
        };
        let message = ChatMessage {
            role: to_owned("assistant"),
            content: Some(content.clone()),
            tool_calls: None,
            tool_call_id: None,
        };
        let choice = Choice { index: 0, message, finish_reason: finish.clone() };
        let mut choices: Vec<Choice> = Vec::new();
        choices.push(choice);
        let r = ApiResponse {
            id,
            content,
            finish_reason: finish,
            prompt_tokens: usage(raw, "prompt_tokens"),
            completion_tokens: usage(raw, "completion_tokens"),
            total_tokens: usage(raw, "total_tokens"),
            choices,
        };
        assert(r@.choices =~= seq![r.choices@[0]@]);
        Ok(r)
    }

    /// The headers of a request.
    pub fn build_headers(&self) -> (r: Result<Vec<(String, String)>, String>)
        ensures
            r matches Ok(h) && header_pairs(h@) == openai_headers(self.api_key@),
    {
        let mut h: Vec<(String, String)> = Vec::new();
        h.push((to_owned("Content-Type"), to_owned("application/json")));
        if !self.api_key.as_str().is_empty() {
            let mut v = to_owned("Bearer ");
            push_str(&mut v, self.api_key.as_str());
            h.push((to_owned("Authorization"), v));
        }
        assert(header_pairs(h@) =~= openai_headers(self.api_key@));
        Ok(h)
    }
}

} // verus!
