//! The Ollama chat dialect: its request payload and headers, and the reading
//! of its answers.

use vstd::prelude::*;
use crate::json::{Json, JsonV, jv_entries, jstr, get, str_of, with_member, set_member, lemma_jv_entries_push};
use crate::models::{ChatMessage, ChatMessageV, ToolDefinition, Choice, ApiResponse, ApiResponseV, ChoiceV,
    msgs_view, messages_json, messages_to_json, opt_str};
use crate::chat_api::{typed_function, header_pairs, generate_id, generated_from};
use crate::openai_api::typed_functions;
use crate::toml_value::{TomlValue, toml_get};
use crate::text::{to_owned, push_str};

verus! {

/// A client of an Ollama chat endpoint.
pub struct OllamaProvider {
    pub endpoint: String,
}

/// The request payload: the model and the messages, the tools where there
/// are any, and the temperature where the parameters give it as a float.
pub open spec fn ollama_api_payload(model: Seq<char>, ms: Seq<ChatMessageV>, tools: Option<Seq<ToolDefinition>>,
    params: Option<TomlValue>) -> JsonV
{
    let base = seq![("model"@, JsonV::String(model)), ("messages"@, messages_json(ms))];
    let with_tools = match tools {
        Some(ts) => if ts.len() > 0 {
            base.push(("tools"@, JsonV::Array(ts.map_values(|t: ToolDefinition| typed_function(t)))))
        } else {
            base
        },
        None => base,
    };
    let members = match params {
        Some(p) => match toml_get(p, "temperature"@) {
            Some(TomlValue::Float(f)) => with_member(with_tools, "temperature"@, JsonV::Number(f@)),
            _ => with_tools,
        },
        None => with_tools,
    };
    JsonV::Object(members)
}

/// How an answer is read, given the identifier it gets: a `message` is
/// needed; its role is `assistant` where it gives none; its content, where it
/// is a string, is the answer's; the finish reason is `stop` and no tokens
/// are counted. Without a message the answer is refused with the body.
pub open spec fn ollama_answer(raw: JsonV, body: Seq<char>, id: Seq<char>) -> Result<ApiResponseV, Seq<char>> {
    match get(raw, "message"@) {
        None => Err("Failed to extract message from Ollama response structure: "@ + body),
        Some(m) => {
            let content = str_of(get(m, "content"@));
            Ok(ApiResponseV {
                id,
                content: match content { Some(c) => c, None => Seq::empty() },
                finish_reason: "stop"@,
                prompt_tokens: 0,
                completion_tokens: 0,
                total_tokens: 0,
                choices: seq![ChoiceV {
                    index: 0,
                    message: ChatMessageV {
                        role: match str_of(get(m, "role"@)) { Some(r) => r, None => "assistant"@ },
                        content,
                        tool_calls: None,
                        tool_call_id: None,
                    },
                    finish_reason: "stop"@,
                }],
            })
        },
    }
}

/// Reads an answer, giving it the identifier `id`.
pub fn parse_response_with_id(raw: &Json, response_body: &str, id: String) -> (r: Result<ApiResponse, String>)
    ensures
        match ollama_answer(raw@, response_body@, id@) {
            Ok(a) => r matches Ok(x) && x@ == a,
            Err(m) => r matches Err(e) && e@ == m,
        },
{
    let m = match raw.get("message") {
        Some(m) => m,
        None => {
            let mut e = to_owned("Failed to extract message from Ollama response structure: ");
            push_str(&mut e, response_body);
            return Err(e);
        },
    };
    let role = match m.get("role") {
        Some(r) => match r.as_str() {
            Some(s) => to_owned(s),
            None => to_owned("assistant"),
        },
        None => to_owned("assistant"),
    };
    let content: Option<String> = match m.get("content") {
        Some(c) => match c.as_str() {
            Some(s) => Some(to_owned(s)),
            None => None,
        },
        None => None,
    };
    let top = match &content {
        Some(c) => c.clone(),
        None => String::new(),
    };
    let message = ChatMessage { role, content, tool_calls: None, tool_call_id: None };
    let mut choices: Vec<Choice> = Vec::new();
    choices.push(Choice { index: 0, message, finish_reason: to_owned("stop") });
    let r = ApiResponse {
        id,
        content: top,
        finish_reason: to_owned("stop"),
        prompt_tokens: 0,
        completion_tokens: 0,
        total_tokens: 0,
        choices,
    };
    assert(r@.choices =~= seq![r.choices@[0]@]);
    Ok(r)
}

impl OllamaProvider {
    /// A client of the given endpoint.
    pub fn new(endpoint: String) -> (p: Self)
        ensures
            p.endpoint@ == endpoint@,
    {
        OllamaProvider { endpoint }
    }

    /// The endpoint requests go to.
    pub fn get_endpoint(&self) -> (r: String)
        ensures
            r@ == self.endpoint@,
    {
        self.endpoint.clone()
    }

    /// The request payload.
    pub fn build_payload(&self, model_name: &str, messages: &Vec<ChatMessage>, tools: Option<&Vec<ToolDefinition>>,
        parameters: Option<&TomlValue>) -> (r: Result<Json, String>)
        ensures
            r matches Ok(p) && p@ == ollama_api_payload(model_name@, msgs_view(messages@),
                match tools { Some(t) => Some(t@), None => None },
                match parameters { Some(p) => Some(*p), None => None }),
    {
        let mut es: Vec<(String, Json)> = Vec::new();
        let e0 = (to_owned("model"), jstr(model_name));
        let e1 = (to_owned("messages"), messages_to_json(messages));
        proof {
            lemma_jv_entries_push(es@, e0);
            lemma_jv_entries_push(es@.push(e0), e1);
        }
        es.push(e0);
        es.push(e1);
        match tools {
            Some(ts) => if ts.len() > 0 {
                let e = (to_owned("tools"), typed_functions(ts));
                proof { lemma_jv_entries_push(es@, e); }
                es.push(e);
            },
            None => {},
        }
        let ghost with_tools = jv_entries(es@);
        assert(with_tools =~= {
            let base = seq![("model"@, JsonV::String(model_name@)), ("messages"@, messages_json(msgs_view(messages@)))];
            match tools {
                Some(ts) => if ts@.len() > 0 {
                    base.push(("tools"@, JsonV::Array(ts@.map_values(|t: ToolDefinition| typed_function(t)))))
                } else {
                    base
                },
                None => base,
            }
        });
        match parameters {
            Some(p) => match p.get("temperature") {
                Some(TomlValue::Float(f)) => {
                    set_member(&mut es, "temperature", Json::Number(f.clone()));
                },
                _ => {},
            },
            None => {},
        }
        proof {
            match parameters {
                Some(p) => match toml_get(*p, "temperature"@) {
                    Some(TomlValue::Float(f)) => {},
                    _ => { assert(jv_entries(es@) =~= with_tools); },
                },
                None => { assert(jv_entries(es@) =~= with_tools); },
            }
        }
        Ok(Json::Object(es))
    }

    /// Reads an answer, under an identifier made from the clock; the body is
    /// quoted where the answer is refused.
    pub fn parse_response(&self, raw: &Json, response_body: &str) -> (r: Result<ApiResponse, String>)
        ensures
            match r {
                Ok(x) => generated_from(x.id@, "ollama_resp"@)
                    && ollama_answer(raw@, response_body@, x.id@) == Ok::<ApiResponseV, Seq<char>>(x@),
                Err(e) => exists|id: Seq<char>| ollama_answer(raw@, response_body@, id) == Err::<ApiResponseV, Seq<char>>(e@),
            },
    {
        let id = generate_id("ollama_resp");
        let ghost idv = id@;
        let r = parse_response_with_id(raw, response_body, id);
        proof {
            if r is Err {
                assert(ollama_answer(raw@, response_body@, idv) == Err::<ApiResponseV, Seq<char>>(r->Err_0@));
            }
        }
        r
    }

    /// The headers of a request: the content type only.
    pub fn build_headers(&self) -> (r: Result<Vec<(String, String)>, String>)
        ensures
            r matches Ok(h) && header_pairs(h@) == seq![("Content-Type"@, "application/json"@)],
    {
        let mut h: Vec<(String, String)> = Vec::new();
        h.push((to_owned("Content-Type"), to_owned("application/json")));
        assert(header_pairs(h@) =~= seq![("Content-Type"@, "application/json"@)]);
        Ok(h)
    }
}

} // verus!
