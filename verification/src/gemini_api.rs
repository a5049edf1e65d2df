//! A Gemini client bound to one model: its endpoint, request payload and
//! headers, and the reading of its answers.

use vstd::prelude::*;
use crate::json::{Json, JsonV, jv_seq, jv_entries, jstr, with_member, set_member, lemma_jv_seq_push,
    lemma_jv_entries_push};
use crate::models::{ChatMessage, ChatMessageV, ToolDefinition, ApiResponse, ApiResponseV, Choice, msgs_view};
use crate::chat_api::{function_declaration, make_function_declaration, header_pairs};
use crate::providers::{gemini_count, gemini_counts_fit, gemini_base_url};
use crate::json::get_array;
use crate::chat_api::{text_part, gemini_entry, message_json_of, message_json, gemini_message_entry, make_text_part,
    opt_json, candidate_choice, empty_candidates_message, finish_reason_of, is_standard_finish,
    non_standard_finish_message, response_instance};
use crate::toml_value::{TomlValue, toml_get};
use crate::text::{to_owned, push_str, str_eq};
use crate::models::object2;

verus! {

/// Gemini's model endpoints, under which each model has its own.
pub const BASE_ENDPOINT: &'static str = "https://generativelanguage.googleapis.com/v1beta/models";

/// A Gemini client: its API key, an endpoint where one is given, and the
/// model it asks.
pub struct GeminiProvider {
    pub api_key: String,
    pub endpoint: Option<String>,
    pub model: String,
}

/// The content a message turns into, if any: a user or assistant message's
/// text under its own role; a tool message's result as a function response
/// (its content read as JSON where it is JSON, else as a string); nothing
/// for a message without content, a tool message without a call id, or any
/// other role.
pub open spec fn client_entry(m: ChatMessageV) -> Option<JsonV> {
    if m.role == "user"@ || m.role == "assistant"@ {
        match m.content {
            Some(c) => Some(JsonV::Object(seq![
                ("role"@, JsonV::String(m.role)),
                ("parts"@, JsonV::Array(seq![text_part(c)])),
            ])),
            None => None,
        }
    } else if m.role == "tool"@ {
        gemini_entry(m, message_json_of(m))
    } else {
        None
    }
}

/// The contents of the first `n` messages.
pub open spec fn client_contents(ms: Seq<ChatMessageV>, n: nat) -> Seq<JsonV>
    decreases n,
{
    if n == 0 {
        Seq::empty()
    } else {
        match client_entry(ms[n - 1]) {
            Some(e) => client_contents(ms, (n - 1) as nat).push(e),
            None => client_contents(ms, (n - 1) as nat),
        }
    }
}

/// The content of one message, if any (see `client_entry`).
pub fn client_entry_json(m: &ChatMessage) -> (r: Option<Json>)
    ensures
        opt_json(r) == client_entry(m@),
{
    proof {
        reveal_strlit("user");
        reveal_strlit("assistant");
        reveal_strlit("tool");
        reveal_strlit("role");
        reveal_strlit("parts");
        reveal_strlit("system");
    }
    if str_eq(m.role.as_str(), "user") || str_eq(m.role.as_str(), "assistant") {
        match &m.content {
            Some(c) => {
                let t = make_text_part(c.as_str());
                let mut parts: Vec<Json> = Vec::new();
                proof { lemma_jv_seq_push(parts@, t); }
                parts.push(t);
                assert(jv_seq(parts@) =~= seq![t@]);
                Some(object2("role", jstr(m.role.as_str()), "parts", Json::Array(parts)))
            },
            None => None,
        }
    } else if str_eq(m.role.as_str(), "tool") {
        let p = message_json(m);
        gemini_message_entry(m, &p)
    } else {
        None
    }
}

/// The request payload: the model, the messages as contents, the tools'
/// declarations where there are any, and the temperature where the
/// parameters give it as a float.
pub open spec fn gemini_api_payload(model: Seq<char>, ms: Seq<ChatMessageV>, tools: Option<Seq<ToolDefinition>>,
    params: Option<TomlValue>) -> JsonV
{
    let base = seq![
        ("model"@, JsonV::String(model)),
        ("contents"@, JsonV::Array(client_contents(ms, ms.len()))),
    ];
    let with_tools = match tools {
        Some(ts) => if ts.len() > 0 {
            with_member(base, "tools"@, JsonV::Array(ts.map_values(|t: ToolDefinition| function_declaration(t))))
        } else {
            base
        },
        None => base,
    };
    let members = match params {
        Some(p) => match toml_get(p, "temperature"@) {
            Some(TomlValue::Float(f)) => with_member(with_tools, "temperature"@, JsonV::Number(f@)),
            _ => with_tools,
        },
        None => with_tools,
    };
    JsonV::Object(members)
}

/// The headers of a request: the content type, and the API key where there
/// is one.
pub open spec fn gemini_headers(api_key: Seq<char>) -> Seq<(Seq<char>, Seq<char>)> {
    let base = seq![("Content-Type"@, "application/json"@)];
    if api_key.len() > 0 { base.push(("x-goog-api-key"@, api_key)) } else { base }
}

/// Whether a candidate's finish reason is an ordinary one: `STOP`,
/// `MAX_TOKENS` or `TOOL_CALLS`, or the lowercase `stop`.
pub open spec fn client_finish_ok(f: Seq<char>) -> bool {
    is_standard_finish(f) || f == "stop"@
}

/// How an answer is read, with id prefixes in place of the generated ids
/// (`gemini_resp` for the response, `gemini_tool` for each tool call): only
/// the first candidate counts; its text parts are joined and its function
/// calls become tool calls; a candidate without a role speaks as the
/// assistant; the usage counts are taken over, and the total is their sum.
/// An empty candidate list, an unusual finish reason, or no readable
/// candidate is an error.
pub open spec fn client_answer(raw: JsonV, body: Seq<char>) -> Result<ApiResponseV, Seq<char>> {
    let no_choice = "Failed to extract choices from Gemini response structure: "@ + body;
    match get_array(raw, "candidates"@) {
        Some(cs) => if cs.len() == 0 {
            Err(empty_candidates_message(raw, body))
        } else {
            let f = finish_reason_of(cs[0]);
            if !client_finish_ok(f) {
                Err(non_standard_finish_message(raw, f, body))
            } else {
                match candidate_choice(cs[0], f, Some("gemini_tool"@), Some("assistant"@)) {
                    Some(ch) => {
                        let p = gemini_count(raw, "promptTokenCount"@);
                        let c = gemini_count(raw, "candidatesTokenCount"@);
                        Ok(ApiResponseV {
                            id: "gemini_resp"@,
                            content: match ch.message.content { Some(t) => t, None => Seq::empty() },
                            finish_reason: f,
                            prompt_tokens: p,
                            completion_tokens: c,
                            total_tokens: (p + c) as u32,
                            choices: seq![ch],
                        })
                    },
                    None => Err(no_choice),
                }
            }
        },
        None => Err(no_choice),
    }
}

impl GeminiProvider {
    /// A client for a key and a model, at the given endpoint or the model's
    /// own.
    pub fn new(api_key: String, endpoint: Option<String>, model: String) -> (p: Self)
        ensures
            p.api_key == api_key,
            p.endpoint == endpoint,
            p.model == model,
    {
        GeminiProvider { api_key, endpoint, model }
    }

    /// Where requests go: the given endpoint, or the model's
    /// `generateContent` endpoint.
    pub fn get_endpoint(&self) -> (r: String)
        ensures
            r@ == match self.endpoint {
                Some(e) => e@,
                None => gemini_base_url() + "/"@ + self.model@ + ":generateContent"@,
            },
    {
        match &self.endpoint {
            Some(e) => e.clone(),
            None => {
                let mut r = to_owned("https://generativelanguage.googleapis.com/v1beta/models");
                push_str(&mut r, "/");
                push_str(&mut r, self.model.as_str());
                push_str(&mut r, ":generateContent");
                r
            },
        }
    }

    /// The request payload.
    pub fn build_payload(&self, model_name: &str, messages: &Vec<ChatMessage>, tools: Option<&Vec<ToolDefinition>>,
        parameters: Option<&TomlValue>) -> (r: Result<Json, String>)
        ensures
            r matches Ok(p) && p@ == gemini_api_payload(model_name@, msgs_view(messages@),
                match tools { Some(t) => Some(t@), None => None },
                match parameters { Some(p) => Some(*p), None => None }),
    {
        let mut contents: Vec<Json> = Vec::new();
        let mut i: usize = 0;
        while i < messages.len()
            invariant
                i <= messages.len(),
                jv_seq(contents@) == client_contents(msgs_view(messages@), i as nat),
            decreases messages.len() - i,
        {
            match client_entry_json(&messages[i]) {
                Some(c) => {
                    proof { lemma_jv_seq_push(contents@, c); }
                    contents.push(c);
                },
                None => {},
            }
            i = i + 1;
        }
        let mut es: Vec<(String, Json)> = Vec::new();
        let e0 = (to_owned("model"), jstr(model_name));
        let e1 = (to_owned("contents"), Json::Array(contents));
        proof {
            lemma_jv_entries_push(es@, e0);
            lemma_jv_entries_push(es@.push(e0), e1);
        }
        es.push(e0);
        es.push(e1);
        let ghost base = jv_entries(es@);
        assert(base =~= seq![
            ("model"@, JsonV::String(model_name@)),
            ("contents"@, JsonV::Array(client_contents(msgs_view(messages@), messages.len() as nat))),
        ]);
        match tools {
            Some(ts) => if ts.len() > 0 {
                let mut decls: Vec<Json> = Vec::new();
                let mut k: usize = 0;
                while k < ts.len()
                    invariant
                        k <= ts.len(),
                        jv_seq(decls@) == ts@.subrange(0, k as int).map_values(|t: ToolDefinition| function_declaration(t)),
                    decreases ts.len() - k,
                {
                    let d = make_function_declaration(&ts[k]);
                    proof { lemma_jv_seq_push(decls@, d); }
                    decls.push(d);
                    k = k + 1;
                    assert(jv_seq(decls@) =~= ts@.subrange(0, k as int).map_values(|t: ToolDefinition| function_declaration(t)));
                }
                assert(ts@.subrange(0, ts.len() as int) =~= ts@);
                set_member(&mut es, "tools", Json::Array(decls));
            },
            None => {},
        }
        let ghost with_tools = jv_entries(es@);
        assert(with_tools == match tools {
            Some(ts) => if ts@.len() > 0 {
                with_member(base, "tools"@, JsonV::Array(ts@.map_values(|t: ToolDefinition| function_declaration(t))))
            } else {
                base
            },
            None => base,
        });
        match parameters {
            Some(p) => match p.get("temperature") {
                Some(TomlValue::Float(f)) => {
                    set_member(&mut es, "temperature", Json::Number(f.clone()));
                },
                _ => {},
            },
            None => {},
        }
        proof {
            match parameters {
                Some(p) => match toml_get(*p, "temperature"@) {
                    Some(TomlValue::Float(f)) => {},
                    _ => { assert(jv_entries(es@) =~= with_tools); },
                },
                None => { assert(jv_entries(es@) =~= with_tools); },
            }
        }
        Ok(Json::Object(es))
    }

    /// Reads an answer whose usage counts add up within 32 bits (see
    /// `client_answer`); the response and each tool call get a freshly
    /// generated id.
    pub fn parse_response(&self, raw: &Json, response_body: &str) -> (r: Result<ApiResponse, String>)
        requires
            gemini_counts_fit(raw@),
        ensures
            match client_answer(raw@, response_body@) {
                Ok(t) => r is Ok && response_instance(r->Ok_0@, t),
                Err(m) => r matches Err(e) && e@ == m,
            },
    {
        proof {
            reveal_strlit("candidates");
            reveal_strlit("stop");
            reveal_strlit("gemini_resp");
        }
        let cands = match raw.get("candidates") {
            Some(x) => x.as_array(),
            None => None,
        };
        let cs = match cands {
            Some(cs) => cs,
            None => {
                return Err(crate::text::concat("Failed to extract choices from Gemini response structure: ",
                    response_body));
            },
        };
        proof { crate::json::lemma_jv_seq_len(cs@); }
        if cs.len() == 0 {
            return crate::chat_api::handle_empty_candidates(raw, response_body);
        }
        let c = &cs[0];
        let finish = match c.get("finishReason") {
            Some(f) => match f.as_str() {
                Some(s) => to_owned(s),
                None => to_owned("unknown"),
            },
            None => to_owned("unknown"),
        };
        proof { reveal_strlit("finishReason"); reveal_strlit("unknown"); }
        assert(finish@ == finish_reason_of(jv_seq(cs@)[0]));
        if !(crate::chat_api::standard_finish(finish.as_str()) || crate::text::str_eq(finish.as_str(), "stop")) {
            return crate::chat_api::handle_non_standard_finish_reason(raw, finish.as_str(), response_body);
        }
        match crate::chat_api::parse_candidate(c, finish.as_str(), Some("gemini_tool"), Some("assistant")) {
            Some(ch) => {
                let content = match &ch.message.content {
                    Some(t) => t.clone(),
                    None => String::new(),
                };
                let fr = ch.finish_reason.clone();
                let (prompt, completion) = crate::providers::gemini_counts(raw);
                let mut choices: Vec<Choice> = Vec::new();
                choices.push(ch);
                let resp = ApiResponse {
                    id: crate::chat_api::generate_id("gemini_resp"),
                    content: content,
                    finish_reason: fr,
                    prompt_tokens: prompt,
                    completion_tokens: completion,
                    total_tokens: prompt + completion,
                    choices: choices,
                };
                proof {
                    reveal_strlit("gemini_tool");
                    reveal_strlit("assistant");
                    let t = client_answer(raw@, response_body@)->Ok_0;
                    assert(resp@.choices.len() == 1);
                    assert(resp@.choices[0] == choices@[0]@);
                    assert forall|i: int| 0 <= i < resp@.choices.len() implies
                        crate::chat_api::choice_instance(#[trigger] resp@.choices[i], t.choices[i]) by {}
                }
                Ok(resp)
            },
            None => Err(crate::text::concat("Failed to extract choices from Gemini response structure: ", response_body)),
        }
    }

    /// An endpoint with the API key put in its query, where there is a key.
    pub fn adapt_endpoint(&self, endpoint: &str, api_key: &str) -> (r: Result<String, String>)
        ensures
            r matches Ok(u) && u@ == if api_key@.len() > 0 { endpoint@ + "?key="@ + api_key@ } else { endpoint@ },
    {
        let mut url = to_owned(endpoint);
        if !api_key.is_empty() {
            push_str(&mut url, "?key=");
            push_str(&mut url, api_key);
        }
        Ok(url)
    }

    /// The headers of a request.
    pub fn build_headers(&self) -> (r: Result<Vec<(String, String)>, String>)
        ensures
            r matches Ok(h) && header_pairs(h@) == gemini_headers(self.api_key@),
    {
        let mut h: Vec<(String, String)> = Vec::new();
        h.push((to_owned("Content-Type"), to_owned("application/json")));
        if !self.api_key.as_str().is_empty() {
            h.push((to_owned("x-goog-api-key"), self.api_key.clone()));
        }
        assert(header_pairs(h@) =~= gemini_headers(self.api_key@));
        Ok(h)
    }
}

/// The Gemini client reads an answer whose first candidate finished with
/// `STOP`, `MAX_TOKENS`, `TOOL_CALLS` or `stop` and holds content with
/// parts: one choice, the candidate's finish reason, and the parts' joined
/// text as content. A candidate that finished for any other reason is
/// refused.
pub proof fn law_client_finish_reasons(raw: JsonV, body: Seq<char>, cs: Seq<JsonV>, f: Seq<char>,
    content: JsonV, parts: Seq<JsonV>)
    requires
        get_array(raw, "candidates"@) == Some(cs),
        cs.len() > 0,
        crate::json::get_str(cs[0], "finishReason"@) == Some(f),
    ensures
        (f == "STOP"@ || f == "MAX_TOKENS"@ || f == "TOOL_CALLS"@ || f == "stop"@)
            && crate::json::get(cs[0], "content"@) == Some(content)
            && get_array(content, "parts"@) == Some(parts)
            ==> (client_answer(raw, body) matches Ok(a) && a.finish_reason == f && a.choices.len() == 1
                && a.content == crate::chat_api::parts_text(parts, parts.len())),
        !(f == "STOP"@ || f == "MAX_TOKENS"@ || f == "TOOL_CALLS"@ || f == "stop"@) ==> client_answer(raw, body) is Err,
{
}

} // verus!
