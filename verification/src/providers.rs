//! The configured model providers: where each sends its requests, the
//! payload each builds from a conversation, and how each reads an answer.

use vstd::prelude::*;
use crate::json::{Json, JsonV, jv_seq, jv_entries, jstr, get, at_key, at_index, str_of, as_u64, with_member,
    set_member, lemma_jv_seq_push, lemma_jv_entries_push};
use crate::models::{ChatMessage, ChatMessageV, ToolDefinition, Choice, ApiResponse, ApiResponseV, ChoiceV,
    msgs_view, object1, object2};
use crate::chat_api::{function_declaration, make_function_declaration, typed_function};
use crate::openai_api::typed_functions;
use crate::toml_value::{TomlValue, toml_get};
use crate::text::{to_owned, push_str, decimal, u64_to_decimal};

verus! {

/// What a provider is configured with: the model, and optionally an
/// endpoint and model parameters.
#[derive(Debug)]
pub struct ModelConfig {
    pub model_name: String,
    pub endpoint: Option<String>,
    pub parameters: Option<TomlValue>,
}

/// The text of a message's content, empty where it has none.
pub open spec fn content_text(m: ChatMessageV) -> Seq<char> {
    match m.content {
        Some(c) => c,
        None => Seq::empty(),
    }
}

fn content_of(m: &ChatMessage) -> (r: String)
    ensures
        r@ == content_text(m@),
{
    match &m.content {
        Some(c) => c.clone(),
        None => String::new(),
    }
}

/// The object whose members are set from the floats among the first `n`
/// entries of a table.
pub open spec fn float_config(table: Seq<(String, TomlValue)>, n: nat) -> Seq<(Seq<char>, JsonV)>
    decreases n,
{
    if n == 0 {
        Seq::empty()
    } else {
        let prev = float_config(table, (n - 1) as nat);
        match table[n - 1].1 {
            TomlValue::Float(f) => with_member(prev, table[n - 1].0@, JsonV::Number(f@)),
            _ => prev,
        }
    }
}

fn float_object(table: &Vec<(String, TomlValue)>) -> (r: Json)
    ensures
        r@ == JsonV::Object(float_config(table@, table@.len())),
{
    let mut es: Vec<(String, Json)> = Vec::new();
    let mut k: usize = 0;
    while k < table.len()
        invariant
            k <= table.len(),
            jv_entries(es@) == float_config(table@, k as nat),
        decreases table.len() - k,
    {
        match &table[k].1 {
            TomlValue::Float(f) => {
                set_member(&mut es, table[k].0.as_str(), Json::Number(f.clone()));
            },
            _ => {},
        }
        k = k + 1;
    }
    Json::Object(es)
}

/// Gemini's model endpoints, where no endpoint is configured.
pub open spec fn gemini_base_url() -> Seq<char> {
    "https://generativelanguage.googleapis.com/v1beta/models"@
}

/// A Gemini model.
pub struct GeminiProvider {
    pub config: ModelConfig,
    pub api_key: String,
}

/// One message as Gemini contents: its role and its text as one part.
pub open spec fn gemini_content(m: ChatMessageV) -> JsonV {
    JsonV::Object(seq![
        ("role"@, JsonV::String(m.role)),
        ("parts"@, JsonV::Array(seq![JsonV::Object(seq![("text"@, JsonV::String(content_text(m)))])])),
    ])
}

/// The request payload for a Gemini model: the messages as contents; each
/// tool in a declaration of its own where there are tools; and, where the
/// parameters hold a `generation_config` table, its floats as the
/// generation config.
pub open spec fn gemini_model_payload(ms: Seq<ChatMessageV>, tools: Option<Seq<ToolDefinition>>,
    params: Option<TomlValue>) -> JsonV
{
    let base = seq![("contents"@, JsonV::Array(ms.map_values(|m: ChatMessageV| gemini_content(m))))];
    let with_tools = match tools {
        Some(ts) => if ts.len() > 0 {
            with_member(base, "tools"@, JsonV::Array(ts.map_values(|t: ToolDefinition|
                JsonV::Object(seq![("functionDeclarations"@, JsonV::Array(seq![function_declaration(t)]))]))))
        } else {
            base
        },
        None => base,
    };
    let members = match params {
        Some(p) => match toml_get(p, "generation_config"@) {
            Some(TomlValue::Table(t)) => with_member(with_tools, "generationConfig"@,
                JsonV::Object(float_config(t@, t@.len()))),
            _ => with_tools,
        },
        None => with_tools,
    };
    JsonV::Object(members)
}

/// A usage count of a Gemini answer, zero where it is missing, cut to 32 bits
/// as an `as u32` cast does.
pub open spec fn gemini_count(raw: JsonV, k: Seq<char>) -> u32 {
    (match as_u64(at_key(get(raw, "usageMetadata"@), k)) {
        Some(n) => n,
        None => 0u64,
    }) as u32
}

/// Whether the two usage counts of a Gemini answer add up within 32 bits.
pub open spec fn gemini_counts_fit(raw: JsonV) -> bool {
    gemini_count(raw, "promptTokenCount"@) + gemini_count(raw, "candidatesTokenCount"@) <= u32::MAX
}

/// The first candidate of a Gemini answer.
pub open spec fn first_candidate(raw: JsonV) -> Option<JsonV> {
    at_index(get(raw, "candidates"@), 0)
}

/// How a Gemini answer is read: the text of the first part of the first
/// candidate is needed; the finish reason is `stop` where it has none; the
/// total counts both usage counts; the identifier is the prompt feedback's
/// token count, where there is one, in decimal.
pub open spec fn gemini_model_answer(raw: JsonV) -> Result<ApiResponseV, Seq<char>> {
    let text = str_of(at_key(at_index(at_key(at_key(first_candidate(raw), "content"@), "parts"@), 0), "text"@));
    match text {
        None => Err("Missing text content in Gemini response"@),
        Some(content) => {
            let finish = match str_of(at_key(first_candidate(raw), "finishReason"@)) {
                Some(f) => f,
                None => "stop"@,
            };
            let prompt = gemini_count(raw, "promptTokenCount"@);
            let completion = gemini_count(raw, "candidatesTokenCount"@);
            Ok(ApiResponseV {
                id: match as_u64(at_key(get(raw, "promptFeedback"@), "promptTokenCount"@)) {
                    Some(n) => decimal(n as nat),
                    None => Seq::empty(),
                },
                content,
                finish_reason: finish,
                prompt_tokens: prompt,
                completion_tokens: completion,
                total_tokens: (prompt + completion) as u32,
                choices: seq![ChoiceV {
                    index: 0,
                    message: ChatMessageV {
                        role: "assistant"@,
                        content: Some(content),
                        tool_calls: None,
                        tool_call_id: None,
                    },
                    finish_reason: finish,
                }],
            })
        },
    }
}

fn member<'a>(v: Option<&'a Json>, k: &str) -> (r: Option<&'a Json>)
    ensures
        crate::json::opt_jv(r) == at_key(crate::json::opt_jv(v), k@),
{
    match v {
        Some(x) => x.get(k),
        None => None,
    }
}

fn element<'a>(v: Option<&'a Json>, i: usize) -> (r: Option<&'a Json>)
    ensures
        crate::json::opt_jv(r) == at_index(crate::json::opt_jv(v), i as int),
{
    match v {
        Some(x) => x.nth(i),
        None => None,
    }
}

fn text_at(v: Option<&Json>) -> (r: Option<String>)
    ensures
        crate::models::opt_str(r) == str_of(crate::json::opt_jv(v)),
{
    match v {
        Some(x) => match x.as_str() {
            Some(s) => Some(to_owned(s)),
            None => None,
        },
        None => None,
    }
}

fn count_at(v: Option<&Json>) -> (r: u64)
    ensures
        r == match as_u64(crate::json::opt_jv(v)) { Some(n) => n, None => 0u64 },
{
    match v {
        Some(x) => match x.as_u64() {
            Some(n) => n,
            None => 0,
        },
        None => 0,
    }
}

/// One assistant choice holding `content`.
fn assistant_choice(content: &String, finish: &String) -> (c: Choice)
    ensures
        c@ == (ChoiceV {
            index: 0,
            message: ChatMessageV { role: "assistant"@, content: Some(content@), tool_calls: None, tool_call_id: None },
            finish_reason: finish@,
        }),
{
    let message = ChatMessage {
        role: to_owned("assistant"),
        content: Some(content.clone()),
        tool_calls: None,
        tool_call_id: None,
    };
    Choice { index: 0, message, finish_reason: finish.clone() }
}

impl GeminiProvider {
    /// A Gemini model with its configuration and API key.
    pub fn new(config: ModelConfig, api_key: String) -> (p: Self)
        ensures
            p.config == config,
            p.api_key == api_key,
    {
        GeminiProvider { config, api_key }
    }

    /// The model's name.
    pub fn name(&self) -> (r: &str)
        ensures
            r@ == self.config.model_name@,
    {
        self.config.model_name.as_str()
    }

    /// Where requests go: the configured endpoint, or the model's
    /// `generateContent` endpoint with the key in the query.
    pub fn build_endpoint(&self) -> (r: String)
        ensures
            r@ == match self.config.endpoint {
                Some(e) => e@,
                None => gemini_base_url() + "/"@ + self.config.model_name@ + ":generateContent?key="@ + self.api_key@,
            },
    {
        match &self.config.endpoint {
            Some(e) => e.clone(),
            None => {
                let mut r = to_owned("https://generativelanguage.googleapis.com/v1beta/models");
                push_str(&mut r, "/");
                push_str(&mut r, self.config.model_name.as_str());
                push_str(&mut r, ":generateContent?key=");
                push_str(&mut r, self.api_key.as_str());
                r
            },
        }
    }

    /// The request payload for a conversation and the tools on offer.
    pub fn build_payload(&self, messages: &Vec<ChatMessage>, tools: Option<&Vec<ToolDefinition>>) -> (r: Result<Json, String>)
        ensures
            r matches Ok(p) && p@ == gemini_model_payload(msgs_view(messages@),
                match tools { Some(t) => Some(t@), None => None }, self.config.parameters),
    {
        let mut contents: Vec<Json> = Vec::new();
        let mut i: usize = 0;
        while i < messages.len()
            invariant
                i <= messages.len(),
                jv_seq(contents@) == msgs_view(messages@).subrange(0, i as int).map_values(|m: ChatMessageV| gemini_content(m)),
            decreases messages.len() - i,
        {
            let c = gemini_content_json(&messages[i]);
            proof { lemma_jv_seq_push(contents@, c); }
            contents.push(c);
            i = i + 1;
            assert(jv_seq(contents@) =~= msgs_view(messages@).subrange(0, i as int).map_values(|m: ChatMessageV| gemini_content(m)));
        }
        assert(msgs_view(messages@).subrange(0, messages.len() as int) =~= msgs_view(messages@));
        let mut es: Vec<(String, Json)> = Vec::new();
        let e0 = (to_owned("contents"), Json::Array(contents));
        proof { lemma_jv_entries_push(es@, e0); }
        es.push(e0);
        match tools {
            Some(ts) => if ts.len() > 0 {
                let mut decls: Vec<Json> = Vec::new();
                let mut k: usize = 0;
                while k < ts.len()
                    invariant
                        k <= ts.len(),
                        jv_seq(decls@) == ts@.subrange(0, k as int).map_values(|t: ToolDefinition|
                            JsonV::Object(seq![("functionDeclarations"@, JsonV::Array(seq![function_declaration(t)]))])),
                    decreases ts.len() - k,
                {
                    let d = make_function_declaration(&ts[k]);
                    let mut one: Vec<Json> = Vec::new();
                    one.push(d);
                    proof { lemma_jv_seq_push(Seq::<Json>::empty(), d); }
                    assert(jv_seq(one@) =~= seq![d@]);
                    let w = object1("functionDeclarations", Json::Array(one));
                    proof { lemma_jv_seq_push(decls@, w); }
                    decls.push(w);
                    k = k + 1;
                    assert(jv_seq(decls@) =~= ts@.subrange(0, k as int).map_values(|t: ToolDefinition|
                        JsonV::Object(seq![("functionDeclarations"@, JsonV::Array(seq![function_declaration(t)]))])));
                }
                assert(ts@.subrange(0, ts.len() as int) =~= ts@);
                set_member(&mut es, "tools", Json::Array(decls));
            },
            None => {},
        }
        let ghost with_tools = jv_entries(es@);
        match &self.config.parameters {
            Some(p) => match p.get("generation_config") {
                Some(TomlValue::Table(t)) => {
                    set_member(&mut es, "generationConfig", float_object(t));
                },
                _ => {},
            },
            None => {},
        }
        proof {
            match &self.config.parameters {
                Some(p) => match toml_get(*p, "generation_config"@) {
                    Some(TomlValue::Table(t)) => {},
                    _ => { assert(jv_entries(es@) =~= with_tools); },
                },
                None => { assert(jv_entries(es@) =~= with_tools); },
            }
        }
        Ok(Json::Object(es))
    }

    /// Reads an answer whose usage counts add up within 32 bits.
    pub fn parse_response(&self, raw: &Json) -> (r: Result<ApiResponse, String>)
        requires
            gemini_counts_fit(raw@),
        ensures
            match gemini_model_answer(raw@) {
                Ok(a) => r matches Ok(x) && x@ == a,
                Err(m) => r matches Err(e) && e@ == m,
            },
    {
        read_gemini_answer(raw)
    }
}

/// The two usage counts of a Gemini answer: the prompt's and the
/// candidates'.
pub fn gemini_counts(raw: &Json) -> (r: (u32, u32))
    ensures
        r.0 == gemini_count(raw@, "promptTokenCount"@),
        r.1 == gemini_count(raw@, "candidatesTokenCount"@),
{
    let usage = raw.get("usageMetadata");
    let prompt = count_at(member(usage, "promptTokenCount")) as u32;
    let completion = count_at(member(usage, "candidatesTokenCount")) as u32;
    (prompt, completion)
}

/// Whether the two usage counts of a Gemini answer add up within 32 bits,
/// which reading the answer needs.
pub fn gemini_counts_within(raw: &Json) -> (r: bool)
    ensures
        r == gemini_counts_fit(raw@),
{
    let (prompt, completion) = gemini_counts(raw);
    prompt as u64 + completion as u64 <= u32::MAX as u64
}

/// Reads a Gemini answer whose usage counts add up within 32 bits.
pub fn read_gemini_answer(raw: &Json) -> (r: Result<ApiResponse, String>)
    requires
        gemini_counts_fit(raw@),
    ensures
        match gemini_model_answer(raw@) {
            Ok(a) => r matches Ok(x) && x@ == a,
            Err(m) => r matches Err(e) && e@ == m,
        },
{
    let cand = element(raw.get("candidates"), 0);
    let text = text_at(member(element(member(member(cand, "content"), "parts"), 0), "text"));
    let content = match text {
        Some(t) => t,
        None => return Err(to_owned("Missing text content in Gemini response")),
    };
    let finish = match text_at(member(cand, "finishReason")) {
        Some(f) => f,
        None => to_owned("stop"),
    };
    let usage = raw.get("usageMetadata");
    let prompt = count_at(member(usage, "promptTokenCount")) as u32;
    let completion = count_at(member(usage, "candidatesTokenCount")) as u32;
    let total = prompt + completion;
    let id = match member(raw.get("promptFeedback"), "promptTokenCount") {
        Some(v) => match v.as_u64() {
            Some(n) => u64_to_decimal(n),
            None => String::new(),
        },
        None => String::new(),
    };
    let mut choices: Vec<Choice> = Vec::new();
    choices.push(assistant_choice(&content, &finish));
    let r = ApiResponse {
        id,
        content,
        finish_reason: finish,
        prompt_tokens: prompt,
        completion_tokens: completion,
        total_tokens: total,
        choices,
    };
    assert(r@.choices =~= seq![r.choices@[0]@]);
    Ok(r)
}

/// One message as Gemini contents.
pub fn gemini_content_json(m: &ChatMessage) -> (r: Json)
    ensures
        r@ == gemini_content(m@),
{
    let part = object1("text", Json::String(content_of(m)));
    let mut parts: Vec<Json> = Vec::new();
    parts.push(part);
    proof { lemma_jv_seq_push(Seq::<Json>::empty(), part); }
    assert(jv_seq(parts@) =~= seq![part@]);
    object2("role", jstr(m.role.as_str()), "parts", Json::Array(parts))
}

/// The endpoint of a local Ollama server, where none is configured.
pub open spec fn default_ollama_endpoint() -> Seq<char> {
    "http://127.0.0.1:11434/api/chat"@
}

/// An Ollama model.
pub struct OllamaProvider {
    pub config: ModelConfig,
}

/// One message as Ollama takes it: its role and its text.
pub open spec fn ollama_message(m: ChatMessageV) -> JsonV {
    JsonV::Object(seq![("role"@, JsonV::String(m.role)), ("content"@, JsonV::String(content_text(m)))])
}

/// The request payload for an Ollama model: the model, the messages, the
/// tools where there are any, the temperature where the parameters give it
/// as a float, and streaming turned off.
pub open spec fn ollama_model_payload(model: Seq<char>, ms: Seq<ChatMessageV>, tools: Option<Seq<ToolDefinition>>,
    params: Option<TomlValue>) -> JsonV
{
    let base = seq![
        ("model"@, JsonV::String(model)),
        ("messages"@, JsonV::Array(ms.map_values(|m: ChatMessageV| ollama_message(m)))),
    ];
    let with_tools = match tools {
        Some(ts) => if ts.len() > 0 {
            with_member(base, "tools"@, JsonV::Array(ts.map_values(|t: ToolDefinition| typed_function(t))))
        } else {
            base
        },
        None => base,
    };
    let with_params = match params {
        Some(p) => match toml_get(p, "temperature"@) {
            Some(TomlValue::Float(f)) => with_member(with_tools, "temperature"@, JsonV::Number(f@)),
            _ => with_tools,
        },
        None => with_tools,
    };
    JsonV::Object(with_member(with_params, "stream"@, JsonV::Bool(false)))
}

/// How an Ollama model's answer is read: the message's content is needed;
/// the identifier is the model's name where the answer gives it.
pub open spec fn ollama_model_answer(raw: JsonV) -> Result<ApiResponseV, Seq<char>> {
    match str_of(at_key(get(raw, "message"@), "content"@)) {
        None => Err("Missing content in Ollama response"@),
        Some(content) => Ok(ApiResponseV {
            id: match str_of(get(raw, "model"@)) { Some(m) => m, None => Seq::empty() },
            content,
            finish_reason: "stop"@,
            prompt_tokens: 0,
            completion_tokens: 0,
            total_tokens: 0,
            choices: seq![ChoiceV {
                index: 0,
                message: ChatMessageV {
                    role: "assistant"@,
                    content: Some(content),
                    tool_calls: None,
                    tool_call_id: None,
                },
                finish_reason: "stop"@,
            }],
        }),
    }
}

impl OllamaProvider {
    /// An Ollama model with its configuration; it takes no API key.
    pub fn new(config: ModelConfig, api_key: String) -> (p: Self)
        ensures
            p.config == config,
    {
        OllamaProvider { config }
    }

    /// The model's name.
    pub fn name(&self) -> (r: &str)
        ensures
            r@ == self.config.model_name@,
    {
        self.config.model_name.as_str()
    }

    /// Where requests go: the configured endpoint, or the local server.
    pub fn endpoint(&self) -> (r: String)
        ensures
            r@ == match self.config.endpoint { Some(e) => e@, None => default_ollama_endpoint() },
    {
        match &self.config.endpoint {
            Some(e) => e.clone(),
            None => to_owned("http://127.0.0.1:11434/api/chat"),
        }
    }

    /// The request payload for a conversation and the tools on offer.
    pub fn build_payload(&self, messages: &Vec<ChatMessage>, tools: Option<&Vec<ToolDefinition>>) -> (r: Result<Json, String>)
        ensures
            r matches Ok(p) && p@ == ollama_model_payload(self.config.model_name@, msgs_view(messages@),
                match tools { Some(t) => Some(t@), None => None }, self.config.parameters),
    {
        let mut msgs: Vec<Json> = Vec::new();
        let mut i: usize = 0;
        while i < messages.len()
            invariant
                i <= messages.len(),
                jv_seq(msgs@) == msgs_view(messages@).subrange(0, i as int).map_values(|m: ChatMessageV| ollama_message(m)),
            decreases messages.len() - i,
        {
            let m = &messages[i];
            let o = object2("role", jstr(m.role.as_str()), "content", Json::String(content_of(m)));
            proof { lemma_jv_seq_push(msgs@, o); }
            msgs.push(o);
            i = i + 1;
            assert(jv_seq(msgs@) =~= msgs_view(messages@).subrange(0, i as int).map_values(|m: ChatMessageV| ollama_message(m)));
        }
        assert(msgs_view(messages@).subrange(0, messages.len() as int) =~= msgs_view(messages@));
        let mut es: Vec<(String, Json)> = Vec::new();
        let e0 = (to_owned("model"), jstr(self.config.model_name.as_str()));
        let e1 = (to_owned("messages"), Json::Array(msgs));
        proof {
            lemma_jv_entries_push(es@, e0);
            lemma_jv_entries_push(es@.push(e0), e1);
        }
        es.push(e0);
        es.push(e1);
        let ghost base = jv_entries(es@);
        assert(base =~= seq![
            ("model"@, JsonV::String(self.config.model_name@)),
            ("messages"@, JsonV::Array(msgs_view(messages@).map_values(|m: ChatMessageV| ollama_message(m)))),
        ]);
        match tools {
            Some(ts) => if ts.len() > 0 {
                set_member(&mut es, "tools", typed_functions(ts));
            },
            None => {},
        }
        let ghost with_tools = jv_entries(es@);
        assert(with_tools == match tools {
            Some(ts) => if ts@.len() > 0 {
                with_member(base, "tools"@, JsonV::Array(ts@.map_values(|t: ToolDefinition| typed_function(t))))
            } else {
                base
            },
            None => base,
        });
        match &self.config.parameters {
            Some(p) => match p.get("temperature") {
                Some(TomlValue::Float(f)) => {
                    set_member(&mut es, "temperature", Json::Number(f.clone()));
                },
                _ => {},
            },
            None => {},
        }
        proof {
            match &self.config.parameters {
                Some(p) => match toml_get(*p, "temperature"@) {
                    Some(TomlValue::Float(f)) => {},
                    _ => { assert(jv_entries(es@) =~= with_tools); },
                },
                None => { assert(jv_entries(es@) =~= with_tools); },
            }
        }
        set_member(&mut es, "stream", Json::Bool(false));
        Ok(Json::Object(es))
    }

    /// Reads an answer.
    pub fn parse_response(&self, raw: &Json) -> (r: Result<ApiResponse, String>)
        ensures
            match ollama_model_answer(raw@) {
                Ok(a) => r matches Ok(x) && x@ == a,
                Err(m) => r matches Err(e) && e@ == m,
            },
    {
        let content = match text_at(member(raw.get("message"), "content")) {
            Some(c) => c,
            None => return Err(to_owned("Missing content in Ollama response")),
        };
        let id = match text_at(raw.get("model")) {
            Some(m) => m,
            None => String::new(),
        };
        let stop = to_owned("stop");
        let mut choices: Vec<Choice> = Vec::new();
        choices.push(assistant_choice(&content, &stop));
        let r = ApiResponse {
            id,
            content,
            finish_reason: stop,
            prompt_tokens: 0,
            completion_tokens: 0,
            total_tokens: 0,
            choices,
        };
        assert(r@.choices =~= seq![r.choices@[0]@]);
        Ok(r)
    }
}

/// An OpenAI model.
pub struct OpenAIProvider {
    pub config: ModelConfig,
    pub api_key: String,
}

impl OpenAIProvider {
    /// An OpenAI model with its configuration and API key.
    pub fn new(config: ModelConfig, api_key: String) -> (p: Self)
        ensures
            p.config == config,
            p.api_key == api_key,
    {
        OpenAIProvider { config, api_key }
    }

    /// The model's name.
    pub fn name(&self) -> (r: &str)
        ensures
            r@ == self.config.model_name@,
    {
        self.config.model_name.as_str()
    }

    /// The client of the chat-completions API that a completion goes
    /// through: this model's key, at the configured endpoint or the default.
    pub fn api_client(&self) -> (c: crate::openai_api::OpenAIProvider)
        ensures
            c.api_key@ == self.api_key@,
            c.endpoint@ == match self.config.endpoint {
                Some(e) => e@,
                None => crate::openai_api::default_openai_endpoint(),
            },
    {
        let endpoint = match &self.config.endpoint {
            Some(e) => e.clone(),
            None => to_owned("https://api.openai.com/v1/chat/completions"),
        };
        crate::openai_api::OpenAIProvider::new(self.api_key.clone(), Some(endpoint))
    }
}

/// The provider types that can be configured.
pub open spec fn supported_provider_type(t: Seq<char>) -> bool {
    t == "gemini"@ || t == "ollama"@ || t == "openai"@
}

/// A provider made from its configuration.
pub enum ConfiguredProvider {
    Gemini(GeminiProvider),
    Ollama(OllamaProvider),
    OpenAI(OpenAIProvider),
}

/// Makes a provider of the configured type: `gemini`, `ollama` or `openai`;
/// any other type is refused.
pub fn build_provider(provider_type: &str, config: ModelConfig, api_key: String) -> (r: Result<ConfiguredProvider, String>)
    ensures
        provider_type@ == "gemini"@ ==> (r matches Ok(ConfiguredProvider::Gemini(g)) && g.config == config && g.api_key == api_key),
        provider_type@ == "ollama"@ ==> (r matches Ok(ConfiguredProvider::Ollama(o)) && o.config == config),
        provider_type@ == "openai"@ ==>
            (r matches Ok(ConfiguredProvider::OpenAI(o)) && o.config == config && o.api_key == api_key),
        !supported_provider_type(provider_type@) ==>
            (r matches Err(e) && e@ == "Unsupported provider type: "@ + provider_type@),
{
    proof {
        reveal_strlit("gemini");
        reveal_strlit("ollama");
        reveal_strlit("openai");
        assert("gemini"@[0] != "ollama"@[0]);
        assert("gemini"@[0] != "openai"@[0]);
        assert("ollama"@.len() == "openai"@.len() && "ollama"@[1] != "openai"@[1]);
    }
    if crate::text::str_eq(provider_type, "gemini") {
        Ok(ConfiguredProvider::Gemini(GeminiProvider::new(config, api_key)))
    } else if crate::text::str_eq(provider_type, "ollama") {
        Ok(ConfiguredProvider::Ollama(OllamaProvider::new(config, api_key)))
    } else if crate::text::str_eq(provider_type, "openai") {
        Ok(ConfiguredProvider::OpenAI(OpenAIProvider::new(config, api_key)))
    } else {
        let mut e = to_owned("Unsupported provider type: ");
        push_str(&mut e, provider_type);
        Err(e)
    }
}

/// One configured provider: its id, its type, its model configuration and
/// the API key read for it.
pub struct ProviderEntry {
    pub id: String,
    pub provider_type: String,
    pub config: ModelConfig,
    pub api_key: String,
}

/// Whether `p` is the provider that `build_provider` makes of the entry.
pub open spec fn provider_built(p: ConfiguredProvider, e: ProviderEntry) -> bool {
    match p {
        ConfiguredProvider::Gemini(g) => e.provider_type@ == "gemini"@ && g.config == e.config && g.api_key == e.api_key,
        ConfiguredProvider::Ollama(o) => e.provider_type@ == "ollama"@ && o.config == e.config,
        ConfiguredProvider::OpenAI(o) => e.provider_type@ == "openai"@ && o.config == e.config && o.api_key == e.api_key,
    }
}

/// Whether every entry before `n` has a supported type.
pub open spec fn all_supported(es: Seq<ProviderEntry>, n: int) -> bool {
    forall|j: int| 0 <= j < n ==> supported_provider_type(#[trigger] es[j].provider_type@)
}

/// The registry of the configured providers: one provider per entry, in the
/// entries' order and under the entry's id, where every type is supported;
/// otherwise the error of the first entry whose type is not.
pub fn build_registry(entries: Vec<ProviderEntry>) -> (r: Result<Vec<(String, ConfiguredProvider)>, String>)
    ensures
        all_supported(entries@, entries@.len() as int) ==> (r matches Ok(reg)
            && reg@.len() == entries@.len()
            && forall|i: int| 0 <= i < reg@.len() ==>
                (#[trigger] reg@[i]).0 == entries@[i].id && provider_built(reg@[i].1, entries@[i])),
        !all_supported(entries@, entries@.len() as int) ==> exists|k: int| 0 <= k < entries@.len()
            && all_supported(entries@, k) && !supported_provider_type(#[trigger] entries@[k].provider_type@)
            && (r matches Err(e) && e@ == "Unsupported provider type: "@ + entries@[k].provider_type@),
{
    let ghost all = entries@;
    let mut rest = entries;
    let mut reg: Vec<(String, ConfiguredProvider)> = Vec::new();
    let mut failure: Option<String> = None;
    let mut i: usize = 0;
    assert(all.len() == rest.len());
    proof {
        reveal_strlit("gemini");
        reveal_strlit("ollama");
        reveal_strlit("openai");
    }
    while rest.len() > 0 && failure.is_none()
        invariant
            all.len() <= usize::MAX,
            i <= all.len(),
            failure is None ==> i + rest@.len() == all.len() && rest@ == all.subrange(i as int, all.len() as int),
            reg@.len() == i,
            all_supported(all, i as int),
            forall|j: int| 0 <= j < i ==> (#[trigger] reg@[j]).0 == all[j].id && provider_built(reg@[j].1, all[j]),
            failure matches Some(m) ==> i < all.len() && !supported_provider_type(all[i as int].provider_type@)
                && m@ == "Unsupported provider type: "@ + all[i as int].provider_type@,
        decreases rest@.len() + (if failure is None { 1int } else { 0int }),
    {
        let e = rest.remove(0);
        assert(e == all[i as int]);
        let ProviderEntry { id, provider_type, config, api_key } = e;
        match build_provider(provider_type.as_str(), config, api_key) {
            Ok(p) => {
                reg.push((id, p));
                i = i + 1;
                assert(rest@ =~= all.subrange(i as int, all.len() as int));
            },
            Err(m) => {
                failure = Some(m);
            },
        }
    }
    match failure {
        Some(m) => {
            assert(!all_supported(all, all.len() as int));
            Err(m)
        },
        None => Ok(reg),
    }
}

} // verus!
