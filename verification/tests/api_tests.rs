use volition::gemini_api::{GeminiProvider, BASE_ENDPOINT};
use volition::json::Json;
use volition::models::{ChatMessage, ToolDefinition, ToolParametersDefinition};
use volition::ollama_api::{parse_response_with_id, OllamaProvider};
use volition::openai_api::OpenAIProvider;
use volition::providers::{
    build_provider, build_registry, gemini_counts_within, ConfiguredProvider, ProviderEntry, GeminiProvider as GeminiModel, ModelConfig, OpenAIProvider as OpenAIModel,
};
use volition::toml_value::TomlValue;

fn to_json(v: &serde_json::Value) -> Json {
    match v {
        serde_json::Value::Null => Json::Null,
        serde_json::Value::Bool(b) => Json::Bool(*b),
        serde_json::Value::Number(n) => Json::Number(n.to_string()),
        serde_json::Value::String(s) => Json::String(s.clone()),
        serde_json::Value::Array(a) => Json::Array(a.iter().map(to_json).collect()),
        serde_json::Value::Object(m) => {
            Json::Object(m.iter().map(|(k, v)| (k.clone(), to_json(v))).collect())
        }
    }
}

fn parse(text: &str) -> Json {
    to_json(&serde_json::from_str::<serde_json::Value>(text).unwrap())
}

fn key<'a>(j: &'a Json, k: &str) -> &'a Json {
    j.get(k).unwrap_or_else(|| panic!("missing member {}", k))
}

fn nth(j: &Json, i: usize) -> &Json {
    j.nth(i).unwrap_or_else(|| panic!("missing element {}", i))
}

fn text(j: &Json) -> &str {
    j.as_str().expect("a string")
}

fn header<'a>(headers: &'a [(String, String)], name: &str) -> Option<&'a str> {
    headers.iter().find(|(k, _)| k == name).map(|(_, v)| v.as_str())
}

fn message(role: &str, content: &str) -> ChatMessage {
    ChatMessage {
        role: role.to_string(),
        content: Some(content.to_string()),
        tool_calls: None,
        tool_call_id: None,
    }
}

fn create_empty_tool_parameters() -> ToolParametersDefinition {
    ToolParametersDefinition {
        param_type: "object".to_string(),
        properties: Vec::new(),
        required: Vec::new(),
    }
}

fn tool(name: &str, description: &str) -> ToolDefinition {
    ToolDefinition {
        name: name.to_string(),
        description: description.to_string(),
        parameters: create_empty_tool_parameters(),
    }
}

#[test]
fn test_gemini_provider_construction() {
    let provider = GeminiProvider::new("test_key".to_string(), None, "gemini-pro".to_string());
    assert_eq!(
        provider.get_endpoint(),
        format!("{}/gemini-pro:generateContent", BASE_ENDPOINT)
    );

    let custom_endpoint = "https://custom-endpoint.com".to_string();
    let provider = GeminiProvider::new(
        "test_key".to_string(),
        Some(custom_endpoint.clone()),
        "gemini-pro".to_string(),
    );
    assert_eq!(provider.get_endpoint(), custom_endpoint);
}

#[test]
fn test_openai_provider_construction() {
    let provider = OpenAIProvider::new("test_key".to_string(), None);
    assert_eq!(provider.get_endpoint(), "https://api.openai.com/v1/chat/completions");

    let custom_endpoint = "https://custom.openai.com/v1/chat/completions".to_string();
    let provider = OpenAIProvider::new("test_key".to_string(), Some(custom_endpoint.clone()));
    assert_eq!(provider.get_endpoint(), custom_endpoint);
}

#[test]
fn test_ollama_provider_construction() {
    let provider = OllamaProvider::new("http://localhost:11434/api/chat".to_string());
    assert_eq!(provider.get_endpoint(), "http://localhost:11434/api/chat");

    let custom_endpoint = "http://custom:11434/api/chat".to_string();
    let provider = OllamaProvider::new(custom_endpoint.clone());
    assert_eq!(provider.get_endpoint(), custom_endpoint);
}

#[test]
fn test_gemini_build_payload() {
    let provider = GeminiProvider::new("test_key".to_string(), None, "gemini-pro".to_string());
    let messages = vec![message("user", "Hello"), message("assistant", "Hi there!")];

    let payload = provider.build_payload("gemini-pro", &messages, None, None).unwrap();
    assert_eq!(text(key(&payload, "model")), "gemini-pro");
    let contents = key(&payload, "contents");
    assert_eq!(text(key(nth(contents, 0), "role")), "user");
    assert_eq!(text(key(nth(key(nth(contents, 0), "parts"), 0), "text")), "Hello");
    assert_eq!(text(key(nth(contents, 1), "role")), "assistant");
    assert_eq!(text(key(nth(key(nth(contents, 1), "parts"), 0), "text")), "Hi there!");

    let tools = vec![ToolDefinition {
        name: "test_tool".to_string(),
        description: "A test tool".to_string(),
        parameters: ToolParametersDefinition {
            param_type: "object".to_string(),
            properties: Vec::new(),
            required: Vec::new(),
        },
    }];

    let payload = provider.build_payload("gemini-pro", &messages, Some(&tools), None).unwrap();
    assert_eq!(text(key(nth(key(&payload, "tools"), 0), "name")), "test_tool");
    assert_eq!(text(key(nth(key(&payload, "tools"), 0), "description")), "A test tool");
}

#[test]
fn test_openai_build_payload() {
    let provider = OpenAIProvider::new("test_key".to_string(), None);
    let messages = vec![message("user", "Hello")];

    let payload = provider.build_payload("gpt-4", &messages, None, None).unwrap();
    assert_eq!(text(key(&payload, "model")), "gpt-4");
    assert_eq!(text(key(nth(key(&payload, "messages"), 0), "content")), "Hello");

    let tools = vec![tool("test_tool", "Test tool")];
    let payload = provider.build_payload("gpt-4", &messages, Some(&tools), None).unwrap();
    assert!(key(&payload, "tools").as_array().is_some());
}

#[test]
fn test_ollama_build_payload() {
    let provider = OllamaProvider::new("http://localhost:11434/api/chat".to_string());
    let messages = vec![message("user", "Hello")];

    let payload = provider.build_payload("llama2", &messages, None, None).unwrap();
    assert_eq!(text(key(&payload, "model")), "llama2");
    assert_eq!(text(key(nth(key(&payload, "messages"), 0), "content")), "Hello");

    let tools = vec![tool("test_tool", "Test tool")];
    let payload = provider.build_payload("llama2", &messages, Some(&tools), None).unwrap();
    assert!(key(&payload, "tools").as_array().is_some());
}

#[test]
fn test_gemini_parse_response() {
    let provider = GeminiProvider::new("test_key".to_string(), None, "gemini-pro".to_string());
    let response_body = r#"
        {
            "candidates": [{
                "content": {
                    "parts": [{
                        "text": "Hello, world!"
                    }]
                },
                "finishReason": "stop"
            }],
            "usageMetadata": {
                "promptTokenCount": 10,
                "candidatesTokenCount": 5
            }
        }"#;

    let response = provider.parse_response(&parse(response_body), response_body).unwrap();
    assert_eq!(response.content, "Hello, world!");
    assert_eq!(response.finish_reason, "stop");
    assert_eq!(response.prompt_tokens, 10);
    assert_eq!(response.completion_tokens, 5);
    assert_eq!(response.total_tokens, 15);
    assert_eq!(response.choices.len(), 1);
    assert_eq!(response.choices[0].message.content, Some("Hello, world!".to_string()));
}

#[test]
fn test_openai_parse_response() {
    let provider = OpenAIProvider::new("test_key".to_string(), None);

    let response = r#"{
            "id": "test_id",
            "choices": [{
                "message": {
                    "content": "Hello",
                    "role": "assistant"
                }
            }]
        }"#;
    let parsed = provider.parse_response(&parse(response)).unwrap();
    assert_eq!(parsed.choices[0].message.content, Some("Hello".to_string()));

    let error_response = r#"{
            "error": {
                "message": "Invalid API key"
            }
        }"#;
    assert!(provider.parse_response(&parse(error_response)).is_err());
}

#[test]
fn test_ollama_parse_response() {
    let provider = OllamaProvider::new("http://localhost:11434/api/chat".to_string());

    let response = r#"{
            "message": {
                "content": "Hello",
                "role": "assistant"
            }
        }"#;
    let parsed = provider.parse_response(&parse(response), response).unwrap();
    assert_eq!(parsed.choices[0].message.content, Some("Hello".to_string()));

    let error_response = r#"{
            "error": "Invalid API key"
        }"#;
    assert!(provider.parse_response(&parse(error_response), error_response).is_err());
}

#[test]
fn test_gemini_build_headers() {
    let provider = GeminiProvider::new("test_key".to_string(), None, "gemini-pro".to_string());
    let headers = provider.build_headers().unwrap();
    assert_eq!(header(&headers, "Content-Type"), Some("application/json"));
    assert_eq!(header(&headers, "x-goog-api-key"), Some("test_key"));

    let provider = GeminiProvider::new("".to_string(), None, "gemini-pro".to_string());
    let headers = provider.build_headers().unwrap();
    assert_eq!(header(&headers, "Content-Type"), Some("application/json"));
    assert!(header(&headers, "x-goog-api-key").is_none());
}

#[test]
fn test_openai_build_headers() {
    let provider = OpenAIProvider::new("test_key".to_string(), None);
    let headers = provider.build_headers().unwrap();

    assert_eq!(header(&headers, "Content-Type"), Some("application/json"));
    assert_eq!(header(&headers, "Authorization"), Some("Bearer test_key"));

    let provider = OpenAIProvider::new("".to_string(), None);
    let headers = provider.build_headers().unwrap();
    assert!(header(&headers, "Authorization").is_none());
}

#[test]
fn test_ollama_build_headers() {
    let provider = OllamaProvider::new("http://localhost:11434/api/chat".to_string());
    let headers = provider.build_headers().unwrap();

    assert_eq!(header(&headers, "Content-Type"), Some("application/json"));
    assert!(header(&headers, "Authorization").is_none());
}

#[test]
fn openai_payload_sets_defaults_and_lets_generation_floats_override_them() {
    let provider = OpenAIProvider::new("k".to_string(), None);
    let messages = vec![message("user", "Hi")];
    let params = TomlValue::Table(vec![(
        "generation_config".to_string(),
        TomlValue::Table(vec![
            ("temperature".to_string(), TomlValue::Float("0.2".to_string())),
            ("max_tokens".to_string(), TomlValue::Integer(100)),
            ("presence_penalty".to_string(), TomlValue::Float("1.5".to_string())),
        ]),
    )]);
    let payload = provider.build_payload("gpt-4", &messages, None, Some(&params)).unwrap();
    let members = payload.as_object().unwrap();
    let names: Vec<&str> = members.iter().map(|(k, _)| k.as_str()).collect();
    assert_eq!(names, vec!["model", "messages", "temperature", "top_p", "presence_penalty"]);
    assert!(matches!(key(&payload, "temperature"), Json::Number(t) if t == "0.2"));
    assert!(matches!(key(&payload, "top_p"), Json::Number(t) if t == "0.8"));
    assert!(matches!(key(&payload, "presence_penalty"), Json::Number(t) if t == "1.5"));
    assert!(payload.get("max_tokens").is_none());
}

#[test]
fn openai_payload_without_parameters_has_fixed_sampling() {
    let provider = OpenAIProvider::new("k".to_string(), None);
    let payload = provider.build_payload("gpt-4", &vec![], None, None).unwrap();
    assert!(matches!(key(&payload, "temperature"), Json::Number(t) if t == "0.7"));
    assert!(matches!(key(&payload, "top_p"), Json::Number(t) if t == "0.8"));
    assert!(payload.get("tools").is_none());
}

#[test]
fn openai_parse_reads_usage_and_defaults() {
    let provider = OpenAIProvider::new("k".to_string(), None);
    let body = r#"{"id": "x1", "choices": [{"message": {"content": "Hi"}, "finish_reason": "length"}],
                   "usage": {"prompt_tokens": 7, "completion_tokens": 3, "total_tokens": 10}}"#;
    let r = provider.parse_response(&parse(body)).unwrap();
    assert_eq!(r.id, "x1");
    assert_eq!(r.content, "Hi");
    assert_eq!(r.finish_reason, "length");
    assert_eq!((r.prompt_tokens, r.completion_tokens, r.total_tokens), (7, 3, 10));
    assert_eq!(r.choices[0].message.role, "assistant");
    assert_eq!(r.choices[0].finish_reason, "length");

    let body = r#"{"choices": [{"message": {"content": "Hi"}}], "usage": {"prompt_tokens": -1}}"#;
    let r = provider.parse_response(&parse(body)).unwrap();
    assert_eq!(r.id, "");
    assert_eq!(r.finish_reason, "stop");
    assert_eq!(r.prompt_tokens, u32::MAX);
    assert_eq!(r.total_tokens, 0);
}

#[test]
fn openai_parse_refuses_an_answer_without_text() {
    let provider = OpenAIProvider::new("k".to_string(), None);
    let err = provider
        .parse_response(&parse(r#"{"choices": [{"message": {"content": null}}]}"#))
        .unwrap_err();
    assert_eq!(err, "No text content in response");
}

#[test]
fn ollama_payload_adds_temperature_only_when_a_float() {
    let provider = OllamaProvider::new("e".to_string());
    let params = TomlValue::Table(vec![("temperature".to_string(), TomlValue::Float("0.3".to_string()))]);
    let payload = provider.build_payload("m", &vec![], Some(&vec![]), Some(&params)).unwrap();
    assert!(payload.get("tools").is_none());
    assert!(matches!(key(&payload, "temperature"), Json::Number(t) if t == "0.3"));

    let params = TomlValue::Table(vec![("temperature".to_string(), TomlValue::Integer(1))]);
    let payload = provider.build_payload("m", &vec![], None, Some(&params)).unwrap();
    assert!(payload.get("temperature").is_none());
}

#[test]
fn ollama_parse_keeps_role_and_names_the_answer() {
    let body = r#"{"message": {"role": "tool", "content": "done"}}"#;
    let r = parse_response_with_id(&parse(body), body, "fixed".to_string()).unwrap();
    assert_eq!(r.id, "fixed");
    assert_eq!(r.content, "done");
    assert_eq!(r.choices[0].message.role, "tool");

    let provider = OllamaProvider::new("e".to_string());
    let r = provider.parse_response(&parse(body), body).unwrap();
    assert!(r.id.starts_with("ollama_resp_"));
    assert!(r.id["ollama_resp_".len()..].chars().all(|c| c.is_ascii_digit()));

    let body = r#"{"message": {}}"#;
    let r = parse_response_with_id(&parse(body), body, "i".to_string()).unwrap();
    assert_eq!(r.content, "");
    assert_eq!(r.choices[0].message.content, None);
    assert_eq!(r.choices[0].message.role, "assistant");
}

#[test]
fn ollama_parse_quotes_the_body_when_refusing() {
    let body = r#"{"error": "x"}"#;
    let err = parse_response_with_id(&parse(body), body, "i".to_string()).unwrap_err();
    assert_eq!(err, format!("Failed to extract message from Ollama response structure: {}", body));
}

#[test]
fn gemini_client_reads_all_parts_and_function_calls() {
    let provider = GeminiProvider::new("k".to_string(), None, "m".to_string());
    let body = r#"{"candidates": [{"content": {"role": "model", "parts": [
            {"text": "a"}, {"functionCall": {"name": "read_file", "args": {"path": "x"}}}, {"text": "b"}]},
            "finishReason": "STOP"}]}"#;
    let r = provider.parse_response(&parse(body), body).unwrap();
    assert_eq!(r.content, "ab");
    assert_eq!(r.finish_reason, "STOP");
    assert!(r.id.starts_with("gemini_resp_"));
    let m = &r.choices[0].message;
    assert_eq!(m.role, "assistant");
    let calls = m.tool_calls.as_ref().unwrap();
    assert_eq!(calls.len(), 1);
    assert_eq!(calls[0].function.name, "read_file");
    assert_eq!(calls[0].function.arguments, r#"{"path":"x"}"#);
    assert!(calls[0].id.starts_with("gemini_tool_"));
}

#[test]
fn gemini_client_refuses_unusual_answers() {
    let provider = GeminiProvider::new("k".to_string(), None, "m".to_string());
    let body = r#"{"candidates": [{"content": {"parts": [{"text": "a"}]}, "finishReason": "SAFETY"}],
                   "promptFeedback": {"blockReason": "OTHER"}}"#;
    assert_eq!(
        provider.parse_response(&parse(body), body).unwrap_err(),
        "Gemini request blocked due to: OTHER (finishReason: SAFETY)"
    );
    let body = r#"{"candidates": []}"#;
    assert_eq!(
        provider.parse_response(&parse(body), body).unwrap_err(),
        format!("Failed to extract choices from Gemini response structure (candidates array was empty). Raw Response: {}", body)
    );
    let body = r#"{"answer": 1}"#;
    assert_eq!(
        provider.parse_response(&parse(body), body).unwrap_err(),
        format!("Failed to extract choices from Gemini response structure: {}", body)
    );
}

#[test]
fn gemini_client_payload_sends_tool_results_and_skips_system() {
    let provider = GeminiProvider::new("k".to_string(), None, "m".to_string());
    let mut tool_msg = message("tool", r#"{"ok": true}"#);
    tool_msg.tool_call_id = Some("call_1".to_string());
    let mut plain_tool = message("tool", "done");
    plain_tool.tool_call_id = Some("call_2".to_string());
    let messages = vec![message("system", "Be brief"), message("user", "Hi"), tool_msg, plain_tool];
    let payload = provider.build_payload("m", &messages, None, None).unwrap();
    let contents = key(&payload, "contents");
    assert_eq!(contents.as_array().unwrap().len(), 3);
    assert_eq!(text(key(nth(contents, 0), "role")), "user");
    assert_eq!(text(key(nth(contents, 1), "role")), "function");
    let fr = key(nth(key(nth(contents, 1), "parts"), 0), "functionResponse");
    assert_eq!(text(key(fr, "name")), "call_1");
    assert!(matches!(key(key(key(fr, "response"), "content"), "ok"), Json::Bool(true)));
    let fr = key(nth(key(nth(contents, 2), "parts"), 0), "functionResponse");
    assert_eq!(text(key(key(fr, "response"), "content")), "done");
}

#[test]
fn gemini_payload_adds_temperature_and_tools_only_when_present() {
    let provider = GeminiProvider::new("k".to_string(), None, "m".to_string());
    let params = TomlValue::Table(vec![("temperature".to_string(), TomlValue::Float("0.9".to_string()))]);
    let payload = provider.build_payload("m", &vec![], Some(&vec![]), Some(&params)).unwrap();
    assert!(payload.get("tools").is_none());
    assert!(matches!(key(&payload, "temperature"), Json::Number(t) if t == "0.9"));
}

#[test]
fn gemini_endpoints_take_the_key_in_the_query() {
    let provider = GeminiProvider::new("k".to_string(), None, "m".to_string());
    assert_eq!(provider.adapt_endpoint("https://e/x", "abc").unwrap(), "https://e/x?key=abc");
    assert_eq!(provider.adapt_endpoint("https://e/x", "").unwrap(), "https://e/x");
}

#[test]
fn configured_openai_models_use_the_default_endpoint() {
    let config = ModelConfig { model_name: "gpt-4".to_string(), endpoint: None, parameters: None };
    let model = OpenAIModel::new(config, "key".to_string());
    assert_eq!(model.name(), "gpt-4");
    let client = model.api_client();
    assert_eq!(client.get_endpoint(), "https://api.openai.com/v1/chat/completions");
    assert_eq!(client.api_key, "key");
    let float = TomlValue::Float("0.5".to_string());
    assert_eq!(float.as_float().map(|s| s.as_str()), Some("0.5"));
    assert!(TomlValue::Integer(1).as_float().is_none());
}

#[test]
fn configured_gemini_and_ollama_models() {
    let config = ModelConfig { model_name: "gemini-pro".to_string(), endpoint: None, parameters: None };
    match build_provider("gemini", config, "k".to_string()).unwrap() {
        ConfiguredProvider::Gemini(g) => assert_eq!(
            g.build_endpoint(),
            "https://generativelanguage.googleapis.com/v1beta/models/gemini-pro:generateContent?key=k"
        ),
        _ => panic!("expected a Gemini model"),
    }
    let config = ModelConfig { model_name: "llama".to_string(), endpoint: None, parameters: None };
    match build_provider("ollama", config, String::new()).unwrap() {
        ConfiguredProvider::Ollama(o) => {
            assert_eq!(o.endpoint(), "http://127.0.0.1:11434/api/chat");
            let payload = o.build_payload(&vec![message("user", "Hi")], None).unwrap();
            assert!(matches!(key(&payload, "stream"), Json::Bool(false)));
            assert_eq!(text(key(nth(key(&payload, "messages"), 0), "content")), "Hi");
            let r = o.parse_response(&parse(r#"{"model":"llama","message":{"content":"yo"}}"#)).unwrap();
            assert_eq!((r.id.as_str(), r.content.as_str()), ("llama", "yo"));
            assert!(o.parse_response(&parse(r#"{"message":{}}"#)).is_err());
        }
        _ => panic!("expected an Ollama model"),
    }
    let config = ModelConfig { model_name: "x".to_string(), endpoint: None, parameters: None };
    assert_eq!(
        build_provider("mistral", config, String::new()).err(),
        Some("Unsupported provider type: mistral".to_string())
    );
}

#[test]
fn configured_openai_model_and_registry() {
    let config = ModelConfig { model_name: "gpt-4o".to_string(), endpoint: None, parameters: None };
    match build_provider("openai", config, "sk".to_string()).unwrap() {
        ConfiguredProvider::OpenAI(o) => {
            assert_eq!(o.name(), "gpt-4o");
            let api = o.api_client();
            assert_eq!(api.get_endpoint(), "https://api.openai.com/v1/chat/completions");
            assert_eq!(api.api_key, "sk");
        }
        _ => panic!("expected an OpenAI model"),
    }
    let entry = |id: &str, t: &str| ProviderEntry {
        id: id.to_string(),
        provider_type: t.to_string(),
        config: ModelConfig { model_name: "m".to_string(), endpoint: None, parameters: None },
        api_key: String::new(),
    };
    let reg = build_registry(vec![entry("a", "openai"), entry("b", "ollama"), entry("c", "gemini")]).unwrap();
    assert_eq!(reg.len(), 3);
    assert_eq!(reg[0].0, "a");
    assert!(matches!(reg[0].1, ConfiguredProvider::OpenAI(_)));
    assert!(matches!(reg[1].1, ConfiguredProvider::Ollama(_)));
    assert!(matches!(reg[2].1, ConfiguredProvider::Gemini(_)));
    assert_eq!(
        build_registry(vec![entry("a", "gemini"), entry("b", "mistral"), entry("c", "x")]).err(),
        Some("Unsupported provider type: mistral".to_string())
    );
}

#[test]
fn configured_gemini_payload_wraps_each_tool_and_reads_generation_floats() {
    let params = TomlValue::Table(vec![(
        "generation_config".to_string(),
        TomlValue::Table(vec![("topP".to_string(), TomlValue::Float("0.9".to_string())), ("topK".to_string(), TomlValue::Integer(3))]),
    )]);
    let config = ModelConfig { model_name: "m".to_string(), endpoint: Some("https://e".to_string()), parameters: Some(params) };
    let model = GeminiModel::new(config, "k".to_string());
    assert_eq!(model.build_endpoint(), "https://e");
    let tools = vec![tool("a", "A"), tool("b", "B")];
    let payload = model.build_payload(&vec![message("user", "Hi")], Some(&tools)).unwrap();
    let decls = key(&payload, "tools").as_array().unwrap();
    assert_eq!(decls.len(), 2);
    assert_eq!(text(key(nth(key(&decls[1], "functionDeclarations"), 0), "name")), "b");
    let config_obj = key(&payload, "generationConfig").as_object().unwrap();
    assert_eq!(config_obj.len(), 1);
    assert!(matches!(&config_obj[0], (k, Json::Number(n)) if k == "topP" && n == "0.9"));
    let body = r#"{"candidates":[{"content":{"parts":[{"text":"ok"}]}}],"promptFeedback":{"promptTokenCount":4}}"#;
    let r = model.parse_response(&parse(body)).unwrap();
    assert_eq!((r.id.as_str(), r.finish_reason.as_str(), r.total_tokens), ("4", "stop", 0));
    assert_eq!(
        model.parse_response(&parse(r#"{"candidates":[]}"#)).unwrap_err(),
        "Missing text content in Gemini response"
    );
}

#[test]
fn gemini_usage_counts_are_checked_before_reading() {
    assert!(gemini_counts_within(&parse(r#"{"usageMetadata": {"promptTokenCount": 10, "candidatesTokenCount": 5}}"#)));
    assert!(!gemini_counts_within(&parse(
        r#"{"usageMetadata": {"promptTokenCount": 4294967295, "candidatesTokenCount": 1}}"#
    )));
    assert!(gemini_counts_within(&parse("{}")));
}

