use volition::chat_api::{
    build_gemini_payload, build_gemini_request, build_openai_payload, check_status, format_headers_for_log, generate_id,
    map_role_to_gemini, parse_gemini_response, read_gemini_reply, prepare_endpoint, KeyPlacement, MessageJson,
};
use volition::json::{lookup, set_member, Json};
use volition::json_text::to_json_text;
use volition::models::{message_to_json, ChatMessage, ToolCall, ToolDefinition, ToolFunction, ToolParametersDefinition};
use volition::schema::mcp_schema_to_tool_params;
use volition::text::{contains, ends_with, starts_with, str_eq, u64_to_decimal};
use volition::toml_value::{i64_to_decimal, TomlValue};
use volition::tool_provider::{parse_tool_arguments, CliToolArguments, CliToolProvider};

fn to_json(v: &serde_json::Value) -> Json {
    match v {
        serde_json::Value::Null => Json::Null,
        serde_json::Value::Bool(b) => Json::Bool(*b),
        serde_json::Value::Number(n) => Json::Number(n.to_string()),
        serde_json::Value::String(s) => Json::String(s.clone()),
        serde_json::Value::Array(a) => Json::Array(a.iter().map(to_json).collect()),
        serde_json::Value::Object(m) => {
            Json::Object(m.iter().map(|(k, v)| (k.clone(), to_json(v))).collect())
        }
    }
}

fn parse(text: &str) -> Json {
    to_json(&serde_json::from_str::<serde_json::Value>(text).unwrap())
}

fn entries(j: Json) -> Vec<(String, Json)> {
    match j {
        Json::Object(es) => es,
        other => panic!("not an object: {:?}", other),
    }
}

fn msg(role: &str, content: Option<&str>) -> ChatMessage {
    ChatMessage { role: role.to_string(), content: content.map(|c| c.to_string()), tool_calls: None, tool_call_id: None }
}

fn no_parse() -> MessageJson {
    MessageJson { content: None, arguments: Vec::new() }
}

#[test]
fn set_member_reads_back_what_was_written() {
    let mut es = entries(parse(r#"{"a": 1, "b": 2}"#));
    set_member(&mut es, "a", Json::String("x".to_string()));
    set_member(&mut es, "c", Json::Bool(true));
    assert_eq!(lookup(&es, "a").and_then(|v| v.as_str()), Some("x"));
    assert_eq!(lookup(&es, "c").and_then(|v| v.as_bool()), Some(true));
    assert!(matches!(lookup(&es, "b"), Some(Json::Number(n)) if n == "2"));
    let keys: Vec<&str> = es.iter().map(|(k, _)| k.as_str()).collect();
    assert_eq!(keys, vec!["a", "b", "c"]);
}

#[test]
fn json_text_is_compact_and_escaped() {
    let v = parse(r#"{"k": ["a\"b", "\n", 1.5, null, true, {}]}"#);
    assert_eq!(to_json_text(&v), r#"{"k":["a\"b","\n",1.5,null,true,{}]}"#);
    let control = Json::String("\u{1}".to_string());
    assert_eq!(to_json_text(&control), "\"\\u0001\"");
}

#[test]
fn numbers_are_read_as_integers_only_when_they_are() {
    assert_eq!(parse("42").as_i64(), Some(42));
    assert_eq!(parse("-7").as_i64(), Some(-7));
    assert_eq!(parse("1.5").as_i64(), None);
    assert_eq!(Json::Number("-9223372036854775808".to_string()).as_i64(), Some(i64::MIN));
    assert_eq!(Json::Number("9223372036854775808".to_string()).as_i64(), None);
    assert_eq!(Json::Number("18446744073709551615".to_string()).as_u64(), Some(u64::MAX));
    assert_eq!(parse("-1").as_u64(), None);
}

#[test]
fn text_helpers_match_std() {
    assert_eq!(u64_to_decimal(0), "0");
    assert_eq!(u64_to_decimal(1234567890), "1234567890");
    assert_eq!(i64_to_decimal(-45), "-45");
    assert_eq!(volition::text::concat("ab", "cd"), "abcd");
    assert!(str_eq("x", "x") && !str_eq("x", "y"));
    assert!(starts_with("hello", "he") && ends_with("hello", "lo") && contains("hello", "ll"));
    assert!(!contains("hi", "hello"));
}

#[test]
fn toml_values_become_json() {
    let t = TomlValue::Table(vec![
        ("n".to_string(), TomlValue::Integer(-3)),
        ("f".to_string(), TomlValue::Float("0.5".to_string())),
        ("d".to_string(), TomlValue::Datetime("1979-05-27T07:32:00Z".to_string())),
        ("a".to_string(), TomlValue::Array(vec![TomlValue::Boolean(false)])),
    ]);
    assert_eq!(
        to_json_text(&t.to_json()),
        r#"{"a":[false],"d":{"$__toml_private_datetime":"1979-05-27T07:32:00Z"},"f":0.5,"n":-3}"#
    );
}

#[test]
fn gemini_roles_are_mapped() {
    assert_eq!(map_role_to_gemini("user"), Some("user"));
    assert_eq!(map_role_to_gemini("assistant"), Some("model"));
    assert_eq!(map_role_to_gemini("tool"), Some("function"));
    assert_eq!(map_role_to_gemini("system"), None);
    assert_eq!(map_role_to_gemini("narrator"), None);
}

#[test]
fn gemini_payload_moves_system_text_and_tool_replies() {
    let mut tool_reply = msg("tool", Some("{\"ok\":true}"));
    tool_reply.tool_call_id = Some("read_file".to_string());
    let messages = vec![msg("system", Some("Be brief.")), msg("user", Some("Hi")), msg("assistant", Some("Hello")), tool_reply];
    let parsed = vec![no_parse(), no_parse(), no_parse(), MessageJson { content: Some(parse("{\"ok\":true}")), arguments: vec![] }];
    let params = TomlValue::Table(vec![
        ("temperature".to_string(), TomlValue::Float("0.1".to_string())),
        ("unrelated".to_string(), TomlValue::Integer(1)),
    ]);
    let payload = build_gemini_payload(&messages, &parsed, None, Some(&params));
    assert_eq!(
        to_json_text(&payload),
        [
            r#"{"contents":[{"parts":[{"text":"Hi"}],"role":"user"},{"parts":[{"text":"Hello"}],"role":"model"},"#,
            r#"{"parts":[{"functionResponse":{"name":"read_file","response":{"content":{"ok":true}}}}],"role":"function"}],"#,
            r#""generationConfig":{"temperature":0.1},"systemInstruction":{"parts":[{"text":"Be brief."}]}}"#,
        ]
        .join("")
    );
}

#[test]
fn openai_compatible_payload_passes_every_parameter() {
    let messages = vec![msg("user", Some("Hi"))];
    let tools = vec![ToolDefinition {
        name: "t".to_string(),
        description: "d".to_string(),
        parameters: ToolParametersDefinition { param_type: "object".to_string(), properties: vec![], required: vec![] },
    }];
    let params = TomlValue::Table(vec![("max_tokens".to_string(), TomlValue::Integer(64))]);
    let payload = build_openai_payload("m", &messages, Some(&tools), Some(&params));
    let keys: Vec<&str> = match &payload {
        Json::Object(es) => es.iter().map(|(k, _)| k.as_str()).collect(),
        _ => panic!("expected an object"),
    };
    assert_eq!(&keys[..3], &["model", "messages", "tools"]);
    assert_eq!(keys.last(), Some(&"max_tokens"));
    let text = to_json_text(&payload);
    assert!(text.contains(r#""messages":[{"content":"Hi","role":"user"}]"#));
    assert!(text.contains(r#""tools":[{"function":"#));
    assert!(text.contains(r#""max_tokens":64"#));
}

#[test]
fn gemini_answers_are_read_or_refused() {
    let body = r#"{"candidates":[{"finishReason":"STOP","content":{"role":"model","parts":[{"text":"Hel"},{"text":"lo"},
                   {"functionCall":{"name":"shell","args":{"command":"ls"}}}]}}]}"#;
    let r = parse_gemini_response(&parse(body), body).unwrap();
    assert!(r.id.starts_with("gemini_resp_"));
    assert_eq!(r.content, "Hello");
    assert_eq!(r.finish_reason, "STOP");
    let m = &r.choices[0].message;
    assert_eq!(m.role, "assistant");
    let calls = m.tool_calls.as_ref().unwrap();
    assert_eq!(calls[0].function.name, "shell");
    assert_eq!(calls[0].function.arguments, r#"{"command":"ls"}"#);
    assert!(calls[0].id.starts_with("call_shell_"));

    let blocked = r#"{"candidates":[],"promptFeedback":{"blockReason":"SAFETY"}}"#;
    assert_eq!(
        parse_gemini_response(&parse(blocked), blocked).unwrap_err(),
        "Gemini request blocked due to: SAFETY (empty candidates)"
    );
    let rated = r#"{"candidates":[{"finishReason":"SAFETY"}],"promptFeedback":{"safetyRatings":[
                    {"category":"X","severity":"HIGH_RISK"},{"category":"Y","severity":"LOW"}]}}"#;
    assert_eq!(
        parse_gemini_response(&parse(rated), rated).unwrap_err(),
        r#"Gemini request blocked due to safety ratings: Object {"category": String("X"), "severity": String("HIGH_RISK")} (finishReason: SAFETY)"#
    );
    let odd = r#"{"candidates":[{"finishReason":"OTHER"}]}"#;
    assert_eq!(
        parse_gemini_response(&parse(odd), odd).unwrap_err(),
        format!("Gemini response candidate indicates non-standard completion (finishReason: OTHER). Raw Response: {}", odd)
    );
    let none = r#"{"x":1}"#;
    assert_eq!(
        parse_gemini_response(&parse(none), none).unwrap_err(),
        format!("Failed to extract choices from Gemini response structure (no candidates found). Raw Response: {}", none)
    );
}

#[test]
fn endpoints_place_the_key_by_host() {
    let p = prepare_endpoint("https://generativelanguage.googleapis.com/v1/models/m:generateContent", "k1").unwrap();
    assert!(p.is_google_api);
    assert_eq!(p.key_placement, KeyPlacement::QueryParameter);
    assert_eq!(p.url, "https://generativelanguage.googleapis.com/v1/models/m:generateContent?key=k1");
    let p = prepare_endpoint("https://api.openai.com/v1/chat/completions", "k2").unwrap();
    assert!(!p.is_google_api);
    assert_eq!(p.key_placement, KeyPlacement::BearerHeader);
    assert_eq!(p.url, "https://api.openai.com/v1/chat/completions");
    let p = prepare_endpoint("http://localhost:11434/api/chat", "").unwrap();
    assert_eq!(p.key_placement, KeyPlacement::Omitted);
    assert_eq!(
        prepare_endpoint("not a url", "k").unwrap_err(),
        "Failed to parse endpoint URL: not a url"
    );
}

#[test]
fn headers_are_logged_without_authorization() {
    let hs = vec![
        ("content-type".to_string(), "application/json".to_string()),
        ("authorization".to_string(), "Bearer secret".to_string()),
    ];
    assert_eq!(format_headers_for_log(&hs), r#"{"content-type": "application/json"}"#);
    assert_eq!(check_status(true, "200 OK", "e", "b"), Ok(()));
    assert_eq!(
        check_status(false, "401 Unauthorized", "https://x", "no").unwrap_err(),
        "API request failed with status 401 Unauthorized. Endpoint: https://x. Response: no\nCheck API key, endpoint, model name, and request payload."
    );
}

#[test]
fn generated_ids_carry_their_prefix_and_the_clock() {
    let id = generate_id("ollama_resp");
    let digits = id.strip_prefix("ollama_resp_").unwrap();
    assert!(!digits.is_empty() && digits.chars().all(|c| c.is_ascii_digit()));
    assert_ne!(digits, "0");
}

#[test]
fn messages_serialize_without_empty_fields() {
    let mut m = msg("assistant", None);
    m.tool_calls = Some(vec![ToolCall {
        id: "c1".to_string(),
        call_type: "function".to_string(),
        function: ToolFunction { name: "f".to_string(), arguments: "{}".to_string() },
    }]);
    let j = message_to_json(&m);
    let keys: Vec<&str> = match &j {
        Json::Object(es) => es.iter().map(|(k, _)| k.as_str()).collect(),
        _ => panic!("expected an object"),
    };
    assert_eq!(keys, vec!["role", "tool_calls"]);
    let text = to_json_text(&j);
    assert!(text.starts_with(r#"{"role":"assistant","tool_calls":[{"#));
    assert!(text.contains(r#""id":"c1""#));
    assert!(!text.contains("content"));
}

#[test]
fn tool_arguments_are_typed_or_refused() {
    let args = entries(parse(r#"{"pattern": "x", "context_lines": 3, "case_sensitive": null}"#));
    match parse_tool_arguments("search_text", &args).unwrap() {
        CliToolArguments::SearchText { pattern, path, context_lines, case_sensitive, .. } => {
            assert_eq!(pattern, "x");
            assert_eq!(path, None);
            assert_eq!(context_lines, Some(3));
            assert_eq!(case_sensitive, None);
        }
        other => panic!("unexpected {:?}", other),
    }
    let args = entries(parse(r#"{"path": 5}"#));
    assert_eq!(
        parse_tool_arguments("read_file", &args).unwrap_err(),
        "Invalid type or value for argument 'path'. Expected alloc::string::String."
    );
    assert_eq!(
        parse_tool_arguments("shell", &entries(parse("{}"))).unwrap_err(),
        "Missing required argument: 'command'"
    );
    assert_eq!(
        parse_tool_arguments("teleport", &entries(parse("{}"))).unwrap_err(),
        "Unknown tool name: teleport"
    );
    let args = entries(parse(r#"{"path": "a", "content": "héllo"}"#));
    let parsed = parse_tool_arguments("write_file", &args).unwrap();
    assert_eq!(parsed.describe(), "path: a, content_len: 6");
    let args = entries(parse(r#"{"command": "build", "args": ["--release"]}"#));
    let parsed = parse_tool_arguments("cargo_command", &args).unwrap();
    assert_eq!(parsed.describe(), r#"command: build, args: ["--release"]"#);
}

#[test]
fn the_cli_offers_its_tools() {
    let defs = CliToolProvider::new().get_tool_definitions();
    assert_eq!(defs.len(), 9);
    assert!(defs.iter().any(|d| d.name == "git"));
    let p = CliToolProvider::string_param("a path");
    assert_eq!(p.description, "a path");
}

#[test]
fn mcp_schemas_become_tool_parameters() {
    let schema = entries(parse(
        r#"{"type":"object","properties":{"path":{"type":"string","description":"where"},"n":{"type":"integer"},"bad":3},
            "required":["path", 7]}"#,
    ));
    let params = mcp_schema_to_tool_params(Some(&schema));
    assert_eq!(params.param_type, "object");
    assert_eq!(params.required, vec!["path".to_string()]);
    let names: Vec<&str> = params.properties.iter().map(|(k, _)| k.as_str()).collect();
    assert_eq!(names.len(), 2);
    assert!(names.contains(&"path") && names.contains(&"n"));
    let empty = mcp_schema_to_tool_params(None);
    assert!(empty.properties.is_empty() && empty.required.is_empty());
}

#[test]
fn gemini_request_reads_tool_texts_as_json() {
    let mut tool_reply = msg("tool", Some("{\"ok\": true}"));
    tool_reply.tool_call_id = Some("read_file".to_string());
    let mut plain_reply = msg("tool", Some("not json"));
    plain_reply.tool_call_id = Some("shell".to_string());
    let mut asks = msg("assistant", None);
    asks.tool_calls = Some(vec![ToolCall {
        id: "c1".to_string(),
        call_type: "function".to_string(),
        function: ToolFunction { name: "read_file".to_string(), arguments: "{\"path\": \"a\"}".to_string() },
    }]);
    let payload = build_gemini_request(&vec![asks, tool_reply, plain_reply], None, None);
    assert_eq!(
        to_json_text(&payload),
        [
            r#"{"contents":[{"parts":[{"functionCall":{"args":{"path":"a"},"name":"read_file"}}],"role":"model"},"#,
            r#"{"parts":[{"functionResponse":{"name":"read_file","response":{"content":{"ok":true}}}}],"role":"function"},"#,
            r#"{"parts":[{"functionResponse":{"name":"shell","response":{"content":"not json"}}}],"role":"function"}]}"#,
        ]
        .join("")
    );
}

#[test]
fn each_offered_tool_reads_its_required_arguments() {
    let defs = CliToolProvider::new().get_tool_definitions();
    let again = CliToolProvider::new().get_tool_definitions();
    for (d, e) in defs.iter().zip(again.iter()) {
        assert_eq!(d.name, e.name);
        assert_eq!(d.description, e.description);
        let args: Vec<(String, Json)> =
            d.parameters.required.iter().map(|k| (k.clone(), Json::String("x".to_string()))).collect();
        for k in &d.parameters.required {
            assert!(d.parameters.properties.iter().any(|(p, _)| p == k));
        }
        assert!(parse_tool_arguments(&d.name, &args).is_ok(), "{}", d.name);
    }
    assert!(parse_tool_arguments("git_push", &Vec::new()).is_err());
    for (i, d) in defs.iter().enumerate() {
        for e in &defs[i + 1..] {
            assert_ne!(d.name, e.name);
        }
        for (j, (p, _)) in d.parameters.properties.iter().enumerate() {
            assert!(d.parameters.properties[j + 1..].iter().all(|(q, _)| q != p));
        }
    }
}

#[test]
fn gemini_reply_bodies_are_read_as_json_first() {
    let body = r#"{"candidates":[{"finishReason":"STOP","content":{"role":"model","parts":[{"text":"Hi"}]}}]}"#;
    let r = read_gemini_reply(body).unwrap();
    assert_eq!(r.content, "Hi");
    assert_eq!(
        read_gemini_reply("not json").unwrap_err(),
        "Failed to parse successful Gemini API response JSON: not json"
    );
}

