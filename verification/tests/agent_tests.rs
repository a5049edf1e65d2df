use volition::agent::{
    failed_tool_result, map_tool_to_server, results_for_calls, ServerAnswer, render_tool_output, summary_line, unknown_tool_result, Agent,
    AgentError, AgentState, NextStep, RenderedOutput, ToolExecutionStatus, ToolResult,
};
use volition::json::Json;
use volition::providers::{ConfiguredProvider, ModelConfig, ProviderEntry};
use volition::models::{ApiResponse, ChatMessage, Choice, ToolCall, ToolFunction};

fn mock_response(content: &str, tool_calls: Option<Vec<ToolCall>>) -> ApiResponse {
    ApiResponse {
        id: "mock_resp_1".to_string(),
        content: content.to_string(),
        finish_reason: "stop".to_string(),
        prompt_tokens: 0,
        completion_tokens: 0,
        total_tokens: 0,
        choices: vec![Choice {
            index: 0,
            message: ChatMessage {
                role: "assistant".to_string(),
                content: Some(content.to_string()),
                tool_calls,
                tool_call_id: None,
            },
            finish_reason: "stop".to_string(),
        }],
    }
}

fn call(id: &str, name: &str, args: &str) -> ToolCall {
    ToolCall {
        id: id.to_string(),
        call_type: "function".to_string(),
        function: ToolFunction { name: name.to_string(), arguments: args.to_string() },
    }
}

// Runs one turn against a provider that always answers "Mock response",
// recording the conversation sent to it each time.
fn run_turn(agent: &mut Agent, received: &mut Vec<Vec<ChatMessage>>) -> String {
    let mut step = agent.initialize_interaction();
    loop {
        match step {
            NextStep::CallApi => {
                received.push(agent.messages_for_api());
                step = agent.process_api_response(mock_response("Mock response", None)).unwrap();
            }
            NextStep::CallTools => panic!("no tools were offered"),
            NextStep::Completed(message) => return message,
        }
    }
}

fn providers(id: &str) -> Vec<String> {
    vec![id.to_string()]
}

#[test]
fn test_conversation_history_persistence() {
    let default_provider_id = "mock-history-provider".to_string();
    let initial_task_1 = "This is the first task.".to_string();
    let user_message_2 = "This is the second task.".to_string();
    let mut received: Vec<Vec<ChatMessage>> = Vec::new();

    let mut agent1 = Agent::new(None, initial_task_1.clone(), providers(&default_provider_id), default_provider_id.clone());
    let response1 = run_turn(&mut agent1, &mut received);
    assert_eq!(response1, "Mock response", "Unexpected response in Turn 1");

    let history_turn_2 = agent1.state.messages;
    assert_eq!(history_turn_2.len(), 2, "State after Turn 1 should have 2 messages");
    assert_eq!(history_turn_2[0].role, "user");
    assert_eq!(history_turn_2[0].content.as_deref(), Some(initial_task_1.as_str()));
    assert_eq!(history_turn_2[1].role, "assistant");
    assert_eq!(history_turn_2[1].content.as_deref(), Some("Mock response"));

    let mut agent2 = Agent::new(
        Some(history_turn_2),
        user_message_2.clone(),
        providers(&default_provider_id),
        default_provider_id.clone(),
    );
    let response2 = run_turn(&mut agent2, &mut received);
    assert_eq!(response2, "Mock response", "Unexpected response in Turn 2");

    assert_eq!(received.len(), 2, "Expected exactly two calls to the provider");
    let history_sent_1 = &received[0];
    assert_eq!(history_sent_1.len(), 1, "Turn 1 history sent should have 1 message");
    assert_eq!(history_sent_1[0].role, "user");
    assert_eq!(history_sent_1[0].content.as_deref(), Some(initial_task_1.as_str()));

    let history_sent_2 = &received[1];
    assert_eq!(history_sent_2.len(), 3, "Turn 2 history sent should have 3 messages");
    assert_eq!(history_sent_2[0].role, "user", "Turn 2 history[0] role mismatch");
    assert_eq!(history_sent_2[0].content.as_deref(), Some(initial_task_1.as_str()), "Turn 2 history[0] content mismatch");
    assert_eq!(history_sent_2[1].role, "assistant", "Turn 2 history[1] role mismatch");
    assert_eq!(history_sent_2[1].content.as_deref(), Some("Mock response"), "Turn 2 history[1] content mismatch");
    assert_eq!(history_sent_2[2].role, "user", "Turn 2 history[2] role mismatch");
    assert_eq!(history_sent_2[2].content.as_deref(), Some(user_message_2.as_str()), "Turn 2 history[2] content mismatch");
}

#[test]
fn tool_calls_wait_then_become_tool_messages() {
    let mut agent = Agent::new(None, "do it".to_string(), providers("p"), "p".to_string());
    let calls = vec![call("c1", "read_file", "{\"path\":\"a\"}"), call("c2", "shell", "{}")];
    let step = agent.process_api_response(mock_response("Working on it", Some(calls))).unwrap();
    assert!(matches!(step, NextStep::CallTools));
    assert_eq!(agent.pending_calls().unwrap().len(), 2);
    assert_eq!(agent.assistant_notice().as_deref(), Some("\u{1f916} Assistant: Working on it"));

    let results = vec![
        ToolResult { tool_call_id: "c1".to_string(), output: "text".to_string(), status: ToolExecutionStatus::Success },
        ToolResult { tool_call_id: "c2".to_string(), output: "boom".to_string(), status: ToolExecutionStatus::Failure },
    ];
    let step = agent.process_tool_results(results);
    assert!(matches!(step, NextStep::CallApi));
    let ms = &agent.state.messages;
    assert_eq!(ms.len(), 4);
    assert_eq!(ms[2].role, "tool");
    assert_eq!(ms[2].tool_call_id.as_deref(), Some("c1"));
    assert_eq!(ms[3].content.as_deref(), Some("boom"));
    assert!(agent.state.pending_tool_calls.is_empty());
    assert!(matches!(agent.pending_calls(), Err(AgentError::Strategy(_))));
}

#[test]
fn an_answer_without_choices_is_an_api_error() {
    let mut agent = Agent::new(None, "x".to_string(), providers("p"), "p".to_string());
    let mut empty = mock_response("", None);
    empty.choices.clear();
    match agent.process_api_response(empty) {
        Err(AgentError::Api(m)) => assert_eq!(m, "API response contained no choices"),
        other => panic!("unexpected {:?}", other),
    }
    assert_eq!(agent.state.messages.len(), 1);
}

#[test]
fn switching_provider_needs_a_registered_one() {
    let mut agent = Agent::new(None, "x".to_string(), vec!["a".to_string(), "b".to_string()], "a".to_string());
    assert!(agent.switch_provider("b").is_ok());
    assert_eq!(agent.current_provider_id, "b");
    assert_eq!(agent.switch_provider("c"), Err("Provider not found in registry: c".to_string()));
    assert_eq!(agent.current_provider_id, "b");
}

#[test]
fn tools_map_to_their_servers() {
    assert_eq!(map_tool_to_server("read_file"), Some("filesystem"));
    assert_eq!(map_tool_to_server("git_commit"), Some("git"));
    assert_eq!(map_tool_to_server("search_text"), Some("search"));
    assert_eq!(map_tool_to_server("cargo"), None);
    let r = unknown_tool_result(&call("c9", "cargo", "{}"));
    assert_eq!(r.output, "Error: Unknown tool name 'cargo'");
    assert_eq!(r.status, ToolExecutionStatus::Failure);
    let r = failed_tool_result(&call("c9", "shell", "{}"), "shell", "timeout");
    assert_eq!(r.tool_call_id, "c9");
    assert_eq!(r.status, ToolExecutionStatus::Failure);
}

#[test]
fn tool_output_rendering_follows_the_value() {
    assert!(matches!(render_tool_output(&Json::Null), RenderedOutput::Text(t) if t == "<no output>"));
    assert!(matches!(render_tool_output(&Json::Array(vec![])), RenderedOutput::Text(t) if t == "<empty result>"));
    assert!(matches!(render_tool_output(&Json::String("hi".to_string())), RenderedOutput::Text(t) if t == "hi"));
    assert!(matches!(render_tool_output(&Json::Bool(true)), RenderedOutput::Text(t) if t == "true"));
    let with_text = Json::Object(vec![("text".to_string(), Json::String("body".to_string()))]);
    assert!(matches!(render_tool_output(&with_text), RenderedOutput::Text(t) if t == "body"));
    let with_content = Json::Object(vec![("content".to_string(), Json::Array(vec![]))]);
    assert!(matches!(render_tool_output(&with_content), RenderedOutput::Text(t) if t == "{\"content\":[]}"));
}

#[test]
fn new_turn_starts_from_the_history() {
    let s = AgentState::new_turn(None, "hi".to_string());
    assert_eq!(s.messages.len(), 1);
    assert_eq!(s.messages[0].role, "user");
    assert!(s.pending_tool_calls.is_empty());
    let line = summary_line(
        &call("c1", "shell", "{\"command\":\"ls\"}"),
        &ToolResult { tool_call_id: "c1".to_string(), output: "a\nb".to_string(), status: ToolExecutionStatus::Success },
    );
    assert!(line.contains("shell({\"command\":\"ls\"}) -> Success \"a\\nb\""));
}

#[test]
fn test_agent_initialization() {
    let initial_task = "Test task".to_string();
    let default_provider_id = "mock-provider-id".to_string();
    let agent = Agent::new(None, initial_task.clone(), providers(&default_provider_id), default_provider_id.clone());
    assert_eq!(agent.current_provider_id, default_provider_id);
    assert_eq!(agent.state.messages.len(), 1);
    assert_eq!(agent.state.messages[0].content.as_deref(), Some(initial_task.as_str()));
}

#[test]
fn each_pending_call_gets_one_result_in_order() {
    let calls = vec![call("c1", "read_file", "{}"), call("c2", "nope", "{}"), call("c3", "shell", "{}")];
    let answers = vec![
        Some(ServerAnswer::Output("file text".to_string())),
        Some(ServerAnswer::Output("ignored".to_string())),
        Some(ServerAnswer::Failed("boom".to_string())),
    ];
    let results = results_for_calls(&calls, answers);
    assert_eq!(results.len(), 3);
    let ids: Vec<&str> = results.iter().map(|r| r.tool_call_id.as_str()).collect();
    assert_eq!(ids, vec!["c1", "c2", "c3"]);
    assert_eq!(results[0].output, "file text");
    assert!(matches!(results[0].status, ToolExecutionStatus::Success));
    assert_eq!(results[1].output, "Error: Unknown tool name 'nope'");
    assert!(matches!(results[1].status, ToolExecutionStatus::Failure));
    assert_eq!(results[2].output, "Error executing MCP tool 'shell' on server 'shell': boom");
}

#[test]
fn agent_from_config_builds_one_provider_per_entry() {
    let entry = |id: &str, t: &str| ProviderEntry {
        id: id.to_string(),
        provider_type: t.to_string(),
        config: ModelConfig { model_name: "m".to_string(), endpoint: None, parameters: None },
        api_key: String::new(),
    };
    let (agent, registry) = Agent::from_config(
        None,
        "task".to_string(),
        vec![entry("g", "gemini"), entry("o", "openai"), entry("l", "ollama")],
        "o".to_string(),
    )
    .unwrap();
    assert_eq!(agent.provider_ids, vec!["g".to_string(), "o".to_string(), "l".to_string()]);
    assert_eq!(agent.current_provider_id, "o");
    assert_eq!(registry.len(), 3);
    assert!(matches!(registry[1].1, ConfiguredProvider::OpenAI(_)));
    let refused = Agent::from_config(None, "task".to_string(), vec![entry("x", "mistral")], "x".to_string());
    assert_eq!(refused.err(), Some("Unsupported provider type: mistral".to_string()));
}

