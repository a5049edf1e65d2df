use volition::files::{check_listing, file_info, read_dir_failure};
use volition::history::{
    get_history_preview, history_dir_name, history_file, history_id_of_file, history_id_text,
    history_not_found_message, sort_by_recency, ConversationHistory, Timestamp,
};
use volition::models::ChatMessage;
use volition::session::{
    add_allowed_commands, choose_strategy, classify_input, conversation_is_shortened, is_already_reported,
    log_level, message_is_shortened, message_preview, next_action, record_turn, select_base_strategy, InputAction,
    LogLevel, PlanExecuteSettings, ReadOutcome, SessionAction, StrategyKind,
};

fn msg(role: &str, content: Option<&str>) -> ChatMessage {
    ChatMessage {
        role: role.to_string(),
        content: content.map(|c| c.to_string()),
        tool_calls: None,
        tool_call_id: None,
    }
}

fn history(id: u128, secs: i64, nanos: u32, messages: Vec<ChatMessage>) -> ConversationHistory {
    let t = Timestamp { secs, nanos };
    ConversationHistory { id, created_at: t, last_updated_at: t, messages }
}

#[test]
fn typed_lines_are_classified() {
    assert!(matches!(classify_input(""), InputAction::Exit));
    assert!(matches!(classify_input("   "), InputAction::Exit));
    assert!(matches!(classify_input(" EXIT "), InputAction::Exit));
    assert!(matches!(classify_input("quit"), InputAction::Exit));
    assert!(matches!(classify_input("New"), InputAction::NewConversation));
    assert!(matches!(classify_input("  explain this  "), InputAction::Prompt(p) if p == "explain this"));
    assert!(matches!(classify_input("news"), InputAction::Prompt(p) if p == "news"));
}

#[test]
fn verbosity_picks_the_log_level() {
    assert_eq!(log_level(0), LogLevel::Warn);
    assert_eq!(log_level(1), LogLevel::Info);
    assert_eq!(log_level(2), LogLevel::Debug);
    assert_eq!(log_level(3), LogLevel::Trace);
    assert_eq!(log_level(200), LogLevel::Trace);
}

#[test]
fn strategy_falls_back_to_complete_task() {
    let full = PlanExecuteSettings { has_planning_provider: true, has_execution_provider: true };
    let half = PlanExecuteSettings { has_planning_provider: true, has_execution_provider: false };
    assert_eq!(choose_strategy("plan_execute", Some(full)), StrategyKind::PlanExecute);
    assert_eq!(choose_strategy("plan_execute", Some(half)), StrategyKind::CompleteTask);
    assert_eq!(choose_strategy("plan_execute", None), StrategyKind::CompleteTask);
    assert_eq!(choose_strategy("complete_task", Some(full)), StrategyKind::CompleteTask);
    assert_eq!(select_base_strategy(Some(full)), StrategyKind::CompleteTask);
}

#[test]
fn allowed_commands_are_added_once() {
    let mut args = vec!["serve".to_string()];
    let allowed = vec!["status".to_string(), "diff".to_string()];
    add_allowed_commands(&mut args, &allowed);
    assert_eq!(args, vec!["serve", "--allowed-commands", "status,diff"]);
    add_allowed_commands(&mut args, &allowed);
    assert_eq!(args, vec!["serve", "--allowed-commands", "status,diff"]);
    let mut empty_list = vec!["serve".to_string()];
    add_allowed_commands(&mut empty_list, &[]);
    assert_eq!(empty_list, vec!["serve"]);
}

#[test]
fn message_previews_show_the_first_line() {
    assert_eq!(message_preview("  hello  "), "hello");
    assert_eq!(message_preview("first\r\nsecond"), "first...");
    assert_eq!(message_preview("one line\n"), "one line");
    assert_eq!(message_preview(""), "");
    let long = "x".repeat(150);
    assert_eq!(message_preview(&long), format!("{}...", "x".repeat(100)));
    assert!(message_is_shortened("a\nb"));
    assert!(!message_is_shortened("a\n"));
    assert!(!message_is_shortened(&"y".repeat(100)));
    assert!(message_is_shortened(&"y".repeat(101)));
    assert!(conversation_is_shortened(&vec![msg("user", Some("a")), msg("assistant", Some("b\nc"))]));
    assert!(!conversation_is_shortened(&vec![msg("user", None), msg("assistant", Some("ok"))]));
}

#[test]
fn reported_failures_are_recognised() {
    assert!(is_already_reported("Failed to load history 1234", false));
    assert!(is_already_reported("x: Agent run encountered an error", false));
    assert!(is_already_reported("anything", true));
    assert!(!is_already_reported("disk full", false));
}

#[test]
fn history_preview_takes_the_first_user_message() {
    let h = history(1, 0, 0, vec![msg("system", Some("s")), msg("User", Some("Fix the bug")), msg("user", Some("b"))]);
    assert_eq!(get_history_preview(&h), "Fix the bug");
    let long = "z".repeat(71);
    let h = history(1, 0, 0, vec![msg("user", Some(&long))]);
    assert_eq!(get_history_preview(&h), format!("{}...", "z".repeat(70)));
    let h = history(1, 0, 0, vec![msg("assistant", Some("hi"))]);
    assert_eq!(get_history_preview(&h), "[No user messages]");
    let h = history(1, 0, 0, vec![msg("user", None)]);
    assert_eq!(get_history_preview(&h), "");
}

#[test]
fn histories_are_listed_newest_first_and_ties_keep_their_order() {
    let hs = vec![
        history(1, 10, 0, vec![]),
        history(2, 30, 0, vec![]),
        history(3, 20, 5, vec![]),
        history(4, 30, 0, vec![]),
        history(5, 20, 7, vec![]),
    ];
    let ids: Vec<u128> = sort_by_recency(hs).iter().map(|h| h.id).collect();
    assert_eq!(ids, vec![2, 4, 5, 3, 1]);
    assert!(sort_by_recency(vec![]).is_empty());
}

#[test]
fn history_files_are_named_by_identifier() {
    let id: u128 = 0x0123_4567_89ab_cdef_0011_2233_4455_6677;
    assert_eq!(history_id_text(id), "01234567-89ab-cdef-0011-223344556677");
    assert_eq!(history_file(id), "01234567-89ab-cdef-0011-223344556677.json");
    assert_eq!(history_id_of_file("01234567-89ab-cdef-0011-223344556677.json"), Some(id));
    assert_eq!(history_id_of_file("01234567-89ab-cdef-0011-223344556677.txt"), None);
    assert_eq!(history_id_of_file("notes.json"), None);
    assert_eq!(history_id_of_file(".json"), None);
    assert_eq!(history_dir_name(), ".volition/history");
    assert_eq!(
        history_not_found_message(id),
        "History with ID 01234567-89ab-cdef-0011-223344556677 not found in project."
    );
}

#[test]
fn new_histories_get_a_version_four_identifier() {
    let h = ConversationHistory::new(vec![msg("user", Some("x"))]);
    assert_eq!((h.id >> 76) & 0xf, 4);
    assert_eq!(h.created_at, h.last_updated_at);
    assert!(h.created_at.secs > 1_600_000_000);
    assert!(h.created_at.nanos < 2_000_000_000);
    assert_eq!(h.messages.len(), 1);
    let other = ConversationHistory::new(Vec::new());
    assert_ne!(h.id, other.id);
}

#[test]
fn directory_entries_are_recorded() {
    let f = file_info("a.txt".to_string(), "/d/a.txt".to_string(), false, true, false, 12, Some(5));
    assert_eq!((f.file_type.as_str(), f.size, f.modified), ("file", Some(12), Some(5)));
    let d = file_info("sd".to_string(), "/d/sd".to_string(), true, false, false, 4096, None);
    assert_eq!((d.file_type.as_str(), d.size), ("directory", None));
    let l = file_info("l".to_string(), "/d/l".to_string(), false, false, true, 0, None);
    assert_eq!(l.file_type, "symlink");
    let u = file_info("u".to_string(), "/d/u".to_string(), false, false, false, 0, None);
    assert_eq!(u.file_type, "unknown");
    assert_eq!(check_listing("/x", false, false), Err("Path does not exist: /x".to_string()));
    assert_eq!(check_listing("/x", true, false), Err("Path is not a directory: /x".to_string()));
    assert_eq!(check_listing("/x", true, true), Ok(()));
    assert_eq!(read_dir_failure("denied"), "Failed to read directory: denied");
}

#[test]
fn session_reads_lead_to_actions() {
    assert!(matches!(next_action(ReadOutcome::Line(" fix it ".to_string())), SessionAction::RunTurn(p) if p == "fix it"));
    assert!(matches!(next_action(ReadOutcome::Line("NEW".to_string())), SessionAction::StartNew));
    assert!(matches!(next_action(ReadOutcome::Line("".to_string())), SessionAction::Quit));
    assert!(matches!(next_action(ReadOutcome::Interrupted), SessionAction::Continue));
    assert!(matches!(next_action(ReadOutcome::Eof), SessionAction::Quit));
    assert!(matches!(next_action(ReadOutcome::Failed), SessionAction::Quit));
}

#[test]
fn a_failed_turn_keeps_the_messages_but_marks_the_update() {
    let mut h = history(7, 10, 0, vec![msg("user", Some("a"))]);
    record_turn(&mut h, None, Timestamp { secs: 20, nanos: 1 });
    assert_eq!(h.messages.len(), 1);
    assert_eq!(h.last_updated_at, Timestamp { secs: 20, nanos: 1 });
    assert_eq!(h.created_at, Timestamp { secs: 10, nanos: 0 });
    record_turn(&mut h, Some(vec![msg("user", Some("a")), msg("assistant", Some("b"))]), Timestamp { secs: 30, nanos: 0 });
    assert_eq!(h.messages.len(), 2);
    assert_eq!(h.id, 7);
}
