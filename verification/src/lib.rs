//! Verified core of the Volition coding assistant: chat and tool models,
//! request payloads and response parsing for the chat providers, the agent's
//! turn state machine, the command-line tool rules and the tool servers'
//! decisions.

pub mod text;
pub mod json;
pub mod json_text;
pub mod json_parse;
pub mod paths;
pub mod models;
pub mod toml_value;
pub mod chat_api;
pub mod schema;
pub mod agent;
pub mod tool_provider;
pub mod cli_tools;
pub mod servers;
pub mod openai_api;
pub mod ollama_api;
pub mod providers;
pub mod history;
pub mod session;
pub mod files;
pub mod gemini_api;
