# volition

A coding assistant that talks to chat models (Gemini, OpenAI, Ollama), lets
them call tools (files, git, search, shell) and keeps its conversations per
project. The library in `src/` holds its logic, verified with Verus; the
program in `app/` does the terminal, file, process and network work around it.

- `text`, `json`, `json_text`, `json_parse`, `toml_value`: strings, JSON and
  TOML values as plain data, and JSON text as `serde_json` reads and writes it.
- `models`: messages, tool calls, tool definitions and answers, with their JSON.
- `chat_api`, `openai_api`, `ollama_api`, `gemini_api`, `providers`: request
  payloads and headers, endpoints, and the reading of each dialect's answers.
- `agent`: the turn state machine (ask the model, run tools, finish).
- `tool_provider`, `cli_tools`, `files`: the command-line tools: typed
  arguments, deny lists, quoting, reports.
- `paths`: whether a file write lands inside the working directory, read
  lexically.
- `servers`: the git, file system, search and shell tool servers' decisions.
- `history`, `session`: saved conversations and the interactive session.

`tests/` runs the library on concrete values.
