# cursor_brain

An OpenAI-compatible HTTP front end for the cursor-agent command-line tool,
with its logic written in Verus and proved against its contracts.

- `src/` is the verified library: the configuration file and its defaults,
  the parsing of cursor-agent's stream-json output and of its model list,
  prompt building from chat messages, the OpenAI response and stream-chunk
  shapes, the LRU session map, the retry rules of a completion, the HTTP error
  replies and the metrics counters. Calls into `serde_json`, `lru`, `uuid`,
  `dirs` and a few std functions stand behind small trusted wrappers whose
  contracts say what the library relies on.
- `tests/` runs the library on concrete inputs.
- `app/` is the program around it: the axum server, process spawning and
  reading, file I/O and the serde copies of the library's types.

Settings and behaviour worth knowing:

- `config.json` still reads and keeps the `agent_mode` and `allow_agent_write`
  keys, but the service always starts cursor-agent in `agent` mode and never
  passes `--force`, as the design document fixes; the two keys have no effect
  on a chat completion.
- A run that exceeds `request_timeout_sec` is stopped. A buffered chat
  completion then answers 504 (`code: "timeout"`, `type: "gateway_timeout"`)
  without retrying; a streamed one, whose 200 header is already sent, ends
  with `finish_reason: "timeout"`.
- Paths under home (`~/.cursor-brain/...`, and a leading `~` in the session
  file's path) are joined
  with the platform's separator; where no home directory is known, the data
  root is the current directory.
