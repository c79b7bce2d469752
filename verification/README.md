# copilot_api_server

The verified core of an OpenAI-compatible HTTP server whose answers come from a
GitHub Copilot session.

- `src/` — the library, verified with Verus:
  - `text.rs`: Unicode white-space trimming, prefix stripping, equality;
  - `config.rs`: the configuration and when bearer authentication is on;
  - `middleware.rs`: the bearer-token decision, with its laws;
  - `prompt.rs`: folding a message list into one tagged prompt, with its laws;
  - `session.rs`: session configuration, session events, timestamps and ids;
  - `streaming.rs`: the event-to-chunk state machine of streamed answers;
  - `handlers.rs`: the model list, request dispatch and non-streamed answers;
  - `runs.rs`: laws over whole runs of session events, including that the
    streamed and the non-streamed answer agree;
  - `types.rs`, `error.rs`: the protocol's data and errors.
- `app/` — the axum server, the Copilot SDK calls and the JSON encoding.
- `tests/` — tests of the library on concrete values.
