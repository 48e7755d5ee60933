# grouse_core

The client core of the Grouse chat apps, written in Verus: every decision the
clients take about a chat session is an executable function whose contract
Verus proves.

## Layout

- `src/` — the verified library.
  - `transcript.rs`: the transcript store behind the chat view (streaming,
    tool rows and groups, provisional cache paints, replay merge, the window).
  - `spine.rs`: the session-update state machine of a connection, session
    and config-option parsing, reconnect backoff.
  - `peer.rs`: a roam peer's state (sessions, staging, replay dedupe, retry
    budgets).
  - `core_state.rs`: the core's decisions (connect and reconnect, prompt and
    config queues, touch debounce, probes, paint filing, routing).
  - `roam.rs`: newline framing of the roam byte stream.
  - `notify.rs`: push-notification parsing and the notify-once policy.
  - `cache.rs`: the cache layout and what is trusted when read back.
  - `transport.rs`: WebSocket settings and the keep-alive machine.
  - `unstable.rs`: the `_goose/unstable` answers and request params.
  - `table.rs`, `text.rs`, `types.rs`: a string table, string helpers and the
    shared records.
  Each module's laws (properties across calls) are public proof functions.
- `tests/` — tests of the library on concrete values.
- `app/` — the runtime around it (async, network, files, listener traits),
  which carries out the library's decisions.
