# codex-usage-tray

A Windows tray icon that shows how much of the OpenAI Codex quota windows
has been used, when each window resets, and any credits and rate-limit
resets available. The data comes from `codex app-server --stdio`
(`account/rateLimits/read`).

Layout:

- `src/` — the verified library (Verus):
  - `json.rs` the JSON value read from the app-server and its lookups;
  - `usage.rs` the snapshot, the choice of the watched window, the reading
    of `account/rateLimits/read` and of app-server replies;
  - `state.rs` tooltip composition, threshold and reset notifications;
  - `clock.rs` reset instants and the "resets at" text;
  - `config.rs`, `i18n.rs`, `icon.rs`, `text.rs` settings, texts, ring
    colour and text helpers;
  - `laws.rs` properties that span several queries.
- `app/` — the program: tray and menu, polling thread, the app-server
  process, reading and writing `config.json`, drawing the ring, toasts.
- `tests/` — tests of the library.

Percentages are kept in millionths of a percent (0..=100_000_000).
