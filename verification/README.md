# agentdesk_discord

Delivery state for a runtime that runs coding agents in tmux sessions and shows
their work in Discord. The decisions are verified with Verus: every function in
`src/` carries a contract that is proved, and the laws that relate several
functions stand beside them as public proof functions (`law_…`).

- `src/journal` – the journal of a channel's status panel: each step of a panel's
  replacement is a compare-and-swap on the stored snapshot.
- `src/task_cards` – cards for task notifications: their identity, their delivery
  and the fence between a card and the response that belongs to it.
- `src/terminal_coordinate` – the coordinates of a turn's end.
- `src/watcher` – what the tmux watcher reads, decodes, forwards, delivers, records
  and kills.
- `src/relay_coord.rs`, `src/provider_errors.rs`, `src/native_codex.rs`,
  `src/message_id.rs` – the relay's frontier, the providers' error messages, the
  messages of a native session, and synthetic message numbers.
- `src/text.rs`, `src/bytes.rs`, `src/json.rs`, `src/hashing.rs` – text, bytes,
  JSON and digests.

What the library believes without proof is marked `external_body` or
`assume_specification`, with a comment that says what is believed of which crate.

`app/` performs what the library decides: files under the channel's lock, the
database, tmux, timers, and calls into Discord. `tests/` runs the library.
