//! The decisions of the tmux watcher: what it reads, when it delivers, when it
//! gives up on a turn, and what it may kill.

pub mod session;
pub mod terminal_abort;
pub mod stale_resume;
pub mod terminal_preflight;
pub mod utf8_decoder;
pub mod chunk_forward;
pub mod jsonl;
pub mod output_guard;
pub mod source_epoch;
pub mod commit_decisions;
pub mod orphan_frame;
pub mod discrete_marker;
pub mod terminal_send;
pub mod status_panel;
pub mod task_response;
pub mod cancel_handoff;
pub mod forced_kill;
pub mod answer_laws;
pub mod detail_laws;
pub mod output_laws;
pub mod turn_laws;
