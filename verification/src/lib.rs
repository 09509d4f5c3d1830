//! Delivery state for a Discord-facing agent runtime: the status-panel journal,
//! task-notification cards, terminal coordinates and the tmux watcher's
//! decisions, each as executable code with a proved contract.

pub mod bytes;
pub mod hashing;
pub mod journal;
pub mod json;
pub mod json_laws;
pub mod message_id;
pub mod native_codex;
pub mod provider_error_laws;
pub mod provider_errors;
pub mod relay_coord;
pub mod task_cards;
pub mod terminal_coordinate;
pub mod text;
pub mod text_laws;
pub mod watcher;
