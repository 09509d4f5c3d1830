//! Cards for task notifications.
//!
//! A notification that a provider's task has come to an end is shown as a card in
//! the channel. Whatever way the notification arrives, its meaning gives it one key,
//! and the key gives it one card and one Discord nonce; the response that belongs to
//! the task is delivered after its card.

pub mod identity;
pub mod identity_laws;
pub mod context;
pub mod event;
pub mod event_laws;
pub mod delivery;
pub mod delivery_laws;
pub mod gateway;
pub mod fence;
pub mod fence_laws;
pub mod marker;
pub mod marker_laws;
pub mod started_at;
