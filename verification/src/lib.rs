//! Watches a game server's status page and prepares chat-webhook alerts.
//!
//! The library holds the verified logic of the watcher: extracting the
//! maintenance flag from page markup, decoding and encoding the persisted
//! status marker, rendering the alert payload, and deciding what a polling
//! tick must do. Fetching the page, posting the alert and touching the
//! state file are left to the surrounding binary.

pub mod alert;
pub mod extract;
pub mod state;
pub mod text;
pub mod tick;
