//! Helpers around the registry: message escaping, the notification request
//! and the ordering of a fetched validator set.

pub mod escape_for_telegram_markdown_v2;
pub mod get_network_validators;
pub mod send_message;

pub use escape_for_telegram_markdown_v2::escape_for_telegram_markdown_v2;
pub use get_network_validators::sort_by_stake;
pub use send_message::{SendMessageParams, SendMessageRequest, Sender};
