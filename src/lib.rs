//! Clock registry and reconciliation engine for a chat-community time bot.
//!
//! The library renders clock names from timezone-aware templates, enforces
//! per-group quotas, keeps the clock and personal-timezone tables, and
//! decides what each bot command and platform event does to them.
pub mod commands;
pub mod personal;
pub mod quota;
pub mod registry;
pub mod template;
pub mod text;
pub mod zone;
