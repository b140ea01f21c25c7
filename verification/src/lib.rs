//! Confirmation and guild-configuration core of a tournament-coordination bot.
//!
//! The crate has two halves. `confirm` holds a registry of pending
//! yes/no approvals, one per user, with atomic remove-and-inspect semantics.
//! `guild_snapshot`, `guild_settings` and `settings_store` hold the resolved
//! configuration of each guild (a pairings channel, two roles, a match
//! category) and the heal pass that revalidates those references against the
//! guild's live structure.

pub mod concurrent_map;
pub mod confirm;
pub mod guild_settings;
pub mod guild_snapshot;
pub mod settings_store;
