//! The process-wide store of per-guild settings.
//!
//! Guild settings are created lazily on first access, inferred from the
//! guild's structure at that moment, and healed against a fresh snapshot on
//! explicit demand. The store is keyed by guild identity, so lookups for
//! different guilds do not contend.

use vstd::prelude::*;

use dashmap::DashMap;

use crate::guild_settings::{
    GuildSettings, SettingsView, heal_spec, is_configured_spec, settings_from_snapshot,
};
use crate::guild_snapshot::GuildSnapshot;

verus! {

/// The concurrent map that backs this module, keyed by guild identifier.
pub type SettingsMap = DashMap<u64, GuildSettings>;

/// The settings records that a store's map holds, keyed by guild identifier,
/// each record as its view.
pub uninterp spec fn stored_settings(m: SettingsMap) -> Map<u64, SettingsView>;

/// `m` holds no settings record at all.
pub open spec fn no_stored_settings(m: SettingsMap) -> bool {
    stored_settings(m) == Map::<u64, SettingsView>::empty()
}

/// Relies on `DashMap::new`: a freshly created map is empty.
#[verifier::external_body]
fn new_settings_map() -> (r: SettingsMap)
    ensures
        no_stored_settings(r),
{
    DashMap::new()
}

/// Relies on `DashMap::get`: returns the entry for the key, if any, without
/// changing the map. The record is handed out as an owned, field-wise copy.
#[verifier::external_body]
fn lookup_settings(m: &SettingsMap, guild: u64) -> (r: Option<GuildSettings>)
    ensures
        stored_settings(*m).dom().contains(guild) ==> (match r {
            Some(s) => s@ == stored_settings(*m)[guild],
            None => false,
        }),
        !stored_settings(*m).dom().contains(guild) ==> r is None,
{
    m.get(&guild).map(|entry| entry.value().clone())
}

/// Relies on `DashMap::insert`: stores a copy of the record under the guild's
/// key, replacing the entry that was there, if any.
#[verifier::external_body]
fn store_settings(m: &mut SettingsMap, guild: u64, settings: &GuildSettings)
    ensures
        stored_settings(*final(m)) == stored_settings(*old(m)).insert(guild, settings@),
{
    m.insert(guild, settings.clone());
}

/// A concurrent mapping from guild identity to that guild's settings. Entries
/// are created on first access and healed on explicit demand; they are never
/// removed while the process lives.
pub struct GuildSettingsStore {
    settings: SettingsMap,
}

impl GuildSettingsStore {
    /// The stored settings, keyed by guild, each record as its view.
    pub closed spec fn guilds(self) -> Map<u64, SettingsView> {
        stored_settings(self.settings)
    }

    /// A store with no guild known yet.
    pub fn new() -> (r: Self)
        ensures
            r.guilds() == Map::<u64, SettingsView>::empty(),
    {
        GuildSettingsStore { settings: new_settings_map() }
    }

    /// The guild's settings: created from the snapshot on first access, and
    /// returned unchanged on every later one. Healing is a separate explicit
    /// step, so a plain read never rescans the guild.
    pub fn get_or_create(&mut self, guild_id: u64, guild: &GuildSnapshot) -> (r: GuildSettings)
        ensures
            old(self).guilds().dom().contains(guild_id) ==> (r@ == old(self).guilds()[guild_id]
                && final(self).guilds() == old(self).guilds()),
            !old(self).guilds().dom().contains(guild_id) ==> (r@ == settings_from_snapshot(*guild)
                && final(self).guilds() == old(self).guilds().insert(
                guild_id,
                settings_from_snapshot(*guild),
            )),
    {
        match lookup_settings(&self.settings, guild_id) {
            Some(s) => s,
            None => {
                let s = GuildSettings::from_existing(guild);
                store_settings(&mut self.settings, guild_id, &s);
                s
            },
        }
    }

    /// One heal pass for the guild's record against the snapshot: stale
    /// references cleared, absent ones rediscovered, valid ones untouched.
    /// A guild without a record is left without one.
    pub fn heal(&mut self, guild_id: u64, guild: &GuildSnapshot)
        ensures
            old(self).guilds().dom().contains(guild_id) ==> final(self).guilds() == old(self).guilds().insert(guild_id, heal_spec(old(self).guilds()[guild_id], *guild)),
            !old(self).guilds().dom().contains(guild_id) ==> final(self).guilds() == old(self).guilds(),
    {
        match lookup_settings(&self.settings, guild_id) {
            Some(mut s) => {
                s.update(guild);
                store_settings(&mut self.settings, guild_id, &s);
            },
            None => {},
        }
    }

    /// Whether the guild has a record whose four structure references are all
    /// present. A guild without a record is not configured.
    pub fn is_configured(&self, guild_id: u64) -> (r: bool)
        ensures
            r == (self.guilds().dom().contains(guild_id) && is_configured_spec(
                self.guilds()[guild_id],
            )),
    {
        match lookup_settings(&self.settings, guild_id) {
            Some(s) => s.is_configured(),
            None => false,
        }
    }
}

} // verus!
