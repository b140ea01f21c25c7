//! Per-guild configuration and the heal pass that keeps it valid.
//!
//! A guild's settings reference structures (a text channel for pairings, a
//! judge role, a tournament-admin role, a category for match rooms) that
//! administrators can rename or delete at any time. The resolver functions
//! infer defaults by exact-name convention from a [`GuildSnapshot`], and
//! [`GuildSettings::update`] heals a settings record against a snapshot:
//! stale references are cleared, absent ones are rediscovered.

use vstd::prelude::*;

use crate::guild_snapshot::{GuildChannelKind, GuildRole, GuildChannel, GuildSnapshot};

verus! {

/// Name by which the default judge role is recognised.
pub open spec fn default_judge_role_name() -> Seq<char> {
    "Judge"@
}

/// Name by which the default tournament-admin role is recognised.
pub open spec fn default_tourn_admin_role_name() -> Seq<char> {
    "Tournament Admin"@
}

/// Name by which the default pairings text channel is recognised.
pub open spec fn default_pairings_channel_name() -> Seq<char> {
    "match-pairings"@
}

/// Name by which the default matches category is recognised.
pub open spec fn default_matches_category_name() -> Seq<char> {
    "Matches"@
}

/// The identifier of the first role at index `i` or later whose name is `name`.
pub open spec fn first_role_named_from(roles: Seq<GuildRole>, name: Seq<char>, i: int) -> Option<u64>
    decreases roles.len() - i,
{
    if i < 0 || i >= roles.len() {
        None
    } else if roles[i].name@ == name {
        Some(roles[i].id)
    } else {
        first_role_named_from(roles, name, i + 1)
    }
}

/// The identifier of the first role named `name`, scanning in snapshot order.
pub open spec fn find_role_named(roles: Seq<GuildRole>, name: Seq<char>) -> Option<u64> {
    first_role_named_from(roles, name, 0)
}

/// The identifier of the first channel at index `i` or later of kind `kind` whose name is `name`.
pub open spec fn first_channel_named_from(
    channels: Seq<GuildChannel>,
    kind: GuildChannelKind,
    name: Seq<char>,
    i: int,
) -> Option<u64>
    decreases channels.len() - i,
{
    if i < 0 || i >= channels.len() {
        None
    } else if channels[i].kind == kind && channels[i].name@ == name {
        Some(channels[i].id)
    } else {
        first_channel_named_from(channels, kind, name, i + 1)
    }
}

/// The identifier of the first channel of kind `kind` named `name`, scanning in snapshot order.
pub open spec fn find_channel_named(
    channels: Seq<GuildChannel>,
    kind: GuildChannelKind,
    name: Seq<char>,
) -> Option<u64> {
    first_channel_named_from(channels, kind, name, 0)
}

/// What a first-match scan over roles yields: some role with the name, taken
/// from the scanned suffix, or a guarantee that no such role is there.
pub proof fn lemma_first_role_named_from(roles: Seq<GuildRole>, name: Seq<char>, i: int)
    requires
        0 <= i <= roles.len(),
    ensures
        match first_role_named_from(roles, name, i) {
            Some(id) => exists|j: int|
                i <= j < roles.len() && roles[j].name@ == name && roles[j].id == id,
            None => forall|j: int| i <= j < roles.len() ==> roles[j].name@ != name,
        },
    decreases roles.len() - i,
{
    if i < roles.len() {
        if roles[i].name@ != name {
            lemma_first_role_named_from(roles, name, i + 1);
        }
    }
}

/// The channel counterpart of [`lemma_first_role_named_from`].
pub proof fn lemma_first_channel_named_from(
    channels: Seq<GuildChannel>,
    kind: GuildChannelKind,
    name: Seq<char>,
    i: int,
)
    requires
        0 <= i <= channels.len(),
    ensures
        match first_channel_named_from(channels, kind, name, i) {
            Some(id) => exists|j: int|
                i <= j < channels.len() && channels[j].kind == kind && channels[j].name@ == name
                    && channels[j].id == id,
            None => forall|j: int|
                i <= j < channels.len() ==> !(channels[j].kind == kind && channels[j].name@
                    == name),
        },
    decreases channels.len() - i,
{
    if i < channels.len() {
        if !(channels[i].kind == kind && channels[i].name@ == name) {
            lemma_first_channel_named_from(channels, kind, name, i + 1);
        }
    }
}

/// Relies on `str`'s `PartialEq`: two string slices are equal exactly when
/// their character sequences are equal.
#[verifier::external_body]
fn str_eq(a: &str, b: &str) -> (r: bool)
    ensures
        r == (a@ == b@),
{
    a == b
}

/// First role named `name`, in snapshot order.
fn find_role_in(guild: &GuildSnapshot, name: &str) -> (r: Option<u64>)
    ensures
        r == find_role_named(guild.roles@, name@),
{
    let n = guild.roles.len();
    let mut i: usize = 0;
    while i < n
        invariant
            n == guild.roles@.len(),
            i <= n,
            find_role_named(guild.roles@, name@) == first_role_named_from(
                guild.roles@,
                name@,
                i as int,
            ),
        decreases n - i,
    {
        if str_eq(guild.roles[i].name.as_str(), name) {
            return Some(guild.roles[i].id);
        }
        i = i + 1;
    }
    None
}

/// First channel of kind `kind` named `name`, in snapshot order.
fn find_channel_in(guild: &GuildSnapshot, kind: GuildChannelKind, name: &str) -> (r: Option<u64>)
    ensures
        r == find_channel_named(guild.channels@, kind, name@),
{
    let n = guild.channels.len();
    let mut i: usize = 0;
    while i < n
        invariant
            n == guild.channels@.len(),
            i <= n,
            find_channel_named(guild.channels@, kind, name@) == first_channel_named_from(
                guild.channels@,
                kind,
                name@,
                i as int,
            ),
        decreases n - i,
    {
        if guild.channels[i].kind == kind && str_eq(guild.channels[i].name.as_str(), name) {
            return Some(guild.channels[i].id);
        }
        i = i + 1;
    }
    None
}

/// The first role named "Judge", if the guild has one.
pub fn get_default_judge_role_id(guild: &GuildSnapshot) -> (r: Option<u64>)
    ensures
        r == find_role_named(guild.roles@, default_judge_role_name()),
{
    find_role_in(guild, "Judge")
}

/// The first role named "Tournament Admin", if the guild has one.
pub fn get_default_tourn_admin_role_id(guild: &GuildSnapshot) -> (r: Option<u64>)
    ensures
        r == find_role_named(guild.roles@, default_tourn_admin_role_name()),
{
    find_role_in(guild, "Tournament Admin")
}

/// The first text channel named "match-pairings", if the guild has one.
pub fn get_default_pairings_channel_id(guild: &GuildSnapshot) -> (r: Option<u64>)
    ensures
        r == find_channel_named(
            guild.channels@,
            GuildChannelKind::Text,
            default_pairings_channel_name(),
        ),
{
    find_channel_in(guild, GuildChannelKind::Text, "match-pairings")
}

/// The first category named "Matches", if the guild has one.
pub fn get_default_matches_category_id(guild: &GuildSnapshot) -> (r: Option<u64>)
    ensures
        r == find_channel_named(
            guild.channels@,
            GuildChannelKind::Category,
            default_matches_category_name(),
        ),
{
    find_channel_in(guild, GuildChannelKind::Category, "Matches")
}

/// The mathematical content of a [`GuildSettings`] record.
#[verifier::ext_equal]
pub struct SettingsView {
    pub pairings_channel: Option<u64>,
    pub judge_role: Option<u64>,
    pub tourn_admin_role: Option<u64>,
    pub matches_category: Option<u64>,
    pub make_vc: bool,
    pub make_tc: bool,
    pub tourn_settings: Seq<(String, String)>,
}

/// The resolved configuration of one guild: four optional structure
/// references, two feature toggles and free-form tournament settings.
#[derive(Clone, Debug, PartialEq, Eq)]
pub struct GuildSettings {
    pub pairings_channel: Option<u64>,
    pub judge_role: Option<u64>,
    pub tourn_admin_role: Option<u64>,
    pub matches_category: Option<u64>,
    pub make_vc: bool,
    pub make_tc: bool,
    pub tourn_settings: Vec<(String, String)>,
}

impl View for GuildSettings {
    type V = SettingsView;

    open spec fn view(&self) -> SettingsView {
        SettingsView {
            pairings_channel: self.pairings_channel,
            judge_role: self.judge_role,
            tourn_admin_role: self.tourn_admin_role,
            matches_category: self.matches_category,
            make_vc: self.make_vc,
            make_tc: self.make_tc,
            tourn_settings: self.tourn_settings@,
        }
    }
}

/// A settings record with nothing resolved and the default toggles.
pub open spec fn fresh_settings() -> SettingsView {
    SettingsView {
        pairings_channel: None,
        judge_role: None,
        tourn_admin_role: None,
        matches_category: None,
        make_vc: true,
        make_tc: false,
        tourn_settings: Seq::empty(),
    }
}

/// A settings record freshly inferred from a snapshot: every reference is the
/// default-named structure of the right kind, if the guild has one.
pub open spec fn settings_from_snapshot(guild: GuildSnapshot) -> SettingsView {
    SettingsView {
        pairings_channel: find_channel_named(
            guild.channels@,
            GuildChannelKind::Text,
            default_pairings_channel_name(),
        ),
        judge_role: find_role_named(guild.roles@, default_judge_role_name()),
        tourn_admin_role: find_role_named(guild.roles@, default_tourn_admin_role_name()),
        matches_category: find_channel_named(
            guild.channels@,
            GuildChannelKind::Category,
            default_matches_category_name(),
        ),
        make_vc: true,
        make_tc: false,
        tourn_settings: Seq::empty(),
    }
}

/// One heal step for a role reference: a reference to a vanished role is
/// cleared; an absent reference is resolved by default name; a still-valid
/// reference is never overwritten.
pub open spec fn heal_role_reference(
    cur: Option<u64>,
    guild: GuildSnapshot,
    name: Seq<char>,
) -> Option<u64> {
    match cur {
        Some(id) => if guild.has_role(id) {
            Some(id)
        } else {
            None
        },
        None => find_role_named(guild.roles@, name),
    }
}

/// One heal step for a channel reference. Presence is checked among all
/// channels; rediscovery looks only at channels of the expected kind.
pub open spec fn heal_channel_reference(
    cur: Option<u64>,
    guild: GuildSnapshot,
    kind: GuildChannelKind,
    name: Seq<char>,
) -> Option<u64> {
    match cur {
        Some(id) => if guild.has_channel(id) {
            Some(id)
        } else {
            None
        },
        None => find_channel_named(guild.channels@, kind, name),
    }
}

/// What one heal pass makes of a settings record: each of the four references
/// is healed independently; toggles and tournament settings are untouched.
pub open spec fn heal_spec(s: SettingsView, guild: GuildSnapshot) -> SettingsView {
    SettingsView {
        pairings_channel: heal_channel_reference(
            s.pairings_channel,
            guild,
            GuildChannelKind::Text,
            default_pairings_channel_name(),
        ),
        judge_role: heal_role_reference(s.judge_role, guild, default_judge_role_name()),
        tourn_admin_role: heal_role_reference(
            s.tourn_admin_role,
            guild,
            default_tourn_admin_role_name(),
        ),
        matches_category: heal_channel_reference(
            s.matches_category,
            guild,
            GuildChannelKind::Category,
            default_matches_category_name(),
        ),
        make_vc: s.make_vc,
        make_tc: s.make_tc,
        tourn_settings: s.tourn_settings,
    }
}

/// All four structure references are present.
pub open spec fn is_configured_spec(s: SettingsView) -> bool {
    &&& s.pairings_channel is Some
    &&& s.judge_role is Some
    &&& s.tourn_admin_role is Some
    &&& s.matches_category is Some
}

impl GuildSettings {
    /// A record with nothing resolved: references absent, voice channels on,
    /// text channels off, no tournament settings.
    pub fn new() -> (r: Self)
        ensures
            r@ == fresh_settings(),
    {
        let r = GuildSettings {
            pairings_channel: None,
            judge_role: None,
            tourn_admin_role: None,
            matches_category: None,
            make_vc: true,
            make_tc: false,
            tourn_settings: Vec::new(),
        };
        proof {
            assert(r@ =~= fresh_settings());
        }
        r
    }

    /// A record inferred from an existing guild: each reference resolved by
    /// default-name convention against the snapshot.
    pub fn from_existing(guild: &GuildSnapshot) -> (r: Self)
        ensures
            r@ == settings_from_snapshot(*guild),
    {
        let judge_role = get_default_judge_role_id(guild);
        let tourn_admin_role = get_default_tourn_admin_role_id(guild);
        let pairings_channel = get_default_pairings_channel_id(guild);
        let matches_category = get_default_matches_category_id(guild);
        let r = GuildSettings {
            pairings_channel,
            judge_role,
            tourn_admin_role,
            matches_category,
            make_vc: true,
            make_tc: false,
            tourn_settings: Vec::new(),
        };
        proof {
            assert(r@ =~= settings_from_snapshot(*guild));
        }
        r
    }

    /// One heal pass against a snapshot: clears each reference whose target is
    /// gone, resolves each absent one by default name, and leaves still-valid
    /// references, the toggles and the tournament settings untouched.
    pub fn update(&mut self, guild: &GuildSnapshot)
        ensures
            final(self)@ == heal_spec(old(self)@, *guild),
    {
        match self.judge_role {
            Some(id) => {
                if !guild.contains_role(id) {
                    self.judge_role = None;
                }
            },
            None => {
                self.judge_role = get_default_judge_role_id(guild);
            },
        }
        match self.tourn_admin_role {
            Some(id) => {
                if !guild.contains_role(id) {
                    self.tourn_admin_role = None;
                }
            },
            None => {
                self.tourn_admin_role = get_default_tourn_admin_role_id(guild);
            },
        }
        match self.pairings_channel {
            Some(id) => {
                if !guild.contains_channel(id) {
                    self.pairings_channel = None;
                }
            },
            None => {
                self.pairings_channel = get_default_pairings_channel_id(guild);
            },
        }
        match self.matches_category {
            Some(id) => {
                if !guild.contains_channel(id) {
                    self.matches_category = None;
                }
            },
            None => {
                self.matches_category = get_default_matches_category_id(guild);
            },
        }
        proof {
            assert(self@ =~= heal_spec(old(self)@, *guild));
        }
    }

    /// Whether all four structure references are currently present.
    pub fn is_configured(&self) -> (r: bool)
        ensures
            r == is_configured_spec(self@),
            r == (self.pairings_channel is Some && self.judge_role is Some
                && self.tourn_admin_role is Some && self.matches_category is Some),
    {
        self.pairings_channel.is_some() && self.judge_role.is_some()
            && self.tourn_admin_role.is_some() && self.matches_category.is_some()
    }
}

/// Heal clears stale references: a reference whose target the snapshot no
/// longer holds is absent after one heal pass.
pub proof fn lemma_heal_clears_stale(s: SettingsView, guild: GuildSnapshot)
    ensures
        match s.pairings_channel {
            Some(id) => !guild.has_channel(id) ==> heal_spec(s, guild).pairings_channel is None,
            None => true,
        },
        match s.matches_category {
            Some(id) => !guild.has_channel(id) ==> heal_spec(s, guild).matches_category is None,
            None => true,
        },
        match s.judge_role {
            Some(id) => !guild.has_role(id) ==> heal_spec(s, guild).judge_role is None,
            None => true,
        },
        match s.tourn_admin_role {
            Some(id) => !guild.has_role(id) ==> heal_spec(s, guild).tourn_admin_role is None,
            None => true,
        },
{
}

/// Heal rediscovers defaults: an absent reference is set after one heal pass
/// whenever the snapshot holds a structure of the expected kind with the
/// default name, and what it is set to is such a structure's identifier.
pub proof fn lemma_heal_rediscovers_defaults(s: SettingsView, guild: GuildSnapshot)
    ensures
        s.judge_role is None && (exists|j: int|
            0 <= j < guild.roles@.len() && guild.roles@[j].name@ == default_judge_role_name())
            ==> match heal_spec(s, guild).judge_role {
            Some(id) => exists|j: int|
                0 <= j < guild.roles@.len() && guild.roles@[j].id == id && guild.roles@[j].name@
                    == default_judge_role_name(),
            None => false,
        },
        s.tourn_admin_role is None && (exists|j: int|
            0 <= j < guild.roles@.len() && guild.roles@[j].name@
                == default_tourn_admin_role_name()) ==> match heal_spec(s, guild).tourn_admin_role {
            Some(id) => exists|j: int|
                0 <= j < guild.roles@.len() && guild.roles@[j].id == id && guild.roles@[j].name@
                    == default_tourn_admin_role_name(),
            None => false,
        },
        s.pairings_channel is None && (exists|j: int|
            0 <= j < guild.channels@.len() && guild.channels@[j].kind == GuildChannelKind::Text
                && guild.channels@[j].name@ == default_pairings_channel_name()) ==> match heal_spec(
            s,
            guild,
        ).pairings_channel {
            Some(id) => exists|j: int|
                0 <= j < guild.channels@.len() && guild.channels@[j].id == id
                    && guild.channels@[j].kind == GuildChannelKind::Text
                    && guild.channels@[j].name@ == default_pairings_channel_name(),
            None => false,
        },
        s.matches_category is None && (exists|j: int|
            0 <= j < guild.channels@.len() && guild.channels@[j].kind == GuildChannelKind::Category
                && guild.channels@[j].name@ == default_matches_category_name()) ==> match heal_spec(
            s,
            guild,
        ).matches_category {
            Some(id) => exists|j: int|
                0 <= j < guild.channels@.len() && guild.channels@[j].id == id
                    && guild.channels@[j].kind == GuildChannelKind::Category
                    && guild.channels@[j].name@ == default_matches_category_name(),
            None => false,
        },
{
    lemma_first_role_named_from(guild.roles@, default_judge_role_name(), 0);
    lemma_first_role_named_from(guild.roles@, default_tourn_admin_role_name(), 0);
    lemma_first_channel_named_from(
        guild.channels@,
        GuildChannelKind::Text,
        default_pairings_channel_name(),
        0,
    );
    lemma_first_channel_named_from(
        guild.channels@,
        GuildChannelKind::Category,
        default_matches_category_name(),
        0,
    );
}

/// A role reference on which one heal pass already reaches a fixed point:
/// not the case exactly when the reference is stale and a default with the
/// given name is discoverable, since the pass only clears it and the next
/// pass resolves it anew.
pub open spec fn role_reference_heal_stable(
    cur: Option<u64>,
    guild: GuildSnapshot,
    name: Seq<char>,
) -> bool {
    match cur {
        Some(id) => guild.has_role(id) || find_role_named(guild.roles@, name) is None,
        None => true,
    }
}

/// The channel counterpart of [`role_reference_heal_stable`].
pub open spec fn channel_reference_heal_stable(
    cur: Option<u64>,
    guild: GuildSnapshot,
    kind: GuildChannelKind,
    name: Seq<char>,
) -> bool {
    match cur {
        Some(id) => guild.has_channel(id) || find_channel_named(guild.channels@, kind, name)
            is None,
        None => true,
    }
}

/// Heal is idempotent: healing twice against one snapshot yields the same
/// record as healing once, for every record whose references are each heal
/// stable — that is, no reference is both stale and rediscoverable, the one
/// shape on which a first pass clears and a second pass resolves.
pub proof fn lemma_heal_idempotent(s: SettingsView, guild: GuildSnapshot)
    requires
        role_reference_heal_stable(s.judge_role, guild, default_judge_role_name()),
        role_reference_heal_stable(s.tourn_admin_role, guild, default_tourn_admin_role_name()),
        channel_reference_heal_stable(
            s.pairings_channel,
            guild,
            GuildChannelKind::Text,
            default_pairings_channel_name(),
        ),
        channel_reference_heal_stable(
            s.matches_category,
            guild,
            GuildChannelKind::Category,
            default_matches_category_name(),
        ),
    ensures
        heal_spec(heal_spec(s, guild), guild) == heal_spec(s, guild),
{
    lemma_first_role_named_from(guild.roles@, default_judge_role_name(), 0);
    lemma_first_role_named_from(guild.roles@, default_tourn_admin_role_name(), 0);
    lemma_first_channel_named_from(
        guild.channels@,
        GuildChannelKind::Text,
        default_pairings_channel_name(),
        0,
    );
    lemma_first_channel_named_from(
        guild.channels@,
        GuildChannelKind::Category,
        default_matches_category_name(),
        0,
    );
    assert(heal_spec(heal_spec(s, guild), guild) =~= heal_spec(s, guild));
}

/// A heal pass leaves every record heal stable in the sense of
/// [`lemma_heal_idempotent`], so a third pass never differs from a second.
pub proof fn lemma_heal_reaches_fixed_point(s: SettingsView, guild: GuildSnapshot)
    ensures
        heal_spec(heal_spec(heal_spec(s, guild), guild), guild) == heal_spec(
            heal_spec(s, guild),
            guild,
        ),
{
    lemma_first_role_named_from(guild.roles@, default_judge_role_name(), 0);
    lemma_first_role_named_from(guild.roles@, default_tourn_admin_role_name(), 0);
    lemma_first_channel_named_from(
        guild.channels@,
        GuildChannelKind::Text,
        default_pairings_channel_name(),
        0,
    );
    lemma_first_channel_named_from(
        guild.channels@,
        GuildChannelKind::Category,
        default_matches_category_name(),
        0,
    );
    lemma_heal_idempotent(heal_spec(s, guild), guild);
}

} // verus!
