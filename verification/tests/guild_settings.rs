use tourn_bot_core::guild_settings::{
    get_default_judge_role_id, get_default_matches_category_id, get_default_pairings_channel_id,
    get_default_tourn_admin_role_id, GuildSettings,
};
use tourn_bot_core::guild_snapshot::{GuildChannel, GuildChannelKind, GuildRole, GuildSnapshot};
use tourn_bot_core::settings_store::GuildSettingsStore;

fn role(id: u64, name: &str) -> GuildRole {
    GuildRole { id, name: name.to_string() }
}

fn channel(id: u64, name: &str, kind: GuildChannelKind) -> GuildChannel {
    GuildChannel { id, name: name.to_string(), kind }
}

fn full_snapshot() -> GuildSnapshot {
    GuildSnapshot {
        roles: vec![role(10, "Judge"), role(11, "Tournament Admin"), role(12, "Spectator")],
        channels: vec![
            channel(20, "match-pairings", GuildChannelKind::Text),
            channel(21, "Matches", GuildChannelKind::Category),
            channel(22, "general", GuildChannelKind::Text),
        ],
    }
}

fn empty_snapshot() -> GuildSnapshot {
    GuildSnapshot { roles: Vec::new(), channels: Vec::new() }
}

#[test]
fn new_settings_have_defaults_and_are_unconfigured() {
    let settings = GuildSettings::new();
    assert_eq!(settings.pairings_channel, None);
    assert_eq!(settings.judge_role, None);
    assert_eq!(settings.tourn_admin_role, None);
    assert_eq!(settings.matches_category, None);
    assert!(settings.make_vc);
    assert!(!settings.make_tc);
    assert!(settings.tourn_settings.is_empty());
    assert!(!settings.is_configured());
}

#[test]
fn from_existing_resolves_all_defaults() {
    let settings = GuildSettings::from_existing(&full_snapshot());
    assert_eq!(settings.judge_role, Some(10));
    assert_eq!(settings.tourn_admin_role, Some(11));
    assert_eq!(settings.pairings_channel, Some(20));
    assert_eq!(settings.matches_category, Some(21));
    assert!(settings.make_vc);
    assert!(!settings.make_tc);
    assert!(settings.is_configured());
}

#[test]
fn role_detection_requires_the_exact_name() {
    let guild = GuildSnapshot {
        roles: vec![role(1, "judge"), role(2, "Judge "), role(3, "Judge")],
        channels: Vec::new(),
    };
    assert_eq!(get_default_judge_role_id(&guild), Some(3));
    assert_eq!(get_default_tourn_admin_role_id(&guild), None);
}

#[test]
fn first_matching_role_wins() {
    let guild = GuildSnapshot {
        roles: vec![role(5, "Judge"), role(6, "Judge")],
        channels: Vec::new(),
    };
    assert_eq!(get_default_judge_role_id(&guild), Some(5));
}

#[test]
fn pairings_channel_must_be_a_text_channel() {
    let guild = GuildSnapshot {
        roles: Vec::new(),
        channels: vec![
            channel(1, "match-pairings", GuildChannelKind::Category),
            channel(2, "match-pairings", GuildChannelKind::Other),
            channel(3, "match-pairings", GuildChannelKind::Text),
        ],
    };
    assert_eq!(get_default_pairings_channel_id(&guild), Some(3));
}

#[test]
fn matches_category_must_be_a_category() {
    let guild = GuildSnapshot {
        roles: Vec::new(),
        channels: vec![
            channel(1, "Matches", GuildChannelKind::Text),
            channel(2, "Matches", GuildChannelKind::Category),
        ],
    };
    assert_eq!(get_default_matches_category_id(&guild), Some(2));
}

#[test]
fn nothing_is_detected_in_an_unnamed_guild() {
    let guild = GuildSnapshot {
        roles: vec![role(1, "Moderator")],
        channels: vec![channel(2, "lounge", GuildChannelKind::Text)],
    };
    assert_eq!(get_default_judge_role_id(&guild), None);
    assert_eq!(get_default_tourn_admin_role_id(&guild), None);
    assert_eq!(get_default_pairings_channel_id(&guild), None);
    assert_eq!(get_default_matches_category_id(&guild), None);
}

#[test]
fn update_clears_stale_references() {
    let mut settings = GuildSettings::new();
    settings.pairings_channel = Some(99);
    settings.judge_role = Some(98);
    settings.tourn_admin_role = Some(97);
    settings.matches_category = Some(96);
    settings.update(&empty_snapshot());
    assert_eq!(settings.pairings_channel, None);
    assert_eq!(settings.judge_role, None);
    assert_eq!(settings.tourn_admin_role, None);
    assert_eq!(settings.matches_category, None);
    assert!(!settings.is_configured());
}

#[test]
fn update_keeps_valid_explicit_references() {
    // References that administrators set by hand do not carry the default
    // names; as long as their targets exist, a heal pass must not touch them.
    let guild = GuildSnapshot {
        roles: vec![role(1, "Head Judge"), role(2, "Judge")],
        channels: vec![
            channel(3, "round-announcements", GuildChannelKind::Text),
            channel(4, "Matches", GuildChannelKind::Category),
        ],
    };
    let mut settings = GuildSettings::new();
    settings.judge_role = Some(1);
    settings.pairings_channel = Some(3);
    settings.update(&guild);
    assert_eq!(settings.judge_role, Some(1));
    assert_eq!(settings.pairings_channel, Some(3));
    // The absent references were rediscovered where possible.
    assert_eq!(settings.matches_category, Some(4));
    assert_eq!(settings.tourn_admin_role, None);
}

#[test]
fn update_rediscovers_absent_defaults() {
    let mut settings = GuildSettings::new();
    settings.update(&full_snapshot());
    assert_eq!(settings.judge_role, Some(10));
    assert_eq!(settings.tourn_admin_role, Some(11));
    assert_eq!(settings.pairings_channel, Some(20));
    assert_eq!(settings.matches_category, Some(21));
}

#[test]
fn update_twice_equals_update_once_on_stable_settings() {
    let guild = full_snapshot();
    let mut once = GuildSettings::from_existing(&guild);
    once.update(&guild);
    let mut twice = once.clone();
    twice.update(&guild);
    assert_eq!(once, twice);

    let mut from_nothing_once = GuildSettings::new();
    from_nothing_once.update(&guild);
    let mut from_nothing_twice = from_nothing_once.clone();
    from_nothing_twice.update(&guild);
    assert_eq!(from_nothing_once, from_nothing_twice);
}

#[test]
fn a_stale_rediscoverable_reference_heals_in_two_passes() {
    // The one shape on which two passes differ from one: the first pass only
    // clears the stale reference, the next resolves the default anew.
    let guild = full_snapshot();
    let mut settings = GuildSettings::new();
    settings.judge_role = Some(999);
    settings.update(&guild);
    assert_eq!(settings.judge_role, None);
    settings.update(&guild);
    assert_eq!(settings.judge_role, Some(10));
}

#[test]
fn is_configured_is_the_conjunction_of_the_four_presences() {
    let mut settings = GuildSettings::new();
    settings.pairings_channel = Some(1);
    settings.judge_role = Some(2);
    settings.tourn_admin_role = Some(3);
    settings.matches_category = Some(4);
    assert!(settings.is_configured());

    let mut missing_pairings = settings.clone();
    missing_pairings.pairings_channel = None;
    assert!(!missing_pairings.is_configured());

    let mut missing_judge = settings.clone();
    missing_judge.judge_role = None;
    assert!(!missing_judge.is_configured());

    let mut missing_admin = settings.clone();
    missing_admin.tourn_admin_role = None;
    assert!(!missing_admin.is_configured());

    let mut missing_category = settings.clone();
    missing_category.matches_category = None;
    assert!(!missing_category.is_configured());
}

#[test]
fn store_creates_lazily_and_then_returns_unchanged() {
    let mut store = GuildSettingsStore::new();
    let created = store.get_or_create(777, &full_snapshot());
    assert!(created.is_configured());
    // A later access does not rescan: the record comes back as stored even
    // though this snapshot would resolve nothing.
    let read_back = store.get_or_create(777, &empty_snapshot());
    assert_eq!(created, read_back);
}

#[test]
fn store_heal_refreshes_the_record() {
    let mut store = GuildSettingsStore::new();
    let created = store.get_or_create(5, &empty_snapshot());
    assert!(!created.is_configured());
    assert!(!store.is_configured(5));
    store.heal(5, &full_snapshot());
    assert!(store.is_configured(5));
    let healed = store.get_or_create(5, &empty_snapshot());
    assert_eq!(healed.judge_role, Some(10));
    assert_eq!(healed.tourn_admin_role, Some(11));
    assert_eq!(healed.pairings_channel, Some(20));
    assert_eq!(healed.matches_category, Some(21));
}

#[test]
fn store_heal_clears_stale_references() {
    let mut store = GuildSettingsStore::new();
    let created = store.get_or_create(6, &full_snapshot());
    assert!(created.is_configured());
    store.heal(6, &empty_snapshot());
    assert!(!store.is_configured(6));
    let healed = store.get_or_create(6, &empty_snapshot());
    assert_eq!(healed.pairings_channel, None);
}

#[test]
fn unknown_guilds_are_not_configured_and_heal_is_a_no_op() {
    let mut store = GuildSettingsStore::new();
    assert!(!store.is_configured(123));
    store.heal(123, &full_snapshot());
    assert!(!store.is_configured(123));
}
