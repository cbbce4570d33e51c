use chrono::TimeZone;
use mr_roller::config::{AdminConfig, DatabaseConfig, DiscordConfig, EventsConfig, Settings};
use mr_roller::cooldown::{CooldownConfig, MICROS_PER_HOUR};
use mr_roller::player::PlayerId;

#[test]
fn default_settings_have_no_admins_or_database_url() {
    let settings = Settings::default();
    assert!(settings.admin.bootstrap_admin_ids.is_empty());
    assert!(settings.database.url.is_none());
}

#[test]
fn converts_bootstrap_admin_ids_to_player_ids() {
    let settings = Settings {
        admin: AdminConfig { bootstrap_admin_ids: vec![1, 42] },
        database: DatabaseConfig::default(),
        events: EventsConfig::default(),
        discord: DiscordConfig::default(),
    };
    assert_eq!(settings.bootstrap_admin_player_ids(), vec![PlayerId::new(1), PlayerId::new(42)]);
}

#[test]
fn default_event_settings() {
    let events = EventsConfig::default();
    assert!(events.enabled);
    assert_eq!(events.check_interval_seconds, 60);
    assert_eq!(events.max_active_events, 1);
    assert_eq!(events.random_item_spawn.timeout_seconds, 900);
    assert_eq!(events.random_item_spawn.items.len(), 1);
    assert_eq!(events.random_item_spawn.items[0].kind, "regular_dice");
    assert_eq!(events.random_item_spawn.items[0].weight, 5);
}

fn dt(day: u32, hour: u32, min: u32) -> i64 {
    chrono::Utc
        .with_ymd_and_hms(2026, 4, day, hour, min, 0)
        .single()
        .unwrap()
        .timestamp_micros()
}

#[test]
fn test_midnight_reset_allows_next_day() {
    let config = CooldownConfig::default();
    assert!(!config.is_on_cooldown(dt(28, 13, 0), dt(29, 7, 0)));
}

#[test]
fn test_midnight_reset_blocks_same_day() {
    let config = CooldownConfig::default();
    assert!(config.is_on_cooldown(dt(28, 7, 0), dt(28, 10, 0)));
}

#[test]
fn test_duration_only_12h_allows_after_elapsed() {
    let config = CooldownConfig { duration: 12 * MICROS_PER_HOUR, reset_at_midnight: false };
    assert!(!config.is_on_cooldown(dt(28, 13, 0), dt(29, 1, 0)));
}

#[test]
fn test_duration_only_12h_blocks_before_elapsed() {
    let config = CooldownConfig { duration: 12 * MICROS_PER_HOUR, reset_at_midnight: false };
    assert!(config.is_on_cooldown(dt(28, 13, 0), dt(28, 20, 0)));
}

#[test]
fn test_12h_with_midnight_midnight_wins() {
    let config = CooldownConfig { duration: 12 * MICROS_PER_HOUR, reset_at_midnight: true };
    assert!(!config.is_on_cooldown(dt(28, 13, 0), dt(29, 7, 0)));
}

#[test]
fn test_12h_with_midnight_duration_wins_when_sooner() {
    let config = CooldownConfig { duration: 12 * MICROS_PER_HOUR, reset_at_midnight: true };
    assert!(!config.is_on_cooldown(dt(28, 2, 0), dt(28, 16, 0)));
}

#[test]
fn test_first_roll_never_on_cooldown() {
    let config = CooldownConfig::default();
    assert!(config.is_first_roll(None));
}

#[test]
fn cooldown_at_the_edges() {
    let config = CooldownConfig::default();
    // Rolled at 23:00, the cooldown ends at midnight.
    assert!(config.is_on_cooldown(dt(28, 23, 0), dt(28, 23, 59)));
    assert!(!config.is_on_cooldown(dt(28, 23, 0), dt(29, 0, 0)));
    // Before 1970 the day still starts at midnight UTC.
    let before_epoch = -MICROS_PER_HOUR;
    assert!(config.is_on_cooldown(before_epoch - MICROS_PER_HOUR, before_epoch));
    assert!(!config.is_first_roll(Some(0)));
}
