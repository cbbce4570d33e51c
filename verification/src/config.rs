//! Application settings: admins, database, events and Discord.

use vstd::prelude::*;
use crate::player::PlayerId;
use crate::text::owned;

verus! {

/// Application settings. Loading them from `mr-roller.toml` and the
/// `MR_ROLLER__SECTION__KEY` environment overrides is the frontend's work.
#[derive(Debug)]
pub struct Settings {
    pub admin: AdminConfig,
    pub database: DatabaseConfig,
    pub events: EventsConfig,
    pub discord: DiscordConfig,
}

#[derive(Debug)]
pub struct AdminConfig {
    pub bootstrap_admin_ids: Vec<u64>,
}

#[derive(Debug)]
pub struct DatabaseConfig {
    pub url: Option<String>,
}

#[derive(Debug)]
pub struct DiscordConfig {
    pub enabled: bool,
    pub token: Option<String>,
}

/// Global event settings. The chance that a check spawns an event is a
/// floating-point probability; frontends hold it and draw that chance.
#[derive(Debug)]
pub struct EventsConfig {
    pub enabled: bool,
    pub check_interval_seconds: u64,
    pub max_active_events: usize,
    pub random_item_spawn: RandomItemSpawnConfig,
}

#[derive(Debug)]
pub struct RandomItemSpawnConfig {
    pub enabled: bool,
    pub timeout_seconds: u64,
    pub items: Vec<RandomItemSpawnEntry>,
}

/// An item key (as `AdminItemKind` parses it) and its relative weight.
#[derive(Debug)]
pub struct RandomItemSpawnEntry {
    pub kind: String,
    pub weight: u32,
}

impl Clone for RandomItemSpawnEntry {
    fn clone(&self) -> (r: Self)
        ensures
            r == *self,
    {
        RandomItemSpawnEntry { kind: self.kind.clone(), weight: self.weight }
    }
}

impl Clone for RandomItemSpawnConfig {
    fn clone(&self) -> (r: Self)
        ensures
            r.enabled == self.enabled,
            r.timeout_seconds == self.timeout_seconds,
            r.items@ == self.items@,
    {
        let mut items: Vec<RandomItemSpawnEntry> = Vec::new();
        let mut i: usize = 0;
        while i < self.items.len()
            invariant
                i <= self.items@.len(),
                items@ == self.items@.take(i as int),
            decreases self.items@.len() - i,
        {
            items.push(self.items[i].clone());
            i = i + 1;
            proof {
                assert(items@ =~= self.items@.take(i as int));
            }
        }
        proof {
            assert(self.items@.take(self.items@.len() as int) =~= self.items@);
        }
        RandomItemSpawnConfig {
            enabled: self.enabled,
            timeout_seconds: self.timeout_seconds,
            items,
        }
    }
}

impl Clone for EventsConfig {
    fn clone(&self) -> (r: Self)
        ensures
            r.enabled == self.enabled,
            r.check_interval_seconds == self.check_interval_seconds,
            r.max_active_events == self.max_active_events,
            r.random_item_spawn.enabled == self.random_item_spawn.enabled,
            r.random_item_spawn.timeout_seconds == self.random_item_spawn.timeout_seconds,
            r.random_item_spawn.items@ == self.random_item_spawn.items@,
    {
        EventsConfig {
            enabled: self.enabled,
            check_interval_seconds: self.check_interval_seconds,
            max_active_events: self.max_active_events,
            random_item_spawn: self.random_item_spawn.clone(),
        }
    }
}

/// Whether `c` holds the default event settings: enabled, checked every 60
/// seconds, at most one active event, and random item spawns enabled with a
/// 15-minute timeout and regular dice (weight 5) as the only item.
pub open spec fn is_default_events(c: EventsConfig) -> bool {
    &&& c.enabled
    &&& c.check_interval_seconds == 60
    &&& c.max_active_events == 1
    &&& c.random_item_spawn.enabled
    &&& c.random_item_spawn.timeout_seconds == 900
    &&& c.random_item_spawn.items@.len() == 1
    &&& c.random_item_spawn.items@[0].kind@ == "regular_dice"@
    &&& c.random_item_spawn.items@[0].weight == 5
}

impl Default for RandomItemSpawnConfig {
    /// Enabled, a 15-minute timeout, and regular dice (weight 5) as the only item.
    fn default() -> (c: Self)
        ensures
            c.enabled,
            c.timeout_seconds == 900,
            c.items@.len() == 1,
            c.items@[0].kind@ == "regular_dice"@,
            c.items@[0].weight == 5,
    {
        let mut items: Vec<RandomItemSpawnEntry> = Vec::new();
        items.push(RandomItemSpawnEntry { kind: owned("regular_dice"), weight: 5 });
        RandomItemSpawnConfig { enabled: true, timeout_seconds: 900, items }
    }
}

impl Default for EventsConfig {
    /// Enabled, checked every 60 seconds, at most one active event, with the
    /// default random item spawn.
    fn default() -> (c: Self)
        ensures
            is_default_events(c),
    {
        EventsConfig {
            enabled: true,
            check_interval_seconds: 60,
            max_active_events: 1,
            random_item_spawn: RandomItemSpawnConfig::default(),
        }
    }
}

impl Default for AdminConfig {
    fn default() -> (c: Self)
        ensures
            c.bootstrap_admin_ids@.len() == 0,
    {
        AdminConfig { bootstrap_admin_ids: Vec::new() }
    }
}

impl Default for DatabaseConfig {
    fn default() -> (c: Self)
        ensures
            c.url is None,
    {
        DatabaseConfig { url: None }
    }
}

impl Default for DiscordConfig {
    fn default() -> (c: Self)
        ensures
            !c.enabled,
            c.token is None,
    {
        DiscordConfig { enabled: false, token: None }
    }
}

impl Default for Settings {
    fn default() -> (s: Self)
        ensures
            s.admin.bootstrap_admin_ids@.len() == 0,
            s.database.url is None,
            is_default_events(s.events),
            !s.discord.enabled,
            s.discord.token is None,
    {
        Settings {
            admin: AdminConfig::default(),
            database: DatabaseConfig::default(),
            events: EventsConfig::default(),
            discord: DiscordConfig::default(),
        }
    }
}

impl Settings {
    /// The configured bootstrap admin ids as player ids, in order.
    pub fn bootstrap_admin_player_ids(&self) -> (r: Vec<PlayerId>)
        ensures
            r@.len() == self.admin.bootstrap_admin_ids@.len(),
            forall|i: int|
                0 <= i < r@.len() ==> #[trigger] r@[i] == PlayerId(self.admin.bootstrap_admin_ids@[i]),
    {
        let ids = &self.admin.bootstrap_admin_ids;
        let mut out: Vec<PlayerId> = Vec::new();
        let mut i: usize = 0;
        while i < ids.len()
            invariant
                i <= ids@.len(),
                out@.len() == i,
                forall|j: int| 0 <= j < i ==> #[trigger] out@[j] == PlayerId(ids@[j]),
            decreases ids@.len() - i,
        {
            out.push(PlayerId::new(ids[i]));
            i = i + 1;
        }
        out
    }
}

} // verus!
