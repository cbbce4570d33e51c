//! The dice-roll cooldown rule.

use vstd::prelude::*;

verus! {

/// Microseconds in one hour.
pub const MICROS_PER_HOUR: i64 = 3_600_000_000;

/// Microseconds in one day.
pub const MICROS_PER_DAY: i64 = 86_400_000_000;

/// Configures the dice-roll cooldown behaviour. Instants and durations are
/// counted in microseconds, instants since the Unix epoch (UTC).
#[derive(Debug, Clone, Copy, PartialEq, Eq, Structural)]
pub struct CooldownConfig {
    /// Minimum time that must pass between dice rolls.
    pub duration: i64,
    /// If true, the cooldown always resets at midnight UTC regardless of
    /// elapsed duration. With this enabled a player who rolls at 23:00 can
    /// roll again at 00:00.
    pub reset_at_midnight: bool,
}

/// Midnight UTC at the start of the day holding the instant `t`.
pub open spec fn day_start(t: int) -> int {
    t - t % (MICROS_PER_DAY as int)
}

impl CooldownConfig {
    /// The default: 24 hours, reset at midnight UTC.
    pub open spec fn default_spec() -> CooldownConfig {
        CooldownConfig { duration: 86_400_000_000, reset_at_midnight: true }
    }

    /// A player is on cooldown unless midnight has passed since their last roll
    /// (when `reset_at_midnight` is on) or `duration` has elapsed since it.
    pub open spec fn on_cooldown(&self, last_roll_at: int, now: int) -> bool {
        if self.reset_at_midnight && last_roll_at < day_start(now) {
            false
        } else {
            now - last_roll_at < self.duration
        }
    }

    /// Returns `true` if the player is still on cooldown.
    ///
    /// A player passes the cooldown check if **either**:
    /// - midnight has passed since their last roll (and `reset_at_midnight` is on), OR
    /// - the configured `duration` has elapsed since their last roll.
    pub fn is_on_cooldown(&self, last_roll_at: i64, now: i64) -> (r: bool)
        ensures
            r == self.on_cooldown(last_roll_at as int, now as int),
    {
        if self.reset_at_midnight {
            let into_day: i64 = match now.checked_rem_euclid(MICROS_PER_DAY) {
                Some(v) => v,
                None => 0,
            };
            let today_midnight: i128 = now as i128 - into_day as i128;
            if (last_roll_at as i128) < today_midnight {
                return false;
            }
        }
        (now as i128) - (last_roll_at as i128) < self.duration as i128
    }

    /// Convenience: returns `true` if the player has never rolled.
    pub fn is_first_roll(&self, last_roll_at: Option<i64>) -> (r: bool)
        ensures
            r == (last_roll_at is None),
    {
        last_roll_at.is_none()
    }
}

impl Default for CooldownConfig {
    fn default() -> (c: Self)
        ensures
            c == CooldownConfig::default_spec(),
    {
        CooldownConfig { duration: 24 * MICROS_PER_HOUR, reset_at_midnight: true }
    }
}

} // verus!
