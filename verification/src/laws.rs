//! Properties of the game that span several commands.

use vstd::prelude::*;
use crate::command::admin::{permission_denied_spec, refused_unless_admin, AdminAdjustCoinsCommand, AdminSetAdminCommand};
use crate::command::Command;
use crate::command::events::{
    picked, total_weight,
    active_count, claim_spec, maybe_spawn_spec, no_longer_active_spec, trash_spec,
};
use crate::command::shop::buy_spec;
use crate::command::start::{already_in_game_spec, start_spec};
use crate::command::use_item::{cooldown_message_spec, use_fits, use_item_spec};
use crate::command::kinds::shop_price_spec;
use crate::command::{is_refusal, leaderboard_score_spec, untouched};
use crate::cooldown::{day_start, CooldownConfig, MICROS_PER_DAY};
use crate::errors::MrRollerError;
use crate::config::RandomItemSpawnEntry;
use crate::event::{expiry_of, EventId, EventStatus};
use crate::sources::MAX_UTC_MICROS;
use crate::game::{is_bootstrap, may_administer, scores_consistent, Game};
use crate::item::{cursed_value, Item, RollOutcome};
use crate::player::PlayerId;
use crate::response::{Response, ResponseKind};
use crate::store::inventory::{item_at, ItemId};
use crate::store::leaderboard::is_top_scores;
use crate::store::history::{is_recent_uses, uses_of, ItemUseRecord};
use crate::store::leaderboard::Score;
use crate::command::kinds::{admin_keys_spec, admin_kind_of, shop_key_spec, shop_kind_of, AdminItemKind, ShopItemKind};
use crate::text::{is_white_space, key_char, normalize_key_spec, trim_end_spec, trim_spec, trim_start_spec};

verus! {

/// The cooldown ends once midnight UTC has passed since the last roll (with
/// `reset_at_midnight` on) or once `duration` has elapsed.
pub proof fn law_cooldown_ends(config: CooldownConfig, last_roll_at: int, now: int)
    ensures
        config.reset_at_midnight && last_roll_at < day_start(now) ==> !config.on_cooldown(
            last_roll_at,
            now,
        ),
        now - last_roll_at >= config.duration ==> !config.on_cooldown(last_roll_at, now),
{
}

/// After a dice roll, another dice use while the cooldown runs is refused
/// with the cooldown message, and changes nothing.
pub proof fn law_roll_cooldown_blocks_next_roll(
    g0: Game,
    g1: Game,
    g2: Game,
    id: PlayerId,
    first: ItemId,
    second: ItemId,
    t1: i64,
    t2: i64,
    o1: RollOutcome,
    o2: RollOutcome,
    rec1: u128,
    rec2: u128,
    r1: Result<Response, MrRollerError>,
    r2: Result<Response, MrRollerError>,
)
    requires
        use_item_spec(g0, g1, id, first, t1, o1, rec1, r1),
        r1 matches Ok(resp) && resp.kind == ResponseKind::DiceRoll,
        item_at(g1.inventory@, id.0, second) matches Some(item) && item.consumes_daily_roll_spec(),
        g0.cooldown.on_cooldown(t1 as int, t2 as int),
        use_item_spec(g1, g2, id, second, t2, o2, rec2, r2),
    ensures
        untouched(g1, g2),
        r2 matches Ok(resp) && is_refusal(resp, cooldown_message_spec()),
{
}

/// Once the cooldown of a dice roll has ended, the next dice use rolls.
pub proof fn law_roll_allowed_after_cooldown(
    g0: Game,
    g1: Game,
    g2: Game,
    id: PlayerId,
    first: ItemId,
    second: ItemId,
    t1: i64,
    t2: i64,
    o1: RollOutcome,
    o2: RollOutcome,
    rec1: u128,
    rec2: u128,
    r1: Result<Response, MrRollerError>,
    r2: Result<Response, MrRollerError>,
)
    requires
        use_item_spec(g0, g1, id, first, t1, o1, rec1, r1),
        r1 matches Ok(resp) && resp.kind == ResponseKind::DiceRoll,
        item_at(g1.inventory@, id.0, second) matches Some(item) && item.consumes_daily_roll_spec(),
        !g0.cooldown.on_cooldown(t1 as int, t2 as int),
        use_item_spec(g1, g2, id, second, t2, o2, rec2, r2),
    ensures
        r2 matches Ok(resp) && resp.kind == ResponseKind::DiceRoll,
{
}

/// A dice roll earns its score as XP and as coins, starts the cooldown, and
/// the leaderboard shows the new score.
pub proof fn law_roll_earns_its_score(
    g0: Game,
    g1: Game,
    id: PlayerId,
    item_id: ItemId,
    now: i64,
    o: RollOutcome,
    rec: u128,
    r: Result<Response, MrRollerError>,
)
    requires
        use_fits(g0, id, item_id, o),
        use_item_spec(g0, g1, id, item_id, now, o, rec, r),
        r matches Ok(resp) && resp.kind == ResponseKind::DiceRoll,
    ensures
        g0.players@.contains_key(id.0),
        item_at(g0.inventory@, id.0, item_id) matches Some(item) && {
            &&& g1.players@[id.0].xp == g0.players@[id.0].xp + item.rolled(o)
            &&& g1.players@[id.0].coins == g0.players@[id.0].coins + item.rolled(o)
        },
        g1.players@[id.0].last_roll_at == Some(now),
        g1.leaderboard@[id.0] == leaderboard_score_spec(g1.players@[id.0]),
        g1.inventory@ == g0.inventory@,
{
}

/// Using a reroll token consumes it and clears the cooldown: the next dice
/// use, whenever it comes, rolls.
pub proof fn law_reroll_token_clears_cooldown(
    g0: Game,
    g1: Game,
    g2: Game,
    id: PlayerId,
    token: ItemId,
    dice: ItemId,
    t1: i64,
    t2: i64,
    o1: RollOutcome,
    o2: RollOutcome,
    rec1: u128,
    rec2: u128,
    r1: Result<Response, MrRollerError>,
    r2: Result<Response, MrRollerError>,
)
    requires
        g0.players@.contains_key(id.0),
        item_at(g0.inventory@, id.0, token) matches Some(item) && item is RerollToken,
        use_item_spec(g0, g1, id, token, t1, o1, rec1, r1),
        item_at(g1.inventory@, id.0, dice) matches Some(item) && item.consumes_daily_roll_spec(),
        use_item_spec(g1, g2, id, dice, t2, o2, rec2, r2),
    ensures
        g1.players@[id.0].last_roll_at is None,
        item_at(g1.inventory@, id.0, token) is None,
        r2 matches Ok(resp) && resp.kind == ResponseKind::DiceRoll,
{
}

/// A second start of the same player is refused and changes nothing: the
/// starter dice is granted once.
pub proof fn law_start_twice_refused(
    g0: Game,
    g1: Game,
    g2: Game,
    id: PlayerId,
    i1: ItemId,
    i2: ItemId,
    r1: Result<Response, MrRollerError>,
    r2: Result<Response, MrRollerError>,
)
    requires
        start_spec(g0, g1, id, i1, r1),
        start_spec(g1, g2, id, i2, r2),
    ensures
        untouched(g1, g2),
        r2 matches Ok(resp) && is_refusal(resp, already_in_game_spec()),
{
}

/// A configured bootstrap admin is an admin once started.
pub proof fn law_start_makes_bootstrap_admins_admins(
    g0: Game,
    g1: Game,
    id: PlayerId,
    item_id: ItemId,
    r: Result<Response, MrRollerError>,
)
    requires
        start_spec(g0, g1, id, item_id, r),
        is_bootstrap(g0, id),
    ensures
        g1.players@.contains_key(id.0),
        g1.players@[id.0].is_admin,
        g1.players@[id.0].has_started,
{
}

/// The shop sells dice only: no reroll token.
pub proof fn law_shop_sells_no_reroll_token(kind: ShopItemKind, item: Item)
    requires
        kind.sells(item),
    ensures
        !(item is RerollToken),
        item.consumes_daily_roll_spec(),
{
}

/// Buying with enough coins spends exactly the price; the player's other
/// records are left as they were.
pub proof fn law_buy_spends_the_price(
    g0: Game,
    g1: Game,
    id: PlayerId,
    kind: ShopItemKind,
    item_id: ItemId,
    r: Result<Response, MrRollerError>,
)
    requires
        buy_spec(g0, g1, id, kind, item_id, r),
        g0.players@.contains_key(id.0),
        g0.players@[id.0].coins >= shop_price_spec(kind),
    ensures
        g1.players@[id.0].coins + shop_price_spec(kind) == g0.players@[id.0].coins,
        g1.players@[id.0].xp == g0.players@[id.0].xp,
        g1.players@[id.0].last_roll_at == g0.players@[id.0].last_roll_at,
        g1.players@[id.0].is_admin == g0.players@[id.0].is_admin,
        exists|item: Item|
            kind.sells(item) && item_at(g1.inventory@, id.0, item_id) == Some(item),
{
    let item = choose|item: Item|
        kind.sells(item) && g1.inventory@ == crate::command::with_item(
            g0.inventory@,
            id.0,
            item_id,
            item,
        );
    assert(item_at(g1.inventory@, id.0, item_id) == Some(item));
}

/// An admin command from a player without admin rights changes nothing and
/// is answered with an error.
pub proof fn law_admin_commands_need_rights(
    pre: Game,
    post: Game,
    id: PlayerId,
    r: Result<Response, MrRollerError>,
)
    requires
        refused_unless_admin(pre, post, id, r),
        !may_administer(pre, id),
    ensures
        untouched(pre, post),
        match r {
            Ok(resp) => is_refusal(resp, permission_denied_spec()),
            Err(e) => e is PlayerNotFound,
        },
{
}

/// An event is claimed at most once: after a claim, claiming it again is
/// refused and changes nothing.
pub proof fn law_event_claimed_once(
    g0: Game,
    g1: Game,
    g2: Game,
    p1: PlayerId,
    p2: PlayerId,
    event_id: EventId,
    t1: i64,
    t2: i64,
    i1: ItemId,
    i2: ItemId,
    r1: Result<Response, MrRollerError>,
    r2: Result<Response, MrRollerError>,
)
    requires
        claim_spec(g0, g1, p1, event_id, t1, i1, r1),
        r1 matches Ok(resp) && resp.kind == ResponseKind::Event,
        g1.players@.contains_key(p2.0),
        claim_spec(g1, g2, p2, event_id, t2, i2, r2),
    ensures
        untouched(g1, g2),
        r2 matches Ok(resp) && is_refusal(resp, no_longer_active_spec()),
{
}

/// A trashed event can no longer be claimed.
pub proof fn law_trashed_event_cannot_be_claimed(
    g0: Game,
    g1: Game,
    g2: Game,
    p1: PlayerId,
    p2: PlayerId,
    event_id: EventId,
    t1: i64,
    t2: i64,
    item_id: ItemId,
    r1: Result<Response, MrRollerError>,
    r2: Result<Response, MrRollerError>,
)
    requires
        trash_spec(g0, g1, p1, event_id, t1, r1),
        r1 matches Ok(resp) && resp.kind == ResponseKind::Event,
        g1.players@.contains_key(p2.0),
        claim_spec(g1, g2, p2, event_id, t2, item_id, r2),
    ensures
        untouched(g1, g2),
        r2 matches Ok(resp) && is_refusal(resp, no_longer_active_spec()),
{
}

/// A scheduled check never takes the number of active events above the
/// configured limit.
pub proof fn law_spawn_respects_active_limit(
    g0: Game,
    g1: Game,
    chance_hit: bool,
    pick: int,
    event_id: EventId,
    now: i64,
    r: Result<Response, MrRollerError>,
)
    requires
        maybe_spawn_spec(g0, g1, chance_hit, pick, event_id, now, r),
        active_count(g0.events@, now as int) <= g0.event_config.max_active_events,
    ensures
        active_count(g1.events@, now as int) <= g1.event_config.max_active_events,
{
    let m0 = g0.events@;
    let m1 = g1.events@;
    if m1 != m0 {
        let a0 = m0.dom().filter(|k: EventId| m0[k].active_at(now as int));
        let a1 = m1.dom().filter(|k: EventId| m1[k].active_at(now as int));
        g0.events.lemma_finite();
        m0.dom().lemma_len_filter(|k: EventId| m0[k].active_at(now as int));
        assert(m1 == m0.insert(event_id, m1[event_id]));
        assert(a1.subset_of(a0.insert(event_id)));
        vstd::set_lib::lemma_len_subset(a1, a0.insert(event_id));
    }
}

/// A game whose leaderboard is empty has a consistent leaderboard; every
/// command keeps it consistent (see `Command::execute`).
pub proof fn law_empty_leaderboard_consistent(game: Game)
    requires
        game.leaderboard@.dom().len() == 0,
        game.leaderboard@.dom().finite(),
    ensures
        scores_consistent(game),
{
    assert forall|k: u64| !game.leaderboard@.contains_key(k) by {
        if game.leaderboard@.contains_key(k) {
            vstd::set_lib::lemma_set_empty_equivalency_len(game.leaderboard@.dom());
        }
    }
}

proof fn lemma_trim_keeps(s: Seq<char>)
    requires
        s.len() > 0,
        !is_white_space(s[0]),
        !is_white_space(s.last()),
    ensures
        trim_spec(s) == s,
{
}

/// Every key the shop lists is read back by `/buy` as the item listed under
/// it.
pub proof fn law_shop_keys_name_their_items(kind: ShopItemKind)
    ensures
        shop_kind_of(normalize_key_spec(shop_key_spec(kind))) == Some(kind),
{
    reveal_strlit("starter_dice");
    reveal_strlit("regular_dice");
    reveal_strlit("lucky_dice");
    reveal_strlit("cursed_dice");
    reveal_strlit("starter");
    reveal_strlit("regular");
    reveal_strlit("basic");
    reveal_strlit("basic_dice");
    reveal_strlit("lucky");
    reveal_strlit("cursed");
    let key = shop_key_spec(kind);
    lemma_trim_keeps(key);
    assert(key.map_values(|c: char| key_char(c)) =~= key);
}

/// Every key an admin can grant is read back as the item it names.
pub proof fn law_admin_keys_name_their_items(i: int)
    requires
        0 <= i < admin_keys_spec().len(),
    ensures
        admin_kind_of(normalize_key_spec(admin_keys_spec()[i])) == Some(
            seq![
                AdminItemKind::StarterDice,
                AdminItemKind::RegularDice,
                AdminItemKind::LuckyDice,
                AdminItemKind::CursedDice,
                AdminItemKind::RerollToken,
            ][i],
        ),
{
    reveal_strlit("starter_dice");
    reveal_strlit("regular_dice");
    reveal_strlit("lucky_dice");
    reveal_strlit("cursed_dice");
    reveal_strlit("reroll_token");
    reveal_strlit("starter");
    reveal_strlit("regular");
    reveal_strlit("basic");
    reveal_strlit("basic_dice");
    reveal_strlit("lucky");
    reveal_strlit("cursed");
    reveal_strlit("reroll");
    reveal_strlit("token");
    let key = admin_keys_spec()[i];
    lemma_trim_keeps(key);
    assert(key.map_values(|c: char| key_char(c)) =~= key);
}

/// What trimming leaves at the front: nothing, or a character that is not
/// white space; it is a suffix of the text.
proof fn lemma_trim_start_shape(s: Seq<char>)
    ensures
        trim_start_spec(s).len() <= s.len(),
        trim_start_spec(s) == s.skip(s.len() - trim_start_spec(s).len()),
        trim_start_spec(s).len() > 0 ==> !is_white_space(trim_start_spec(s)[0]),
    decreases s.len(),
{
    if s.len() > 0 && is_white_space(s[0]) {
        lemma_trim_start_shape(s.drop_first());
        assert(s.drop_first().skip(s.drop_first().len() - trim_start_spec(s).len()) =~= s.skip(
            s.len() - trim_start_spec(s).len(),
        ));
    } else {
        assert(s.skip(0) =~= s);
    }
}

/// What trimming leaves at the back: nothing, or a character that is not
/// white space; it is a prefix of the text.
proof fn lemma_trim_end_shape(s: Seq<char>)
    ensures
        trim_end_spec(s).len() <= s.len(),
        trim_end_spec(s) == s.take(trim_end_spec(s).len() as int),
        trim_end_spec(s).len() > 0 ==> !is_white_space(trim_end_spec(s).last()),
    decreases s.len(),
{
    if s.len() > 0 && is_white_space(s.last()) {
        lemma_trim_end_shape(s.drop_last());
        assert(s.drop_last().take(trim_end_spec(s).len() as int) =~= s.take(
            trim_end_spec(s).len() as int,
        ));
    } else {
        assert(s.take(s.len() as int) =~= s);
    }
}

/// A trimmed text neither starts nor ends with white space.
proof fn lemma_trim_ends(s: Seq<char>)
    ensures
        trim_spec(s).len() > 0 ==> !is_white_space(trim_spec(s)[0]) && !is_white_space(
            trim_spec(s).last(),
        ),
{
    let u = trim_start_spec(s);
    lemma_trim_start_shape(s);
    lemma_trim_end_shape(u);
    if trim_spec(s).len() > 0 {
        assert(trim_spec(s)[0] == u[0]);
    }
}

/// Reading a name normalises it once: normalising again changes nothing, so
/// `parse` gives the same answer on a name and on its normal form.
pub proof fn law_normalising_names_is_idempotent(s: Seq<char>)
    ensures
        normalize_key_spec(normalize_key_spec(s)) == normalize_key_spec(s),
        shop_kind_of(normalize_key_spec(normalize_key_spec(s))) == shop_kind_of(normalize_key_spec(s)),
        admin_kind_of(normalize_key_spec(normalize_key_spec(s))) == admin_kind_of(
            normalize_key_spec(s),
        ),
{
    let t = trim_spec(s);
    let m = t.map_values(|c: char| key_char(c));
    lemma_trim_ends(s);
    if m.len() > 0 {
        lemma_trim_keeps(m);
    } else {
        assert(m =~= Seq::<char>::empty());
    }
    assert(m.map_values(|c: char| key_char(c)) =~= m);
}

/// The reroll token is not a shop item by any of its names.
pub proof fn law_reroll_token_is_no_shop_name()
    ensures
        shop_kind_of(normalize_key_spec("reroll_token"@)) is None,
        shop_kind_of(normalize_key_spec("reroll"@)) is None,
        shop_kind_of(normalize_key_spec("token"@)) is None,
{
    reveal_strlit("reroll_token");
    reveal_strlit("reroll");
    reveal_strlit("token");
    reveal_strlit("starter_dice");
    reveal_strlit("regular_dice");
    reveal_strlit("lucky_dice");
    reveal_strlit("cursed_dice");
    reveal_strlit("starter");
    reveal_strlit("regular");
    reveal_strlit("basic");
    reveal_strlit("basic_dice");
    reveal_strlit("lucky");
    reveal_strlit("cursed");
    lemma_trim_keeps("reroll_token"@);
    lemma_trim_keeps("reroll"@);
    lemma_trim_keeps("token"@);
    assert("reroll_token"@.map_values(|c: char| key_char(c)) =~= "reroll_token"@);
    assert("reroll"@.map_values(|c: char| key_char(c)) =~= "reroll"@);
    assert("token"@.map_values(|c: char| key_char(c)) =~= "token"@);
}

// ── The rules themselves, stated arithmetically ────────────────────────────

/// Midnight UTC lies between two instants exactly when they fall on different
/// UTC days, days being counted by whole divisions of the epoch.
proof fn lemma_before_day_start(last: int, now: int)
    ensures
        (last < day_start(now)) == (last / (MICROS_PER_DAY as int) < now / (MICROS_PER_DAY as int)),
{
    let d = MICROS_PER_DAY as int;
    vstd::arithmetic::div_mod::lemma_fundamental_div_mod(now, d);
    vstd::arithmetic::div_mod::lemma_fundamental_div_mod(last, d);
    vstd::arithmetic::div_mod::lemma_mod_bound(now, d);
    vstd::arithmetic::div_mod::lemma_mod_bound(last, d);
    let q = now / d;
    let a = last / d;
    assert(day_start(now) == d * q);
    if a < q {
        assert(d * a + d <= d * q) by (nonlinear_arith)
            requires a < q, d > 0;
    } else {
        assert(d * a >= d * q) by (nonlinear_arith)
            requires a >= q, d > 0;
    }
}

/// A player who last rolled at `last_roll_at` is on cooldown at `now` exactly
/// when `now` is less than `duration` after the roll and, with
/// `reset_at_midnight` on, both instants fall on the same UTC day (or the
/// roll on a later one). So a second roll on the same UTC day within the
/// duration is refused, whatever the hour.
pub proof fn law_cooldown_rule(config: CooldownConfig, last_roll_at: int, now: int)
    ensures
        config.on_cooldown(last_roll_at, now) == (!(config.reset_at_midnight && last_roll_at / (
        MICROS_PER_DAY as int) < now / (MICROS_PER_DAY as int)) && now - last_roll_at
            < config.duration),
        last_roll_at / (MICROS_PER_DAY as int) == now / (MICROS_PER_DAY as int) && now
            - last_roll_at < config.duration ==> config.on_cooldown(last_roll_at, now),
{
    lemma_before_day_start(last_roll_at, now);
}

/// A cursed roll of `raw` (1 to 6) scores twice `raw` when the curse lifts;
/// otherwise half of `raw`, rounded down, and at least one.
pub proof fn law_cursed_roll_scores(raw: u32, bonus: bool, item: Item)
    requires
        1 <= raw <= 6,
        item is CursedDice,
    ensures
        bonus ==> cursed_value(raw, bonus) == 2 * raw,
        !bonus && raw >= 2 ==> 2 * cursed_value(raw, bonus) <= raw < 2 * cursed_value(raw, bonus) + 2,
        !bonus && raw < 2 ==> cursed_value(raw, bonus) == 1,
        item.rolled(RollOutcome { raw, bonus }) == cursed_value(raw, bonus),
        item.rolled(RollOutcome { raw, bonus }) == if bonus {
            2 * (raw as int)
        } else if raw < 2 {
            1int
        } else {
            (raw as int) / 2
        },
{
}

/// The grant kind of the same name as a shop kind.
pub open spec fn admin_kind_for(kind: ShopItemKind) -> AdminItemKind {
    match kind {
        ShopItemKind::StarterDice => AdminItemKind::StarterDice,
        ShopItemKind::RegularDice => AdminItemKind::RegularDice,
        ShopItemKind::LuckyDice => AdminItemKind::LuckyDice,
        ShopItemKind::CursedDice => AdminItemKind::CursedDice,
    }
}

/// An admin grant under a key gives the item of that name: the starter dice
/// rolls 1 to 2, the regular dice 1 to 6, the lucky dice 1 to 20, the cursed
/// dice 1 to 6 (halved or doubled), and the reroll token is no roll at all.
pub proof fn law_grants_give_the_named_item(kind: AdminItemKind, item: Item)
    requires
        kind.grants(item),
    ensures
        item.name_spec() == match kind {
            AdminItemKind::StarterDice => "Starter Dice"@,
            AdminItemKind::RegularDice => "Regular Dice"@,
            AdminItemKind::LuckyDice => "Lucky Dice"@,
            AdminItemKind::CursedDice => "Cursed Dice"@,
            AdminItemKind::RerollToken => "Reroll Token"@,
        },
        (kind == AdminItemKind::CursedDice) == (item is CursedDice),
        (kind == AdminItemKind::LuckyDice) == (item is LuckyDice),
        (kind == AdminItemKind::RerollToken) == !item.consumes_daily_roll_spec(),
        kind == AdminItemKind::StarterDice ==> forall|o: RollOutcome|
            #[trigger] item.outcome_fits(o) == (1 <= o.raw <= 2),
        kind == AdminItemKind::RegularDice ==> forall|o: RollOutcome|
            #[trigger] item.outcome_fits(o) == (1 <= o.raw <= 6),
        kind == AdminItemKind::LuckyDice ==> forall|o: RollOutcome|
            #[trigger] item.outcome_fits(o) == (1 <= o.raw <= 20),
        kind == AdminItemKind::CursedDice ==> forall|o: RollOutcome|
            #[trigger] item.outcome_fits(o) == (1 <= o.raw <= 6),
        kind != AdminItemKind::RerollToken ==> forall|o: RollOutcome|
            #[trigger] item.outcome_fits(o) ==> 1 <= item.rolled(o) <= item.max_score(),
{
}

/// The shop sells under each key the item an admin grant of that key gives,
/// and nothing else: the starter dice rolls 1 to 2, the regular dice 1 to 6,
/// the lucky dice 1 to 20, the cursed dice 1 to 6.
pub proof fn law_shop_sells_the_named_item(kind: ShopItemKind, item: Item)
    ensures
        kind.sells(item) == admin_kind_for(kind).grants(item),
        kind.sells(item) ==> item.consumes_daily_roll_spec(),
        kind.sells(item) ==> item.name_spec() == match kind {
            ShopItemKind::StarterDice => "Starter Dice"@,
            ShopItemKind::RegularDice => "Regular Dice"@,
            ShopItemKind::LuckyDice => "Lucky Dice"@,
            ShopItemKind::CursedDice => "Cursed Dice"@,
        },
        kind.sells(item) ==> forall|o: RollOutcome|
            #[trigger] item.outcome_fits(o) == (1 <= o.raw <= match kind {
                ShopItemKind::StarterDice => 2u32,
                ShopItemKind::RegularDice => 6u32,
                ShopItemKind::LuckyDice => 20u32,
                ShopItemKind::CursedDice => 6u32,
            }),
{
    if kind.sells(item) {
        law_grants_give_the_named_item(admin_kind_for(kind), item);
    }
}

/// A purchase that goes through puts in the buyer's inventory, under the new
/// item id, the item of the bought key (see `law_shop_sells_the_named_item`).
pub proof fn law_purchase_gives_the_named_item(
    pre: Game,
    post: Game,
    id: PlayerId,
    kind: ShopItemKind,
    item_id: ItemId,
    r: Result<Response, MrRollerError>,
)
    requires
        buy_spec(pre, post, id, kind, item_id, r),
        pre.players@.contains_key(id.0),
        pre.players@[id.0].coins >= shop_price_spec(kind),
    ensures
        item_at(post.inventory@, id.0, item_id) matches Some(item) && kind.sells(item)
            && admin_kind_for(kind).grants(item),
        post.players@[id.0].coins == pre.players@[id.0].coins - shop_price_spec(kind),
{
    let item = choose|item: Item|
        kind.sells(item) && post.inventory@ == crate::command::with_item(pre.inventory@, id.0, item_id, item);
    law_shop_sells_the_named_item(kind, item);
    assert(item_at(post.inventory@, id.0, item_id) == Some(item));
}

/// Set-admin by an admin on a stored player leaves that player's admin flag
/// equal to the one asked for and the rest of the record as it was; other
/// players are untouched. So a revoked player may no longer use admin
/// commands unless listed as a bootstrap admin, and a granted one may.
pub proof fn law_set_admin_sets_the_flag(
    pre: Game,
    post: Game,
    cmd: AdminSetAdminCommand,
    r: Result<Response, MrRollerError>,
)
    requires
        cmd.outcome(pre, post, r),
        may_administer(pre, cmd.admin_id),
        pre.players@.contains_key(cmd.target_player_id.0),
    ensures
        post.players@.contains_key(cmd.target_player_id.0),
        post.players@[cmd.target_player_id.0].is_admin == cmd.is_admin,
        post.players@[cmd.target_player_id.0].coins == pre.players@[cmd.target_player_id.0].coins,
        post.players@[cmd.target_player_id.0].xp == pre.players@[cmd.target_player_id.0].xp,
        post.players@[cmd.target_player_id.0].id == pre.players@[cmd.target_player_id.0].id,
        forall|k: u64|
            k != cmd.target_player_id.0 ==> post.players@.contains_key(k) == pre.players@.contains_key(k)
                && post.players@[k] == #[trigger] pre.players@[k],
        !cmd.is_admin && !is_bootstrap(post, cmd.target_player_id) ==> !may_administer(
            post,
            cmd.target_player_id,
        ),
        cmd.is_admin ==> may_administer(post, cmd.target_player_id),
        r matches Ok(resp) && resp.kind == ResponseKind::Success,
{
}

/// A basic or lucky dice scores the face it shows; a basic dice's face lies
/// between its least and greatest roll, a lucky dice's between 1 and 20.
pub proof fn law_dice_score_is_the_face(item: Item, o: RollOutcome)
    requires
        item is BasicDice || item is LuckyDice,
        item.outcome_fits(o),
    ensures
        item.rolled(o) == o.raw,
        item matches Item::BasicDice(d) ==> d.min_roll <= item.rolled(o) <= d.max_roll,
        item is LuckyDice ==> 1 <= item.rolled(o) <= 20,
{
}

/// An event made at `now` with a timeout of `timeout_seconds` expires exactly
/// that many seconds later, where that instant is a date in range.
pub proof fn law_event_expires_after_its_timeout(now: int, timeout_seconds: u64)
    requires
        0 <= now,
        timeout_seconds <= 9_223_372_036_854_775,
        now + timeout_seconds * 1_000_000 <= MAX_UTC_MICROS,
    ensures
        expiry_of(now, timeout_seconds) == Some(now + timeout_seconds * 1_000_000),
{
}

/// Total weight of the first `j` entries never decreases with `j`.
proof fn lemma_prefix_weight_grows(entries: Seq<RandomItemSpawnEntry>, i: int, j: int)
    requires
        0 <= i <= j <= entries.len(),
    ensures
        total_weight(entries.take(i)) <= total_weight(entries.take(j)),
    decreases j - i,
{
    if i < j {
        lemma_prefix_weight_grows(entries, i, j - 1);
        assert(entries.take(j).drop_last() =~= entries.take(j - 1));
    }
}

/// The weight of the first `j + 1` entries is that of the first `j` plus
/// entry `j`'s.
proof fn lemma_prefix_weight_step(entries: Seq<RandomItemSpawnEntry>, j: int)
    requires
        0 <= j < entries.len(),
    ensures
        total_weight(entries.take(j + 1)) == total_weight(entries.take(j)) + entries[j].weight,
{
    assert(entries.take(j + 1).drop_last() =~= entries.take(j));
}

/// Some entry holding the draw `pick`, found among the first `n`.
proof fn lemma_pick_lands(entries: Seq<RandomItemSpawnEntry>, pick: int, n: int) -> (j: int)
    requires
        0 <= n <= entries.len(),
        0 <= pick < total_weight(entries.take(n)),
    ensures
        0 <= j < n,
        picked(entries, pick, j),
    decreases n,
{
    lemma_prefix_weight_step(entries, n - 1);
    if pick >= total_weight(entries.take(n - 1)) {
        n - 1
    } else {
        lemma_pick_lands(entries, pick, n - 1)
    }
}

/// A draw below the total weight picks exactly one entry, and that entry has
/// a positive weight: laid end to end, each entry takes as many draws as its
/// weight.
pub proof fn law_weighted_pick_lands_once(entries: Seq<RandomItemSpawnEntry>, pick: int)
    requires
        0 <= pick < total_weight(entries),
    ensures
        exists|j: int| #[trigger] picked(entries, pick, j),
        forall|j: int| #[trigger] picked(entries, pick, j) ==> entries[j].weight > 0,
        forall|j: int, k: int| picked(entries, pick, j) && picked(entries, pick, k) ==> j == k,
        forall|j: int|
            0 <= j < entries.len() ==> (#[trigger] picked(entries, pick, j) <==> total_weight(
                entries.take(j),
            ) <= pick < total_weight(entries.take(j)) + entries[j].weight),
{
    assert(entries.take(entries.len() as int) =~= entries);
    let j0 = lemma_pick_lands(entries, pick, entries.len() as int);
    assert(picked(entries, pick, j0));
    assert forall|j: int| 0 <= j < entries.len() implies (#[trigger] picked(entries, pick, j)
        <==> total_weight(entries.take(j)) <= pick < total_weight(entries.take(j))
        + entries[j].weight) by {
        lemma_prefix_weight_step(entries, j);
    }
    assert forall|j: int| #[trigger] picked(entries, pick, j) implies entries[j].weight > 0 by {
        lemma_prefix_weight_step(entries, j);
    }
    assert forall|j: int, k: int| picked(entries, pick, j) && picked(entries, pick, k) implies j
        == k by {
        if j < k {
            lemma_prefix_weight_grows(entries, j + 1, k);
        } else if k < j {
            lemma_prefix_weight_grows(entries, k + 1, j);
        }
    }
}

/// A claim that passes its checks hands the event's item to the claimer
/// under the new item id, leaves every other inventory and every player
/// record as it was, and marks the event claimed by the claimer. A claim on
/// an event that expired is refused and changes nothing.
pub proof fn law_claim_hands_over_the_item(
    pre: Game,
    post: Game,
    player_id: PlayerId,
    event_id: EventId,
    now: i64,
    item_id: ItemId,
    r: Result<Response, MrRollerError>,
)
    requires
        claim_spec(pre, post, player_id, event_id, now, item_id, r),
        pre.players@.contains_key(player_id.0),
        pre.events@.contains_key(event_id),
    ensures
        pre.events@[event_id].expires_at <= now ==> untouched(pre, post) && (r matches Ok(resp)
            && is_refusal(resp, no_longer_active_spec())),
        pre.events@[event_id].status == EventStatus::Active && now < pre.events@[event_id].expires_at
            ==> {
            &&& item_at(post.inventory@, player_id.0, item_id) == Some(
                pre.events@[event_id].item_spec(),
            )
            &&& forall|k: u64| k != player_id.0 ==> #[trigger] post.inventory@.contains_key(k)
                == pre.inventory@.contains_key(k) && post.inventory@[k] == pre.inventory@[k]
            &&& post.players@ == pre.players@
            &&& post.events@[event_id].status == (EventStatus::Claimed { player_id })
            &&& post.events@[event_id].item_spec() == pre.events@[event_id].item_spec()
            &&& post.events@[event_id].expires_at == pre.events@[event_id].expires_at
        },
{
}

/// A trash that passes its checks gives nobody the item, leaves inventories
/// and players as they were, and marks the event trashed by the player.
pub proof fn law_trash_hands_over_nothing(
    pre: Game,
    post: Game,
    player_id: PlayerId,
    event_id: EventId,
    now: i64,
    r: Result<Response, MrRollerError>,
)
    requires
        trash_spec(pre, post, player_id, event_id, now, r),
        pre.players@.contains_key(player_id.0),
        pre.events@.contains_key(event_id),
        pre.events@[event_id].status == EventStatus::Active,
        now < pre.events@[event_id].expires_at,
    ensures
        post.inventory@ == pre.inventory@,
        post.players@ == pre.players@,
        post.events@[event_id].status == (EventStatus::Trashed { player_id }),
{
}

/// Adjusting coins by an admin adds `amount` to the target's balance (takes
/// it away, if negative), and the leaderboard shows the new balance; taking
/// away more than the target holds is refused and changes nothing.
pub proof fn law_adjust_coins_adds_the_amount(
    pre: Game,
    post: Game,
    cmd: AdminAdjustCoinsCommand,
    r: Result<Response, MrRollerError>,
)
    requires
        cmd.outcome(pre, post, r),
        cmd.runnable(pre),
        may_administer(pre, cmd.admin_id),
        pre.players@.contains_key(cmd.target_player_id.0),
    ensures
        pre.players@[cmd.target_player_id.0].coins + cmd.amount < 0 ==> untouched(pre, post)
            && (r matches Ok(resp) && resp.kind == ResponseKind::Error),
        pre.players@[cmd.target_player_id.0].coins + cmd.amount >= 0 ==> {
            &&& post.players@[cmd.target_player_id.0].coins == pre.players@[cmd.target_player_id.0].coins
                + cmd.amount
            &&& post.players@[cmd.target_player_id.0].xp == pre.players@[cmd.target_player_id.0].xp
            &&& post.players@[cmd.target_player_id.0].is_admin
                == pre.players@[cmd.target_player_id.0].is_admin
            &&& post.leaderboard@[cmd.target_player_id.0].coins == post.players@[cmd.target_player_id.0].coins
            &&& post.inventory@ == pre.inventory@
            &&& r matches Ok(resp) && resp.kind == ResponseKind::Success
        },
{
}

/// A leaderboard answer lists the best first: more XP before less, and at
/// equal XP more coins before fewer; a stored player left off ranks no
/// higher than anyone listed.
pub proof fn law_leaderboard_best_first(v: Seq<(PlayerId, Score)>, m: Map<u64, Score>, limit: int)
    requires
        is_top_scores(v, m, limit),
    ensures
        forall|i: int, j: int|
            0 <= i < j < v.len() ==> #[trigger] v[i].1.xp >= #[trigger] v[j].1.xp && (v[i].1.xp
                == v[j].1.xp ==> v[i].1.coins >= v[j].1.coins),
        forall|k: u64, i: int|
            m.contains_key(k) && 0 <= i < v.len() && (forall|p: int| 0 <= p < v.len() ==> v[p].0.0 != k)
                ==> #[trigger] v[i].1.xp >= #[trigger] m[k].xp,
{
}

/// Every record of one player's uses belongs to that player.
proof fn lemma_uses_of_belong(records: Seq<ItemUseRecord>, player: PlayerId)
    ensures
        forall|i: int| 0 <= i < uses_of(records, player).len() ==> (#[trigger] uses_of(records, player)[i]).player_id == player,
    decreases records.len(),
{
    if records.len() > 0 {
        lemma_uses_of_belong(records.drop_last(), player);
    }
}

/// A history answer holds only the asked player's records, latest first
/// (at the same instant, larger ids first), and as many as asked for or as
/// there are.
pub proof fn law_history_latest_first(
    v: Seq<ItemUseRecord>,
    records: Seq<ItemUseRecord>,
    player: PlayerId,
    limit: int,
)
    requires
        is_recent_uses(v, records, player, limit),
        limit >= 0,
    ensures
        forall|i: int| 0 <= i < v.len() ==> (#[trigger] v[i]).player_id == player,
        forall|i: int, j: int|
            0 <= i < j < v.len() ==> #[trigger] v[i].used_at >= #[trigger] v[j].used_at && (v[i].used_at
                == v[j].used_at ==> v[i].id >= v[j].id),
        v.len() == if limit < uses_of(records, player).len() {
            limit
        } else {
            uses_of(records, player).len() as int
        },
{
    broadcast use vstd::seq_lib::group_to_multiset_ensures;
    let full = choose|full: Seq<ItemUseRecord>|
        {
            &&& full.to_multiset() == uses_of(records, player).to_multiset()
            &&& crate::store::history::newest_first(full)
            &&& v == full.take(if limit < full.len() { limit } else { full.len() as int })
        };
    let u = uses_of(records, player);
    lemma_uses_of_belong(records, player);
    assert(full.len() == u.len()) by {
        assert(full.to_multiset().len() == full.len());
        assert(u.to_multiset().len() == u.len());
    }
    assert forall|i: int| 0 <= i < v.len() implies (#[trigger] v[i]).player_id == player by {
        assert(v[i] == full[i]);
        assert(full.contains(full[i]));
        assert(full.to_multiset().count(full[i]) > 0);
        assert(u.contains(full[i]));
    }
    assert forall|i: int, j: int| 0 <= i < j < v.len() implies #[trigger] v[i].used_at >= #[trigger] v[j].used_at
        && (v[i].used_at == v[j].used_at ==> v[i].id >= v[j].id) by {
        assert(v[i] == full[i] && v[j] == full[j]);
    }
}

} // verus!
