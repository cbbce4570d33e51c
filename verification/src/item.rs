//! Items: dice and tokens a player can hold and use.

use vstd::prelude::*;
use crate::response::{Response, ResponseData, ResponseKind};
use crate::sources::{random_in_range, random_ratio};
use crate::text::{decimal, owned, push_decimal, push_str};

verus! {

// ── GameItem — what every item type provides ───────────────────────────────

/// The contract every item type fulfils.
pub trait GameItem {
    /// Whether `handle` can run on this item (a dice needs a non-empty range).
    spec fn can_handle(&self) -> bool;

    fn name(&self) -> &str;

    fn description(&self) -> &str;

    /// Activates the item and returns the result.
    fn handle(&self) -> Response
        requires
            self.can_handle(),
    ;

    /// Whether using this item consumes the player's daily roll allowance.
    /// Dice consume the daily roll by default. Utility items like reroll tokens
    /// override this to reset cooldown behaviour.
    fn consumes_daily_roll(&self) -> (b: bool)
        default_ensures
            b,
    {
        true
    }
}

/// The random draws an item use may need: the raw roll and, for the cursed
/// dice, whether the curse lifted.
#[derive(Debug, Clone, Copy, PartialEq, Eq, Structural)]
pub struct RollOutcome {
    pub raw: u32,
    pub bonus: bool,
}

// ── Basic dice ─────────────────────────────────────────────────────────────

#[derive(Debug)]
pub struct BasicDice {
    pub name: String,
    pub description: String,
    pub min_roll: u32,
    pub max_roll: u32,
}

impl Clone for BasicDice {
    fn clone(&self) -> (r: Self)
        ensures
            r == *self,
    {
        BasicDice {
            name: self.name.clone(),
            description: self.description.clone(),
            min_roll: self.min_roll,
            max_roll: self.max_roll,
        }
    }
}

pub open spec fn basic_roll_message(roll: u32) -> Seq<char> {
    "You rolled a "@ + decimal(roll as nat) + "!"@
}

impl BasicDice {
    pub fn regular_dice() -> (d: BasicDice)
        ensures
            d.name@ == "Regular Dice"@,
            d.description@ == "A regular dice with 6 sides"@,
            d.min_roll == 1,
            d.max_roll == 6,
    {
        BasicDice {
            name: owned("Regular Dice"),
            description: owned("A regular dice with 6 sides"),
            min_roll: 1,
            max_roll: 6,
        }
    }

    pub fn starter_dice() -> (d: BasicDice)
        ensures
            d.name@ == "Starter Dice"@,
            d.description@ == "A dice with only 2 sides. dice or coin?"@,
            d.min_roll == 1,
            d.max_roll == 2,
    {
        BasicDice {
            name: owned("Starter Dice"),
            description: owned("A dice with only 2 sides. dice or coin?"),
            min_roll: 1,
            max_roll: 2,
        }
    }

    /// The response of a roll of `roll`.
    pub fn roll_response(&self, roll: u32) -> (r: Response)
        ensures
            r.kind == ResponseKind::DiceRoll,
            r.message@ == basic_roll_message(roll),
            r.data == Some(ResponseData::Roll(roll)),
    {
        let mut message = owned("You rolled a ");
        push_decimal(&mut message, roll as u64);
        push_str(&mut message, "!");
        Response::dice_roll(message, roll)
    }

    /// `"{name}: {description}"`, the item's display form.
    pub fn display(&self) -> (s: String)
        ensures
            s@ == self.name@ + ": "@ + self.description@,
    {
        let mut s = self.name.clone();
        push_str(&mut s, ": ");
        push_str(&mut s, self.description.as_str());
        s
    }
}

impl GameItem for BasicDice {
    open spec fn can_handle(&self) -> bool {
        self.min_roll <= self.max_roll
    }

    fn name(&self) -> (s: &str)
        ensures
            s@ == self.name@,
    {
        self.name.as_str()
    }

    fn description(&self) -> (s: &str)
        ensures
            s@ == self.description@,
    {
        self.description.as_str()
    }

    /// Rolls a value uniformly in `min_roll..=max_roll`.
    fn handle(&self) -> (r: Response)
        ensures
            exists|roll: u32|
                {
                    &&& self.min_roll <= roll <= self.max_roll
                    &&& r.message@ == basic_roll_message(roll)
                    &&& r.data == Some(ResponseData::Roll(roll))
                },
            r.kind == ResponseKind::DiceRoll,
    {
        let roll = random_in_range(self.min_roll, self.max_roll);
        self.roll_response(roll)
    }
}

// ── Lucky dice ─────────────────────────────────────────────────────────────

#[derive(Debug)]
pub struct LuckyDice {
    pub name: String,
    pub description: String,
}

impl Clone for LuckyDice {
    fn clone(&self) -> (r: Self)
        ensures
            r == *self,
    {
        LuckyDice { name: self.name.clone(), description: self.description.clone() }
    }
}

pub open spec fn lucky_roll_message(roll: u32) -> Seq<char> {
    if roll == 20 {
        "🎉 NAT 20! Maximum luck!"@
    } else if roll == 1 {
        "💀 Critical fail... better luck next time."@
    } else {
        "You rolled a "@ + decimal(roll as nat) + " on the Lucky Dice!"@
    }
}

impl LuckyDice {
    pub fn new() -> (d: LuckyDice)
        ensures
            d.name@ == "Lucky Dice"@,
            d.description@ == "A 20-sided dice. High risk, high reward!"@,
    {
        LuckyDice {
            name: owned("Lucky Dice"),
            description: owned("A 20-sided dice. High risk, high reward!"),
        }
    }

    /// The response of a roll of `roll` on the 20-sided dice.
    pub fn roll_response(&self, roll: u32) -> (r: Response)
        ensures
            r.kind == ResponseKind::DiceRoll,
            r.message@ == lucky_roll_message(roll),
            r.data == Some(ResponseData::Roll(roll)),
    {
        if roll == 20 {
            Response::dice_roll(owned("🎉 NAT 20! Maximum luck!"), roll)
        } else if roll == 1 {
            Response::dice_roll(owned("💀 Critical fail... better luck next time."), roll)
        } else {
            let mut message = owned("You rolled a ");
            push_decimal(&mut message, roll as u64);
            push_str(&mut message, " on the Lucky Dice!");
            Response::dice_roll(message, roll)
        }
    }
}

impl GameItem for LuckyDice {
    open spec fn can_handle(&self) -> bool {
        true
    }

    fn name(&self) -> (s: &str)
        ensures
            s@ == self.name@,
    {
        self.name.as_str()
    }

    fn description(&self) -> (s: &str)
        ensures
            s@ == self.description@,
    {
        self.description.as_str()
    }

    /// Rolls a value uniformly in `1..=20`.
    fn handle(&self) -> (r: Response)
        ensures
            exists|roll: u32|
                {
                    &&& 1 <= roll <= 20
                    &&& r.message@ == lucky_roll_message(roll)
                    &&& r.data == Some(ResponseData::Roll(roll))
                },
            r.kind == ResponseKind::DiceRoll,
    {
        let roll = random_in_range(1, 20);
        self.roll_response(roll)
    }
}

// ── Cursed dice ────────────────────────────────────────────────────────────

#[derive(Debug)]
pub struct CursedDice {
    pub name: String,
    pub description: String,
}

impl Clone for CursedDice {
    fn clone(&self) -> (r: Self)
        ensures
            r == *self,
    {
        CursedDice { name: self.name.clone(), description: self.description.clone() }
    }
}

/// The value a cursed roll scores: doubled when the curse lifts, otherwise
/// halved (rounding down) but never below one.
pub open spec fn cursed_value(raw: u32, bonus: bool) -> u32 {
    if bonus {
        (raw * 2) as u32
    } else if raw / 2 < 1 {
        1
    } else {
        raw / 2
    }
}

pub open spec fn cursed_roll_message(raw: u32, bonus: bool) -> Seq<char> {
    if bonus {
        "✨ The curse lifted! You rolled "@ + decimal(cursed_value(raw, bonus) as nat)
            + " (doubled!)"@
    } else {
        "👻 Cursed! You rolled "@ + decimal(cursed_value(raw, bonus) as nat) + " (halved from "@
            + decimal(raw as nat) + ")"@
    }
}

impl CursedDice {
    pub fn new() -> (d: CursedDice)
        ensures
            d.name@ == "Cursed Dice"@,
            d.description@ == "A hexed dice. Rolls are halved but you might get a bonus."@,
    {
        CursedDice {
            name: owned("Cursed Dice"),
            description: owned("A hexed dice. Rolls are halved but you might get a bonus."),
        }
    }

    /// The response of a raw roll of `raw` (1 to 6), with the curse lifted or not.
    pub fn roll_response(&self, raw: u32, bonus: bool) -> (r: Response)
        requires
            1 <= raw <= 6,
        ensures
            r.kind == ResponseKind::DiceRoll,
            r.message@ == cursed_roll_message(raw, bonus),
            r.data == Some(ResponseData::Roll(cursed_value(raw, bonus))),
    {
        if bonus {
            let doubled = raw * 2;
            let mut message = owned("✨ The curse lifted! You rolled ");
            push_decimal(&mut message, doubled as u64);
            push_str(&mut message, " (doubled!)");
            Response::dice_roll(message, doubled)
        } else {
            let halved = if raw / 2 < 1 {
                1
            } else {
                raw / 2
            };
            let mut message = owned("👻 Cursed! You rolled ");
            push_decimal(&mut message, halved as u64);
            push_str(&mut message, " (halved from ");
            push_decimal(&mut message, raw as u64);
            push_str(&mut message, ")");
            Response::dice_roll(message, halved)
        }
    }
}

impl GameItem for CursedDice {
    open spec fn can_handle(&self) -> bool {
        true
    }

    fn name(&self) -> (s: &str)
        ensures
            s@ == self.name@,
    {
        self.name.as_str()
    }

    fn description(&self) -> (s: &str)
        ensures
            s@ == self.description@,
    {
        self.description.as_str()
    }

    /// Rolls 1 to 6; with probability 1/4 the curse lifts and the roll doubles,
    /// otherwise it is halved.
    fn handle(&self) -> (r: Response)
        ensures
            exists|raw: u32, bonus: bool|
                {
                    &&& 1 <= raw <= 6
                    &&& r.message@ == cursed_roll_message(raw, bonus)
                    &&& r.data == Some(ResponseData::Roll(cursed_value(raw, bonus)))
                },
            r.kind == ResponseKind::DiceRoll,
    {
        let raw = random_in_range(1, 6);
        let bonus = random_ratio(1, 4);
        self.roll_response(raw, bonus)
    }
}

// ── Reroll token ───────────────────────────────────────────────────────────

#[derive(Debug)]
pub struct RerollToken {
    pub name: String,
    pub description: String,
    pub amount: u32,
}

impl Clone for RerollToken {
    fn clone(&self) -> (r: Self)
        ensures
            r == *self,
    {
        RerollToken {
            name: self.name.clone(),
            description: self.description.clone(),
            amount: self.amount,
        }
    }
}

pub open spec fn reroll_message() -> Seq<char> {
    "Reroll token used — your roll cooldown has been reset."@
}

impl RerollToken {
    pub fn new() -> (t: RerollToken)
        ensures
            t.name@ == "Reroll Token"@,
            t.description@ == "A token that allows you to reroll a dice"@,
            t.amount == 1,
    {
        RerollToken {
            name: owned("Reroll Token"),
            description: owned("A token that allows you to reroll a dice"),
            amount: 1,
        }
    }

    /// `"{name}: {description}"`, the item's display form.
    pub fn display(&self) -> (s: String)
        ensures
            s@ == self.name@ + ": "@ + self.description@,
    {
        let mut s = self.name.clone();
        push_str(&mut s, ": ");
        push_str(&mut s, self.description.as_str());
        s
    }
}

impl GameItem for RerollToken {
    open spec fn can_handle(&self) -> bool {
        true
    }

    fn name(&self) -> (s: &str)
        ensures
            s@ == self.name@,
    {
        self.name.as_str()
    }

    fn description(&self) -> (s: &str)
        ensures
            s@ == self.description@,
    {
        self.description.as_str()
    }

    fn handle(&self) -> (r: Response)
        ensures
            r.kind == ResponseKind::Success,
            r.message@ == reroll_message(),
            r.data is None,
    {
        Response::success(owned("Reroll token used — your roll cooldown has been reset."))
    }

    fn consumes_daily_roll(&self) -> (b: bool)
        ensures
            !b,
    {
        false
    }
}

// ── Item — every item a player can hold ────────────────────────────────────

#[derive(Debug)]
pub enum Item {
    BasicDice(BasicDice),
    LuckyDice(LuckyDice),
    CursedDice(CursedDice),
    RerollToken(RerollToken),
}

impl Clone for Item {
    fn clone(&self) -> (r: Self)
        ensures
            r == *self,
    {
        match self {
            Item::BasicDice(d) => Item::BasicDice(d.clone()),
            Item::LuckyDice(d) => Item::LuckyDice(d.clone()),
            Item::CursedDice(d) => Item::CursedDice(d.clone()),
            Item::RerollToken(t) => Item::RerollToken(t.clone()),
        }
    }
}

impl Item {
    pub open spec fn name_spec(&self) -> Seq<char> {
        match self {
            Item::BasicDice(d) => d.name@,
            Item::LuckyDice(d) => d.name@,
            Item::CursedDice(d) => d.name@,
            Item::RerollToken(t) => t.name@,
        }
    }

    pub open spec fn description_spec(&self) -> Seq<char> {
        match self {
            Item::BasicDice(d) => d.description@,
            Item::LuckyDice(d) => d.description@,
            Item::CursedDice(d) => d.description@,
            Item::RerollToken(t) => t.description@,
        }
    }

    /// Whether using the item consumes the daily roll (every dice does).
    pub open spec fn consumes_daily_roll_spec(&self) -> bool {
        !(self is RerollToken)
    }

    /// Whether the item can be used (a basic dice needs `min_roll <= max_roll`).
    pub open spec fn can_handle_spec(&self) -> bool {
        match self {
            Item::BasicDice(d) => d.min_roll <= d.max_roll,
            _ => true,
        }
    }

    /// Whether `o` is a draw the item's use can produce.
    pub open spec fn outcome_fits(&self, o: RollOutcome) -> bool {
        match self {
            Item::BasicDice(d) => d.min_roll <= o.raw <= d.max_roll,
            Item::LuckyDice(_) => 1 <= o.raw <= 20,
            Item::CursedDice(_) => 1 <= o.raw <= 6,
            Item::RerollToken(_) => true,
        }
    }

    /// The kind of response using the item gives.
    pub open spec fn use_kind(&self) -> ResponseKind {
        match self {
            Item::RerollToken(_) => ResponseKind::Success,
            _ => ResponseKind::DiceRoll,
        }
    }

    /// The value a dice use scores with the draw `o`.
    pub open spec fn rolled(&self, o: RollOutcome) -> u32 {
        match self {
            Item::CursedDice(_) => cursed_value(o.raw, o.bonus),
            Item::RerollToken(_) => 0,
            _ => o.raw,
        }
    }

    /// The largest value a dice use can score.
    pub open spec fn max_score(&self) -> u32 {
        match self {
            Item::BasicDice(d) => d.max_roll,
            Item::LuckyDice(_) => 20,
            Item::CursedDice(_) => 12,
            Item::RerollToken(_) => 0,
        }
    }

    /// The message using the item gives with the draw `o`.
    pub open spec fn use_message(&self, o: RollOutcome) -> Seq<char> {
        match self {
            Item::BasicDice(_) => basic_roll_message(o.raw),
            Item::LuckyDice(_) => lucky_roll_message(o.raw),
            Item::CursedDice(_) => cursed_roll_message(o.raw, o.bonus),
            Item::RerollToken(_) => reroll_message(),
        }
    }

    /// The payload using the item gives with the draw `o`.
    pub open spec fn use_data(&self, o: RollOutcome) -> Option<ResponseData> {
        match self {
            Item::RerollToken(_) => None,
            _ => Some(ResponseData::Roll(self.rolled(o))),
        }
    }

    /// Whether `r` is the response of using the item with the draw `o`.
    pub open spec fn is_use_response(&self, o: RollOutcome, r: Response) -> bool {
        &&& r.kind == self.use_kind()
        &&& r.message@ == self.use_message(o)
        &&& r.data == self.use_data(o)
    }

    /// A use never scores more than `max_score`.
    pub proof fn lemma_rolled_bounded(&self, o: RollOutcome)
        requires
            self.outcome_fits(o),
        ensures
            self.rolled(o) <= self.max_score(),
    {
    }

    /// The largest value a use can score.
    pub fn max_roll_score(&self) -> (m: u32)
        ensures
            m == self.max_score(),
    {
        match self {
            Item::BasicDice(d) => d.max_roll,
            Item::LuckyDice(_) => 20,
            Item::CursedDice(_) => 12,
            Item::RerollToken(_) => 0,
        }
    }

    /// Whether the item can be used (a basic dice needs a non-empty range).
    pub fn can_be_used(&self) -> (b: bool)
        ensures
            b == self.can_handle_spec(),
    {
        match self {
            Item::BasicDice(d) => d.min_roll <= d.max_roll,
            _ => true,
        }
    }

    /// Returns `Some` if this item is a basic dice.
    pub fn basic_dice(self) -> (r: Option<BasicDice>)
        ensures
            r == (match self {
                Item::BasicDice(d) => Some(d),
                _ => None,
            }),
    {
        match self {
            Item::BasicDice(d) => Some(d),
            _ => None,
        }
    }

    /// Returns `Some` if this item is a lucky dice.
    pub fn lucky_dice(self) -> (r: Option<LuckyDice>)
        ensures
            r == (match self {
                Item::LuckyDice(d) => Some(d),
                _ => None,
            }),
    {
        match self {
            Item::LuckyDice(d) => Some(d),
            _ => None,
        }
    }

    /// Returns `Some` if this item is a cursed dice.
    pub fn cursed_dice(self) -> (r: Option<CursedDice>)
        ensures
            r == (match self {
                Item::CursedDice(d) => Some(d),
                _ => None,
            }),
    {
        match self {
            Item::CursedDice(d) => Some(d),
            _ => None,
        }
    }

    /// Returns `Some` if this item is a reroll token.
    pub fn reroll_token(self) -> (r: Option<RerollToken>)
        ensures
            r == (match self {
                Item::RerollToken(t) => Some(t),
                _ => None,
            }),
    {
        match self {
            Item::RerollToken(t) => Some(t),
            _ => None,
        }
    }

    /// Returns the human-readable name of the item.
    pub fn name(&self) -> (s: &str)
        ensures
            s@ == self.name_spec(),
    {
        match self {
            Item::BasicDice(d) => GameItem::name(d),
            Item::LuckyDice(d) => GameItem::name(d),
            Item::CursedDice(d) => GameItem::name(d),
            Item::RerollToken(t) => GameItem::name(t),
        }
    }

    /// Returns a short description of the item.
    pub fn description(&self) -> (s: &str)
        ensures
            s@ == self.description_spec(),
    {
        match self {
            Item::BasicDice(d) => GameItem::description(d),
            Item::LuckyDice(d) => GameItem::description(d),
            Item::CursedDice(d) => GameItem::description(d),
            Item::RerollToken(t) => GameItem::description(t),
        }
    }

    /// Returns whether this item consumes the daily roll allowance.
    pub fn consumes_daily_roll(&self) -> (b: bool)
        ensures
            b == self.consumes_daily_roll_spec(),
    {
        match self {
            Item::BasicDice(d) => GameItem::consumes_daily_roll(d),
            Item::LuckyDice(d) => GameItem::consumes_daily_roll(d),
            Item::CursedDice(d) => GameItem::consumes_daily_roll(d),
            Item::RerollToken(t) => GameItem::consumes_daily_roll(t),
        }
    }

    /// Draws what using the item needs at random: one roll of the dice's range,
    /// and for the cursed dice also whether the curse lifts (chance 1/4).
    pub fn draw_outcome(&self) -> (o: RollOutcome)
        requires
            self.can_handle_spec(),
        ensures
            self.outcome_fits(o),
    {
        match self {
            Item::BasicDice(d) => RollOutcome { raw: random_in_range(d.min_roll, d.max_roll), bonus: false },
            Item::LuckyDice(_) => RollOutcome { raw: random_in_range(1, 20), bonus: false },
            Item::CursedDice(_) => {
                let raw = random_in_range(1, 6);
                let bonus = random_ratio(1, 4);
                RollOutcome { raw, bonus }
            },
            Item::RerollToken(_) => RollOutcome { raw: 0, bonus: false },
        }
    }

    /// The response of using the item with the draw `o`.
    pub fn handle_with(&self, o: RollOutcome) -> (r: Response)
        requires
            self.outcome_fits(o),
        ensures
            self.is_use_response(o, r),
    {
        match self {
            Item::BasicDice(d) => d.roll_response(o.raw),
            Item::LuckyDice(d) => d.roll_response(o.raw),
            Item::CursedDice(d) => d.roll_response(o.raw, o.bonus),
            Item::RerollToken(t) => t.handle(),
        }
    }

    /// Activates the item and returns the result.
    pub fn handle(&self) -> (r: Response)
        requires
            self.can_handle_spec(),
        ensures
            exists|o: RollOutcome| self.outcome_fits(o) && self.is_use_response(o, r),
    {
        let o = self.draw_outcome();
        self.handle_with(o)
    }
}

impl Default for LuckyDice {
    fn default() -> (d: Self)
        ensures
            d.name@ == "Lucky Dice"@,
            d.description@ == "A 20-sided dice. High risk, high reward!"@,
    {
        LuckyDice::new()
    }
}

impl Default for CursedDice {
    fn default() -> (d: Self)
        ensures
            d.name@ == "Cursed Dice"@,
            d.description@ == "A hexed dice. Rolls are halved but you might get a bonus."@,
    {
        CursedDice::new()
    }
}

impl Default for RerollToken {
    fn default() -> (t: Self)
        ensures
            t.name@ == "Reroll Token"@,
            t.description@ == "A token that allows you to reroll a dice"@,
            t.amount == 1,
    {
        RerollToken::new()
    }
}

impl From<BasicDice> for Item {
    fn from(v: BasicDice) -> (r: Item) {
        Item::BasicDice(v)
    }
}

impl vstd::std_specs::convert::FromSpecImpl<BasicDice> for Item {
    open spec fn obeys_from_spec() -> bool {
        true
    }

    open spec fn from_spec(v: BasicDice) -> Item {
        Item::BasicDice(v)
    }
}

impl From<LuckyDice> for Item {
    fn from(v: LuckyDice) -> (r: Item) {
        Item::LuckyDice(v)
    }
}

impl vstd::std_specs::convert::FromSpecImpl<LuckyDice> for Item {
    open spec fn obeys_from_spec() -> bool {
        true
    }

    open spec fn from_spec(v: LuckyDice) -> Item {
        Item::LuckyDice(v)
    }
}

impl From<CursedDice> for Item {
    fn from(v: CursedDice) -> (r: Item) {
        Item::CursedDice(v)
    }
}

impl vstd::std_specs::convert::FromSpecImpl<CursedDice> for Item {
    open spec fn obeys_from_spec() -> bool {
        true
    }

    open spec fn from_spec(v: CursedDice) -> Item {
        Item::CursedDice(v)
    }
}

impl From<RerollToken> for Item {
    fn from(v: RerollToken) -> (r: Item) {
        Item::RerollToken(v)
    }
}

impl vstd::std_specs::convert::FromSpecImpl<RerollToken> for Item {
    open spec fn obeys_from_spec() -> bool {
        true
    }

    open spec fn from_spec(v: RerollToken) -> Item {
        Item::RerollToken(v)
    }
}

/// The starter dice: two sides.
pub open spec fn is_starter_dice(item: Item) -> bool {
    item matches Item::BasicDice(d) && d.name@ == "Starter Dice"@ && d.description@
        == "A dice with only 2 sides. dice or coin?"@ && d.min_roll == 1 && d.max_roll == 2
}

/// The regular six-sided dice.
pub open spec fn is_regular_dice(item: Item) -> bool {
    item matches Item::BasicDice(d) && d.name@ == "Regular Dice"@ && d.description@
        == "A regular dice with 6 sides"@ && d.min_roll == 1 && d.max_roll == 6
}

pub open spec fn is_lucky_dice(item: Item) -> bool {
    item matches Item::LuckyDice(d) && d.name@ == "Lucky Dice"@ && d.description@
        == "A 20-sided dice. High risk, high reward!"@
}

pub open spec fn is_cursed_dice(item: Item) -> bool {
    item matches Item::CursedDice(d) && d.name@ == "Cursed Dice"@ && d.description@
        == "A hexed dice. Rolls are halved but you might get a bonus."@
}

pub open spec fn is_reroll_token(item: Item) -> bool {
    item matches Item::RerollToken(t) && t.name@ == "Reroll Token"@ && t.description@
        == "A token that allows you to reroll a dice"@ && t.amount == 1
}

/// The key an item kind is recorded under.
pub open spec fn item_kind_spec(item: Item) -> Seq<char> {
    match item {
        Item::BasicDice(_) => "basic_dice"@,
        Item::LuckyDice(_) => "lucky_dice"@,
        Item::CursedDice(_) => "cursed_dice"@,
        Item::RerollToken(_) => "reroll_token"@,
    }
}

pub fn item_kind(item: &Item) -> (s: &'static str)
    ensures
        s@ == item_kind_spec(*item),
{
    match item {
        Item::BasicDice(_) => "basic_dice",
        Item::LuckyDice(_) => "lucky_dice",
        Item::CursedDice(_) => "cursed_dice",
        Item::RerollToken(_) => "reroll_token",
    }
}

} // verus!
