//! The item kinds admins can grant and players can buy, and how their names
//! are read.

use vstd::prelude::*;
use crate::item::{
    is_cursed_dice, is_lucky_dice, is_regular_dice, is_reroll_token, is_starter_dice, BasicDice,
    CursedDice, Item, LuckyDice, RerollToken,
};
use crate::text::{chars_eq_str, join_spec, join_strs, normalize_key, normalize_key_spec, owned, push_str, string_from_chars};

verus! {

// ── Admin grants ───────────────────────────────────────────────────────────

/// Item types that admin commands can grant to players.
#[derive(Debug, Clone, Copy, PartialEq, Eq, Structural)]
pub enum AdminItemKind {
    StarterDice,
    RegularDice,
    LuckyDice,
    CursedDice,
    RerollToken,
}

/// The grantable keys, in order.
pub open spec fn admin_keys_spec() -> Seq<Seq<char>> {
    seq!["starter_dice"@, "regular_dice"@, "lucky_dice"@, "cursed_dice"@, "reroll_token"@]
}

/// The grant kind a normalised name stands for.
pub open spec fn admin_kind_of(key: Seq<char>) -> Option<AdminItemKind> {
    if key == "starter"@ || key == "starter_dice"@ {
        Some(AdminItemKind::StarterDice)
    } else if key == "regular"@ || key == "regular_dice"@ || key == "basic"@ || key == "basic_dice"@ {
        Some(AdminItemKind::RegularDice)
    } else if key == "lucky"@ || key == "lucky_dice"@ {
        Some(AdminItemKind::LuckyDice)
    } else if key == "cursed"@ || key == "cursed_dice"@ {
        Some(AdminItemKind::CursedDice)
    } else if key == "reroll"@ || key == "reroll_token"@ || key == "token"@ {
        Some(AdminItemKind::RerollToken)
    } else {
        None
    }
}

/// The text of the error for an unknown grant name (already normalised).
pub open spec fn unknown_admin_item_message(key: Seq<char>) -> Seq<char> {
    "Unknown item '"@ + key + "'. Available items: "@ + join_spec(admin_keys_spec(), ", "@)
}

impl AdminItemKind {
    pub fn keys() -> (r: Vec<&'static str>)
        ensures
            r@.map_values(|k: &str| k@) == admin_keys_spec(),
    {
        let mut v: Vec<&'static str> = Vec::new();
        v.push("starter_dice");
        v.push("regular_dice");
        v.push("lucky_dice");
        v.push("cursed_dice");
        v.push("reroll_token");
        proof {
            assert(v@.map_values(|k: &str| k@) =~= admin_keys_spec());
        }
        v
    }

    /// Whether `item` is the item this kind grants.
    pub open spec fn grants(self, item: Item) -> bool {
        match self {
            AdminItemKind::StarterDice => is_starter_dice(item),
            AdminItemKind::RegularDice => is_regular_dice(item),
            AdminItemKind::LuckyDice => is_lucky_dice(item),
            AdminItemKind::CursedDice => is_cursed_dice(item),
            AdminItemKind::RerollToken => is_reroll_token(item),
        }
    }

    /// Reads a grant name: trimmed, case-insensitive, `-` read as `_`, with
    /// the short aliases (`starter`, `regular`/`basic`, `lucky`, `cursed`,
    /// `reroll`/`token`).
    pub fn parse(value: &str) -> (r: Result<AdminItemKind, String>)
        ensures
            match admin_kind_of(normalize_key_spec(value@)) {
                Some(kind) => r == Ok::<AdminItemKind, String>(kind),
                None => r matches Err(m) && m@ == unknown_admin_item_message(normalize_key_spec(value@)),
            },
    {
        let key = normalize_key(value);
        if chars_eq_str(&key, "starter") || chars_eq_str(&key, "starter_dice") {
            Ok(AdminItemKind::StarterDice)
        } else if chars_eq_str(&key, "regular") || chars_eq_str(&key, "regular_dice")
            || chars_eq_str(&key, "basic") || chars_eq_str(&key, "basic_dice") {
            Ok(AdminItemKind::RegularDice)
        } else if chars_eq_str(&key, "lucky") || chars_eq_str(&key, "lucky_dice") {
            Ok(AdminItemKind::LuckyDice)
        } else if chars_eq_str(&key, "cursed") || chars_eq_str(&key, "cursed_dice") {
            Ok(AdminItemKind::CursedDice)
        } else if chars_eq_str(&key, "reroll") || chars_eq_str(&key, "reroll_token")
            || chars_eq_str(&key, "token") {
            Ok(AdminItemKind::RerollToken)
        } else {
            let mut message = owned("Unknown item '");
            let shown = string_from_chars(&key);
            push_str(&mut message, shown.as_str());
            push_str(&mut message, "'. Available items: ");
            let keys = AdminItemKind::keys();
            let joined = join_strs(&keys, ", ");
            push_str(&mut message, joined.as_str());
            Err(message)
        }
    }

    /// The item this kind grants.
    pub fn into_item(self) -> (item: Item)
        ensures
            self.grants(item),
    {
        match self {
            AdminItemKind::StarterDice => Item::BasicDice(BasicDice::starter_dice()),
            AdminItemKind::RegularDice => Item::BasicDice(BasicDice::regular_dice()),
            AdminItemKind::LuckyDice => Item::LuckyDice(LuckyDice::new()),
            AdminItemKind::CursedDice => Item::CursedDice(CursedDice::new()),
            AdminItemKind::RerollToken => Item::RerollToken(RerollToken::new()),
        }
    }
}

// ── Shop ───────────────────────────────────────────────────────────────────

/// Item types players can buy from the shop.
#[derive(Debug, Clone, Copy, PartialEq, Eq, Structural)]
pub enum ShopItemKind {
    StarterDice,
    RegularDice,
    LuckyDice,
    CursedDice,
}

/// One line of the shop's catalog.
#[derive(Debug, Clone, Copy)]
pub struct ShopCatalogEntry {
    pub key: &'static str,
    pub item: ShopItemKind,
    pub price: u64,
}

/// The key an item is sold under.
pub open spec fn shop_key_spec(kind: ShopItemKind) -> Seq<char> {
    match kind {
        ShopItemKind::StarterDice => "starter_dice"@,
        ShopItemKind::RegularDice => "regular_dice"@,
        ShopItemKind::LuckyDice => "lucky_dice"@,
        ShopItemKind::CursedDice => "cursed_dice"@,
    }
}

/// The price of an item, in coins.
pub open spec fn shop_price_spec(kind: ShopItemKind) -> u64 {
    match kind {
        ShopItemKind::StarterDice => 5,
        ShopItemKind::RegularDice => 25,
        ShopItemKind::LuckyDice => 100,
        ShopItemKind::CursedDice => 50,
    }
}

/// The order of the catalog.
pub open spec fn shop_kinds_spec() -> Seq<ShopItemKind> {
    seq![
        ShopItemKind::StarterDice,
        ShopItemKind::RegularDice,
        ShopItemKind::LuckyDice,
        ShopItemKind::CursedDice,
    ]
}

pub open spec fn shop_keys_spec() -> Seq<Seq<char>> {
    shop_kinds_spec().map_values(|k: ShopItemKind| shop_key_spec(k))
}

/// Whether `e` is the catalog line of `kind`.
pub open spec fn is_catalog_entry(e: ShopCatalogEntry, kind: ShopItemKind) -> bool {
    e.item == kind && e.key@ == shop_key_spec(kind) && e.price == shop_price_spec(kind)
}

/// The shop name a normalised name stands for.
pub open spec fn shop_kind_of(key: Seq<char>) -> Option<ShopItemKind> {
    if key == "starter"@ || key == "starter_dice"@ {
        Some(ShopItemKind::StarterDice)
    } else if key == "regular"@ || key == "regular_dice"@ || key == "basic"@ || key == "basic_dice"@ {
        Some(ShopItemKind::RegularDice)
    } else if key == "lucky"@ || key == "lucky_dice"@ {
        Some(ShopItemKind::LuckyDice)
    } else if key == "cursed"@ || key == "cursed_dice"@ {
        Some(ShopItemKind::CursedDice)
    } else {
        None
    }
}

pub open spec fn unknown_shop_item_message(key: Seq<char>) -> Seq<char> {
    "Unknown shop item '"@ + key + "'. Available items: "@ + join_spec(shop_keys_spec(), ", "@)
}

/// The shop's catalog, in display order.
pub fn shop_catalog() -> (v: Vec<ShopCatalogEntry>)
    ensures
        v@.len() == 4,
        forall|i: int| 0 <= i < 4 ==> is_catalog_entry(#[trigger] v@[i], shop_kinds_spec()[i]),
{
    let mut v: Vec<ShopCatalogEntry> = Vec::new();
    v.push(ShopCatalogEntry { key: "starter_dice", item: ShopItemKind::StarterDice, price: 5 });
    v.push(ShopCatalogEntry { key: "regular_dice", item: ShopItemKind::RegularDice, price: 25 });
    v.push(ShopCatalogEntry { key: "lucky_dice", item: ShopItemKind::LuckyDice, price: 100 });
    v.push(ShopCatalogEntry { key: "cursed_dice", item: ShopItemKind::CursedDice, price: 50 });
    v
}

impl ShopItemKind {
    /// Whether `item` is the item this kind sells.
    pub open spec fn sells(self, item: Item) -> bool {
        match self {
            ShopItemKind::StarterDice => is_starter_dice(item),
            ShopItemKind::RegularDice => is_regular_dice(item),
            ShopItemKind::LuckyDice => is_lucky_dice(item),
            ShopItemKind::CursedDice => is_cursed_dice(item),
        }
    }

    /// The catalog keys, in catalog order.
    pub fn keys() -> (r: Vec<&'static str>)
        ensures
            r@.map_values(|k: &str| k@) == shop_keys_spec(),
    {
        let catalog = shop_catalog();
        let mut keys: Vec<&'static str> = Vec::new();
        let mut i: usize = 0;
        while i < catalog.len()
            invariant
                i <= 4,
                catalog@.len() == 4,
                forall|j: int| 0 <= j < 4 ==> is_catalog_entry(#[trigger] catalog@[j], shop_kinds_spec()[j]),
                keys@.len() == i,
                forall|j: int| 0 <= j < i ==> #[trigger] keys@[j]@ == shop_keys_spec()[j],
            decreases 4 - i,
        {
            proof {
                assert(is_catalog_entry(catalog@[i as int], shop_kinds_spec()[i as int]));
            }
            keys.push(catalog[i].key);
            i = i + 1;
        }
        proof {
            assert(keys@.map_values(|k: &str| k@) =~= shop_keys_spec());
        }
        keys
    }

    /// This kind's line of the catalog.
    pub fn catalog_entry(&self) -> (e: ShopCatalogEntry)
        ensures
            is_catalog_entry(e, *self),
    {
        let catalog = shop_catalog();
        let mut i: usize = 0;
        while i < catalog.len()
            invariant
                i <= 4,
                catalog@.len() == 4,
                forall|j: int| 0 <= j < 4 ==> is_catalog_entry(#[trigger] catalog@[j], shop_kinds_spec()[j]),
                forall|j: int| 0 <= j < i ==> catalog@[j].item != *self,
            decreases 4 - i,
        {
            if catalog[i].item == *self {
                return catalog[i];
            }
            i = i + 1;
        }
        proof {
            assert(is_catalog_entry(catalog@[0], shop_kinds_spec()[0]));
            assert(is_catalog_entry(catalog@[1], shop_kinds_spec()[1]));
            assert(is_catalog_entry(catalog@[2], shop_kinds_spec()[2]));
            assert(is_catalog_entry(catalog@[3], shop_kinds_spec()[3]));
            assert(false);
        }
        catalog[0]
    }

    /// Reads a shop name: trimmed, case-insensitive, `-` read as `_`, with the
    /// short aliases (`starter`, `regular`/`basic`, `lucky`, `cursed`).
    pub fn parse(value: &str) -> (r: Result<ShopItemKind, String>)
        ensures
            match shop_kind_of(normalize_key_spec(value@)) {
                Some(kind) => r == Ok::<ShopItemKind, String>(kind),
                None => r matches Err(m) && m@ == unknown_shop_item_message(normalize_key_spec(value@)),
            },
    {
        let key = normalize_key(value);
        if chars_eq_str(&key, "starter") || chars_eq_str(&key, "starter_dice") {
            Ok(ShopItemKind::StarterDice)
        } else if chars_eq_str(&key, "regular") || chars_eq_str(&key, "regular_dice")
            || chars_eq_str(&key, "basic") || chars_eq_str(&key, "basic_dice") {
            Ok(ShopItemKind::RegularDice)
        } else if chars_eq_str(&key, "lucky") || chars_eq_str(&key, "lucky_dice") {
            Ok(ShopItemKind::LuckyDice)
        } else if chars_eq_str(&key, "cursed") || chars_eq_str(&key, "cursed_dice") {
            Ok(ShopItemKind::CursedDice)
        } else {
            let mut message = owned("Unknown shop item '");
            let shown = string_from_chars(&key);
            push_str(&mut message, shown.as_str());
            push_str(&mut message, "'. Available items: ");
            let keys = ShopItemKind::keys();
            let joined = join_strs(&keys, ", ");
            push_str(&mut message, joined.as_str());
            Err(message)
        }
    }

    /// The item this kind sells.
    pub fn into_item(self) -> (item: Item)
        ensures
            self.sells(item),
    {
        match self {
            ShopItemKind::StarterDice => Item::BasicDice(BasicDice::starter_dice()),
            ShopItemKind::RegularDice => Item::BasicDice(BasicDice::regular_dice()),
            ShopItemKind::LuckyDice => Item::LuckyDice(LuckyDice::new()),
            ShopItemKind::CursedDice => Item::CursedDice(CursedDice::new()),
        }
    }
}

impl std::str::FromStr for AdminItemKind {
    type Err = String;

    fn from_str(value: &str) -> (r: Result<Self, Self::Err>)
        ensures
            match admin_kind_of(normalize_key_spec(value@)) {
                Some(kind) => r == Ok::<AdminItemKind, String>(kind),
                None => r matches Err(m) && m@ == unknown_admin_item_message(normalize_key_spec(value@)),
            },
    {
        AdminItemKind::parse(value)
    }
}

impl std::str::FromStr for ShopItemKind {
    type Err = String;

    fn from_str(value: &str) -> (r: Result<Self, Self::Err>)
        ensures
            match shop_kind_of(normalize_key_spec(value@)) {
                Some(kind) => r == Ok::<ShopItemKind, String>(kind),
                None => r matches Err(m) && m@ == unknown_shop_item_message(normalize_key_spec(value@)),
            },
    {
        ShopItemKind::parse(value)
    }
}

} // verus!
