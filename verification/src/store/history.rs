//! The record of item uses.

use vstd::prelude::*;
use crate::errors::MrRollerError;
use crate::item::Item;
use crate::player::PlayerId;
use crate::sources::new_uuid;
use crate::store::inventory::ItemId;

verus! {

broadcast use vstd::seq_lib::group_to_multiset_ensures;

/// One use of an item. `used_at` is in microseconds since the Unix epoch.
#[derive(Debug)]
pub struct ItemUseRecord {
    pub id: u128,
    pub player_id: PlayerId,
    pub item_id: ItemId,
    pub item_name: String,
    pub item_kind: String,
    /// The item as it was when used.
    pub item: Item,
    pub response_kind: String,
    pub roll: Option<u64>,
    pub used_at: i64,
}

impl Clone for ItemUseRecord {
    fn clone(&self) -> (r: Self)
        ensures
            r == *self,
    {
        ItemUseRecord {
            id: self.id,
            player_id: self.player_id,
            item_id: self.item_id,
            item_name: self.item_name.clone(),
            item_kind: self.item_kind.clone(),
            item: self.item.clone(),
            response_kind: self.response_kind.clone(),
            roll: self.roll,
            used_at: self.used_at,
        }
    }
}

impl ItemUseRecord {
    /// A record under the given id.
    pub fn new_with_id(
        id: u128,
        player_id: PlayerId,
        item_id: ItemId,
        item_name: String,
        item_kind: String,
        item: Item,
        response_kind: String,
        roll: Option<u64>,
        used_at: i64,
    ) -> (r: ItemUseRecord)
        ensures
            r == (ItemUseRecord {
                id,
                player_id,
                item_id,
                item_name,
                item_kind,
                item,
                response_kind,
                roll,
                used_at,
            }),
    {
        ItemUseRecord {
            id,
            player_id,
            item_id,
            item_name,
            item_kind,
            item,
            response_kind,
            roll,
            used_at,
        }
    }

    /// A record under a fresh id.
    pub fn new(
        player_id: PlayerId,
        item_id: ItemId,
        item_name: String,
        item_kind: String,
        item: Item,
        response_kind: String,
        roll: Option<u64>,
        used_at: i64,
    ) -> (r: ItemUseRecord)
        ensures
            r.player_id == player_id,
            r.item_id == item_id,
            r.item_name == item_name,
            r.item_kind == item_kind,
            r.item == item,
            r.response_kind == response_kind,
            r.roll == roll,
            r.used_at == used_at,
    {
        ItemUseRecord::new_with_id(
            new_uuid(),
            player_id,
            item_id,
            item_name,
            item_kind,
            item,
            response_kind,
            roll,
            used_at,
        )
    }
}

/// `a` is at least as recent as `b`: later, or at the same instant with an id
/// at least as large.
pub open spec fn at_least_as_recent(a: ItemUseRecord, b: ItemUseRecord) -> bool {
    a.used_at > b.used_at || (a.used_at == b.used_at && a.id >= b.id)
}

pub open spec fn newest_first(s: Seq<ItemUseRecord>) -> bool {
    forall|i: int, j: int|
        0 <= i < j < s.len() ==> at_least_as_recent(#[trigger] s[i], #[trigger] s[j])
}

/// The records of one player, in the order they were made.
pub open spec fn uses_of(records: Seq<ItemUseRecord>, player: PlayerId) -> Seq<ItemUseRecord>
    decreases records.len(),
{
    if records.len() == 0 {
        Seq::empty()
    } else if records.last().player_id == player {
        uses_of(records.drop_last(), player).push(records.last())
    } else {
        uses_of(records.drop_last(), player)
    }
}

/// `v` is what `list_item_uses(player, limit)` returns for the records: the
/// player's records ordered most recent first, cut to `limit`.
pub open spec fn is_recent_uses(
    v: Seq<ItemUseRecord>,
    records: Seq<ItemUseRecord>,
    player: PlayerId,
    limit: int,
) -> bool {
    exists|full: Seq<ItemUseRecord>|
        {
            &&& full.to_multiset() == uses_of(records, player).to_multiset()
            &&& newest_first(full)
            &&& v == full.take(if limit < full.len() { limit } else { full.len() as int })
        }
}

/// In-memory record of item uses, oldest first.
pub struct InMemoryItemUseHistoryStore {
    records: Vec<ItemUseRecord>,
}

impl View for InMemoryItemUseHistoryStore {
    type V = Seq<ItemUseRecord>;

    closed spec fn view(&self) -> Seq<ItemUseRecord> {
        self.records@
    }
}

impl InMemoryItemUseHistoryStore {
    pub fn new() -> (s: InMemoryItemUseHistoryStore)
        ensures
            s@ == Seq::<ItemUseRecord>::empty(),
    {
        InMemoryItemUseHistoryStore { records: Vec::new() }
    }

    pub fn record_item_use(&mut self, record: ItemUseRecord) -> (r: Result<(), MrRollerError>)
        ensures
            r is Ok,
            final(self)@ == old(self)@.push(record),
    {
        self.records.push(record);
        Ok(())
    }

    /// The player's most recent `limit` item uses, most recent first.
    pub fn list_item_uses(&self, player_id: PlayerId, limit: usize) -> (r: Result<
        Vec<ItemUseRecord>,
        MrRollerError,
    >)
        ensures
            r matches Ok(v) && is_recent_uses(v@, self@, player_id, limit as int),
    {
        let mut sorted: Vec<ItemUseRecord> = Vec::new();
        let mut i: usize = 0;
        while i < self.records.len()
            invariant
                i <= self.records@.len(),
                newest_first(sorted@),
                sorted@.to_multiset() == uses_of(self.records@.take(i as int), player_id).to_multiset(),
            decreases self.records@.len() - i,
        {
            let ghost before = sorted@;
            let record = self.records[i].clone();
            proof {
                assert(self.records@.take(i + 1).drop_last() =~= self.records@.take(i as int));
                assert(self.records@.take(i + 1).last() == record);
            }
            if record.player_id == player_id {
                let pos = insert_recent(&mut sorted, record);
                proof {
                    vstd::seq_lib::to_multiset_insert(before, pos as int, record);
                }
            }
            i = i + 1;
        }
        proof {
            assert(self.records@.take(self.records@.len() as int) =~= self.records@);
        }
        let ghost full = sorted@;
        if limit < sorted.len() {
            sorted.truncate(limit);
        }
        proof {
            assert(sorted@ =~= full.take(if (limit as int) < full.len() { limit as int } else { full.len() as int }));
        }
        Ok(sorted)
    }
}

impl Default for InMemoryItemUseHistoryStore {
    fn default() -> (s: Self)
        ensures
            s@ == Seq::<ItemUseRecord>::empty(),
    {
        InMemoryItemUseHistoryStore::new()
    }
}

/// Inserts `e` after every record at least as recent.
fn insert_recent(sorted: &mut Vec<ItemUseRecord>, e: ItemUseRecord) -> (pos: usize)
    requires
        newest_first(old(sorted)@),
    ensures
        pos <= old(sorted)@.len(),
        final(sorted)@ == old(sorted)@.insert(pos as int, e),
        newest_first(final(sorted)@),
{
    let mut pos: usize = 0;
    while pos < sorted.len() && (sorted[pos].used_at > e.used_at || (sorted[pos].used_at
        == e.used_at && sorted[pos].id >= e.id))
        invariant
            pos <= sorted@.len(),
            forall|p: int| 0 <= p < pos ==> at_least_as_recent(#[trigger] sorted@[p], e),
        decreases sorted@.len() - pos,
    {
        pos = pos + 1;
    }
    let ghost old_sorted = sorted@;
    proof {
        lemma_insert_recent(old_sorted, pos as int, e);
    }
    sorted.insert(pos, e);
    pos
}

proof fn lemma_insert_recent(s: Seq<ItemUseRecord>, pos: int, e: ItemUseRecord)
    requires
        newest_first(s),
        0 <= pos <= s.len(),
        forall|p: int| 0 <= p < pos ==> at_least_as_recent(#[trigger] s[p], e),
        pos < s.len() ==> !at_least_as_recent(s[pos], e),
    ensures
        newest_first(s.insert(pos, e)),
{
    s.insert_ensures(pos, e);
    let s2 = s.insert(pos, e);
    assert forall|a: int, b: int| 0 <= a < b < s2.len() implies at_least_as_recent(
        #[trigger] s2[a],
        #[trigger] s2[b],
    ) by {
        if b <= pos {
            if b < pos {
                assert(s2[b] == s[b]);
            }
            assert(s2[a] == s[a]);
        } else {
            assert(s2[b] == s[b - 1]);
            if a < pos {
                assert(s2[a] == s[a]);
            } else if a > pos {
                assert(s2[a] == s[a - 1]);
            } else {
                assert(at_least_as_recent(e, s[pos]));
                if pos < b - 1 {
                    assert(at_least_as_recent(s[pos], s[b - 1]));
                }
            }
        }
    }
}

} // verus!
