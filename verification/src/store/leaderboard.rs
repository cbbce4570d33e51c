//! In-memory leaderboard storage.

use vstd::prelude::*;
use std::collections::HashMap;
use crate::errors::MrRollerError;
use crate::player::PlayerId;

verus! {

broadcast use vstd::std_specs::hash::group_hash_axioms;

/// A player's score for leaderboard ranking.
#[derive(Debug, Clone, Copy, PartialEq, Eq, Structural)]
pub struct Score {
    pub xp: u64,
    pub coins: u64,
}

/// `a` ranks at least as high as `b`: more XP, or as much XP and at least as
/// many coins.
pub open spec fn ranks_at_least(a: Score, b: Score) -> bool {
    a.xp > b.xp || (a.xp == b.xp && a.coins >= b.coins)
}

/// The entries are ordered from the highest score down.
pub open spec fn sorted_by_score(v: Seq<(PlayerId, Score)>) -> bool {
    forall|i: int, j: int| 0 <= i < j < v.len() ==> ranks_at_least(#[trigger] v[i].1, #[trigger] v[j].1)
}

/// The entries are stored scores, each player at most once.
pub open spec fn entries_of(v: Seq<(PlayerId, Score)>, m: Map<u64, Score>) -> bool {
    &&& forall|i: int| 0 <= i < v.len() ==> #[trigger] m.contains_key(v[i].0.0) && m[v[i].0.0] == v[i].1
    &&& forall|i: int, j: int| 0 <= i < j < v.len() ==> #[trigger] v[i].0 != #[trigger] v[j].0
}

/// `v` is what `get_scores(limit)` may return for the scores `m`: the
/// `min(limit, |m|)` best entries, best first (ties in any order).
pub open spec fn is_top_scores(v: Seq<(PlayerId, Score)>, m: Map<u64, Score>, limit: int) -> bool {
    &&& v.len() == if limit < m.dom().len() { limit } else { m.dom().len() as int }
    &&& entries_of(v, m)
    &&& sorted_by_score(v)
    &&& forall|k: u64, i: int|
        #![trigger m.contains_key(k), v[i]]
        m.contains_key(k) && 0 <= i < v.len() && (forall|p: int| 0 <= p < v.len() ==> v[p].0.0 != k)
            ==> ranks_at_least(v[i].1, m[k])
}

/// Persistence of leaderboard scores, for stores other than the in-memory
/// one to implement.
pub trait LeaderboardStore {
    /// The stored scores, by player id.
    spec fn scores(&self) -> Map<u64, Score>;

    /// The top `limit` players sorted by score (highest XP first, then most
    /// coins).
    fn get_scores(&self, limit: usize) -> (r: Result<Vec<(PlayerId, Score)>, MrRollerError>)
        ensures
            r matches Ok(v) ==> is_top_scores(v@, self.scores(), limit as int),
    ;

    /// Updates or inserts a player's score.
    fn update_score(&mut self, player_id: PlayerId, score: Score) -> (r: Result<(), MrRollerError>)
        ensures
            r is Ok ==> final(self).scores() == old(self).scores().insert(player_id.0, score),
    ;
}

/// In-memory leaderboard store backed by a `HashMap`.
pub struct InMemoryLeaderboardStore {
    scores: HashMap<u64, Score>,
}

impl View for InMemoryLeaderboardStore {
    type V = Map<u64, Score>;

    closed spec fn view(&self) -> Map<u64, Score> {
        self.scores@
    }
}

impl InMemoryLeaderboardStore {
    pub fn new() -> (s: InMemoryLeaderboardStore)
        ensures
            s@ == Map::<u64, Score>::empty(),
    {
        InMemoryLeaderboardStore { scores: HashMap::new() }
    }

    /// Updates or inserts a player's score.
    pub fn update_score(&mut self, player_id: PlayerId, score: Score) -> (r: Result<(), MrRollerError>)
        ensures
            r is Ok,
            final(self)@ == old(self)@.insert(player_id.0, score),
    {
        self.scores.insert(player_id.0, score);
        Ok(())
    }

    /// Returns the top `limit` players sorted by score (highest XP first,
    /// then most coins).
    pub fn get_scores(&self, limit: usize) -> (r: Result<Vec<(PlayerId, Score)>, MrRollerError>)
        ensures
            r matches Ok(v) && is_top_scores(v@, self@, limit as int),
    {
        let entries = self.entries();
        let mut sorted: Vec<(PlayerId, Score)> = Vec::new();
        let mut i: usize = 0;
        while i < entries.len()
            invariant
                i <= entries@.len(),
                entries_of(entries@, self@),
                sorted@.len() == i,
                entries_of(sorted@, self@),
                sorted_by_score(sorted@),
                covers(sorted@, entries@, i as int),
                drawn_from(sorted@, entries@, i as int),
            decreases entries@.len() - i,
        {
            let e = entries[i];
            let ghost old_sorted = sorted@;
            let pos = insert_ranked(&mut sorted, e);
            proof {
                lemma_insert_keeps_entries(old_sorted, pos as int, entries@, i as int, self@);
            }
            i = i + 1;
        }
        let ghost full = sorted@;
        if limit < sorted.len() {
            sorted.truncate(limit);
        }
        proof {
            assert(sorted@ =~= full.take(sorted@.len() as int));
            lemma_prefix_is_top(full, sorted@, entries@, self@);
        }
        Ok(sorted)
    }

    /// Every stored score as `(player, score)`, each player once.
    fn entries(&self) -> (v: Vec<(PlayerId, Score)>)
        ensures
            v@.len() == self@.dom().len(),
            entries_of(v@, self@),
            forall|k: u64| #[trigger] self@.contains_key(k) ==> exists|i: int| 0 <= i < v@.len() && v@[i].0.0 == k,
    {
        let mut out: Vec<(PlayerId, Score)> = Vec::new();
        for k in it: self.scores.keys()
            invariant
                it.seq().unref().to_set() == self.scores@.dom(),
                it.seq().no_duplicates(),
                out@.len() == it.index(),
                forall|i: int, j: int|
                    0 <= i < j < out@.len() ==> #[trigger] out@[i].0 != #[trigger] out@[j].0,
                forall|i: int| 0 <= i < out@.len() ==> out@[i].0.0 == *it.seq()[i],
                forall|i: int|
                    0 <= i < out@.len() ==> #[trigger] self.scores@.contains_key(out@[i].0.0)
                        && self.scores@[out@[i].0.0] == out@[i].1,
        {
            match self.scores.get(k) {
                Some(s) => {
                    proof {
                        let ghost n = out@.len() as int;
                        assert forall|i: int| 0 <= i < n implies out@[i].0 != PlayerId(*k) by {
                            assert(it.seq()[i] != it.seq()[n]);
                        }
                    }
                    out.push((PlayerId(*k), *s));
                },
                None => {},
            }
        }
        out
    }
}

/// Each of the first `i` entries appears in `s`.
pub open spec fn covers(s: Seq<(PlayerId, Score)>, entries: Seq<(PlayerId, Score)>, i: int) -> bool {
    forall|j: int|
        #![trigger entries[j]]
        0 <= j < i ==> exists|p: int| 0 <= p < s.len() && #[trigger] s[p].0 == entries[j].0
}

/// Each element of `s` is one of the first `i` entries.
pub open spec fn drawn_from(s: Seq<(PlayerId, Score)>, entries: Seq<(PlayerId, Score)>, i: int) -> bool {
    forall|p: int|
        #![trigger s[p]]
        0 <= p < s.len() ==> exists|j: int| 0 <= j < i && s[p].0 == #[trigger] entries[j].0
}

impl LeaderboardStore for InMemoryLeaderboardStore {
    open spec fn scores(&self) -> Map<u64, Score> {
        self@
    }

    fn get_scores(&self, limit: usize) -> (r: Result<Vec<(PlayerId, Score)>, MrRollerError>)
        ensures
            r matches Ok(v) && is_top_scores(v@, self@, limit as int),
    {
        InMemoryLeaderboardStore::get_scores(self, limit)
    }

    fn update_score(&mut self, player_id: PlayerId, score: Score) -> (r: Result<(), MrRollerError>)
        ensures
            r is Ok,
            final(self)@ == old(self)@.insert(player_id.0, score),
    {
        InMemoryLeaderboardStore::update_score(self, player_id, score)
    }
}

impl Default for InMemoryLeaderboardStore {
    fn default() -> (s: Self)
        ensures
            s@ == Map::<u64, Score>::empty(),
    {
        InMemoryLeaderboardStore::new()
    }
}

/// Inserts `e` into the ranked list after every entry ranking at least as high.
fn insert_ranked(sorted: &mut Vec<(PlayerId, Score)>, e: (PlayerId, Score)) -> (pos: usize)
    requires
        sorted_by_score(old(sorted)@),
    ensures
        pos <= old(sorted)@.len(),
        final(sorted)@ == old(sorted)@.insert(pos as int, e),
        sorted_by_score(final(sorted)@),
{
    let mut pos: usize = 0;
    while pos < sorted.len() && (sorted[pos].1.xp > e.1.xp || (sorted[pos].1.xp == e.1.xp
        && sorted[pos].1.coins >= e.1.coins))
        invariant
            pos <= sorted@.len(),
            forall|p: int| 0 <= p < pos ==> ranks_at_least(#[trigger] sorted@[p].1, e.1),
        decreases sorted@.len() - pos,
    {
        pos = pos + 1;
    }
    let ghost old_sorted = sorted@;
    proof {
        lemma_insert_sorted(old_sorted, pos as int, e);
    }
    sorted.insert(pos, e);
    pos
}

proof fn lemma_insert_sorted(s: Seq<(PlayerId, Score)>, pos: int, e: (PlayerId, Score))
    requires
        sorted_by_score(s),
        0 <= pos <= s.len(),
        forall|p: int| 0 <= p < pos ==> ranks_at_least(#[trigger] s[p].1, e.1),
        pos < s.len() ==> !ranks_at_least(s[pos].1, e.1),
    ensures
        sorted_by_score(s.insert(pos, e)),
{
    s.insert_ensures(pos, e);
    let s2 = s.insert(pos, e);
    assert forall|a: int, b: int| 0 <= a < b < s2.len() implies ranks_at_least(
        #[trigger] s2[a].1,
        #[trigger] s2[b].1,
    ) by {
        if b <= pos {
            if b < pos {
                assert(s2[b] == s[b]);
            }
            assert(s2[a] == s[a]);
        } else {
            assert(s2[b] == s[b - 1]);
            if a < pos {
                assert(s2[a] == s[a]);
            } else if a > pos {
                assert(s2[a] == s[a - 1]);
            } else {
                assert(ranks_at_least(e.1, s[pos].1));
                if pos < b - 1 {
                    assert(ranks_at_least(s[pos].1, s[b - 1].1));
                }
            }
        }
    }
}

proof fn lemma_insert_keeps_entries(
    s: Seq<(PlayerId, Score)>,
    pos: int,
    entries: Seq<(PlayerId, Score)>,
    i: int,
    m: Map<u64, Score>,
)
    requires
        0 <= i < entries.len(),
        0 <= pos <= s.len(),
        entries_of(entries, m),
        entries_of(s, m),
        covers(s, entries, i),
        drawn_from(s, entries, i),
    ensures
        ({
            let s2 = s.insert(pos, entries[i]);
            &&& entries_of(s2, m)
            &&& covers(s2, entries, i + 1)
            &&& drawn_from(s2, entries, i + 1)
        }),
{
    let e = entries[i];
    s.insert_ensures(pos, e);
    assert forall|p: int| 0 <= p < s.len() implies s[p].0 != e.0 by {
        let j = choose|j: int| 0 <= j < i && s[p].0 == #[trigger] entries[j].0;
    }
    lemma_insert_entries_of(s, pos, e, m);
    lemma_insert_covers(s, pos, entries, i);
    lemma_insert_drawn_from(s, pos, entries, i);
}

proof fn lemma_insert_entries_of(s: Seq<(PlayerId, Score)>, pos: int, e: (PlayerId, Score), m: Map<u64, Score>)
    requires
        0 <= pos <= s.len(),
        entries_of(s, m),
        m.contains_key(e.0.0) && m[e.0.0] == e.1,
        forall|p: int| 0 <= p < s.len() ==> s[p].0 != e.0,
    ensures
        entries_of(s.insert(pos, e), m),
{
    s.insert_ensures(pos, e);
    let s2 = s.insert(pos, e);
    assert forall|p: int| 0 <= p < s2.len() implies #[trigger] m.contains_key(s2[p].0.0) && m[s2[p].0.0]
        == s2[p].1 by {
        if p < pos {
            assert(s2[p] == s[p]);
        } else if p == pos {
            assert(s2[p] == e);
        } else {
            assert(s2[p] == s[p - 1]);
        }
    }
    assert forall|a: int, b: int| 0 <= a < b < s2.len() implies #[trigger] s2[a].0 != #[trigger] s2[b].0 by {
        let sa = if a < pos { s[a] } else if a == pos { e } else { s[a - 1] };
        let sb = if b < pos { s[b] } else if b == pos { e } else { s[b - 1] };
        assert(s2[a] == sa);
        assert(s2[b] == sb);
    }
}

proof fn lemma_insert_covers(s: Seq<(PlayerId, Score)>, pos: int, entries: Seq<(PlayerId, Score)>, i: int)
    requires
        0 <= i < entries.len(),
        0 <= pos <= s.len(),
        covers(s, entries, i),
    ensures
        ({
            let s2 = s.insert(pos, entries[i]);
            covers(s2, entries, i + 1)
        }),
{
    let e = entries[i];
    s.insert_ensures(pos, e);
    let s2 = s.insert(pos, e);
    assert forall|j: int| #![trigger entries[j]] 0 <= j < i + 1 implies exists|p: int| 0 <= p < s2.len() && #[trigger] s2[p].0 == entries[j].0 by {
        if j == i {
            assert(s2[pos].0 == entries[j].0);
        } else {
            let p = choose|p: int| 0 <= p < s.len() && #[trigger] s[p].0 == entries[j].0;
            if p < pos {
                assert(s2[p] == s[p]);
            } else {
                assert(s2[p + 1] == s[p]);
            }
        }
    }
}

proof fn lemma_insert_drawn_from(s: Seq<(PlayerId, Score)>, pos: int, entries: Seq<(PlayerId, Score)>, i: int)
    requires
        0 <= i < entries.len(),
        0 <= pos <= s.len(),
        drawn_from(s, entries, i),
    ensures
        ({
            let s2 = s.insert(pos, entries[i]);
            drawn_from(s2, entries, i + 1)
        }),
{
    let e = entries[i];
    s.insert_ensures(pos, e);
    let s2 = s.insert(pos, e);
    assert forall|p: int| #![trigger s2[p]] 0 <= p < s2.len() implies exists|j: int| 0 <= j < i + 1 && s2[p].0 == #[trigger] entries[j].0 by {
        if p == pos {
            assert(s2[p].0 == entries[i].0);
        } else if p < pos {
            assert(s2[p] == s[p]);
            let j = choose|j: int| 0 <= j < i && s[p].0 == #[trigger] entries[j].0;
        } else {
            assert(s2[p] == s[p - 1]);
            let j = choose|j: int| 0 <= j < i && s[p - 1].0 == #[trigger] entries[j].0;
        }
    }
}

/// A prefix of a ranking of all entries holds the best of them.
proof fn lemma_prefix_is_top(
    full: Seq<(PlayerId, Score)>,
    v: Seq<(PlayerId, Score)>,
    entries: Seq<(PlayerId, Score)>,
    m: Map<u64, Score>,
)
    requires
        entries_of(full, m),
        sorted_by_score(full),
        v.len() <= full.len(),
        v == full.take(v.len() as int),
        full.len() == m.dom().len(),
        forall|k: u64| #[trigger] m.contains_key(k) ==> exists|i: int| 0 <= i < entries.len() && entries[i].0.0 == k,
        covers(full, entries, entries.len() as int),
    ensures
        entries_of(v, m),
        sorted_by_score(v),
        forall|k: u64, i: int|
            #![trigger m.contains_key(k), v[i]]
            m.contains_key(k) && 0 <= i < v.len() && (forall|p: int| 0 <= p < v.len() ==> v[p].0.0 != k)
                ==> ranks_at_least(v[i].1, m[k]),
{
    assert forall|k: u64, i: int|
        #![trigger m.contains_key(k), v[i]]
        m.contains_key(k) && 0 <= i < v.len() && (forall|p: int| 0 <= p < v.len() ==> v[p].0.0 != k)
            implies ranks_at_least(v[i].1, m[k]) by {
        let j = choose|j: int| 0 <= j < entries.len() && entries[j].0.0 == k;
        let q = choose|q: int| 0 <= q < full.len() && #[trigger] full[q].0 == entries[j].0;
        if q < v.len() {
            assert(v[q] == full[q]);
        }
        assert(v[i] == full[i]);
    }
    assert forall|p: int| 0 <= p < v.len() implies #[trigger] m.contains_key(v[p].0.0) && m[v[p].0.0] == v[p].1 by {
        assert(v[p] == full[p]);
    }
    assert forall|a: int, b: int| 0 <= a < b < v.len() implies #[trigger] v[a].0 != #[trigger] v[b].0 by {
        assert(v[a] == full[a]);
        assert(v[b] == full[b]);
    }
    assert forall|a: int, b: int| 0 <= a < b < v.len() implies ranks_at_least(#[trigger] v[a].1, #[trigger] v[b].1) by {
        assert(v[a] == full[a]);
        assert(v[b] == full[b]);
    }
}

} // verus!
