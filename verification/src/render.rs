//! The text lines a terminal frontend shows for a response.

use vstd::prelude::*;
use crate::response::{
    EventSummary, InventoryEntry, LeaderboardEntry, Response, ResponseData, ResponseKind, ShopEntry,
};
use crate::sources::{rfc3339_of_micros, rfc3339_text, uuid_text, uuid_to_string};
use crate::text::{decimal, owned, push_decimal, push_str};

verus! {

/// The texts of some lines.
pub open spec fn line_views(v: Seq<String>) -> Seq<Seq<char>> {
    v.map_values(|l: String| l@)
}

pub open spec fn icon_spec(kind: ResponseKind) -> Seq<char> {
    match kind {
        ResponseKind::Success => "✅"@,
        ResponseKind::Error => "❌"@,
        ResponseKind::DiceRoll => "🎲"@,
        ResponseKind::Inventory => "🎒"@,
        ResponseKind::Leaderboard => "🏆"@,
        ResponseKind::Shop => "🛒"@,
        ResponseKind::Event => "🎉"@,
    }
}

/// The icon a response is shown with.
pub fn icon(kind: ResponseKind) -> (s: &'static str)
    ensures
        s@ == icon_spec(kind),
{
    match kind {
        ResponseKind::Success => "✅",
        ResponseKind::Error => "❌",
        ResponseKind::DiceRoll => "🎲",
        ResponseKind::Inventory => "🎒",
        ResponseKind::Leaderboard => "🏆",
        ResponseKind::Shop => "🛒",
        ResponseKind::Event => "🎉",
    }
}

pub open spec fn inventory_line(e: InventoryEntry) -> Seq<char> {
    "    ["@ + uuid_text(e.id) + "] "@ + e.name@ + " — "@ + e.description@
}

pub open spec fn shop_line(e: ShopEntry) -> Seq<char> {
    "    "@ + e.key@ + " — "@ + decimal(e.price as nat) + " coins — "@ + e.name@ + " — "@
        + e.description@
}

pub open spec fn leaderboard_line(rank: nat, e: LeaderboardEntry) -> Seq<char> {
    "    "@ + decimal(rank) + ". Player "@ + decimal(e.player_id as nat) + " — "@ + decimal(
        e.xp as nat,
    ) + " XP, "@ + decimal(e.coins as nat) + " coins"@
}

/// An expiry instant as RFC 3339 text, `?` where it is out of range.
pub open spec fn expiry_text(micros: i64) -> Seq<char> {
    match rfc3339_text(micros) {
        Some(t) => t,
        None => "?"@,
    }
}

/// The three lines describing an event.
pub open spec fn event_lines(e: EventSummary) -> Seq<Seq<char>> {
    seq![
        "    ["@ + uuid_text(e.id) + "] "@ + e.title@ + " — "@ + e.status@,
        "        "@ + e.description@,
        "        expires at "@ + expiry_text(e.expires_at),
    ]
}

/// The lines of several events, in order.
pub open spec fn events_lines(v: Seq<EventSummary>) -> Seq<Seq<char>>
    decreases v.len(),
{
    if v.len() == 0 {
        Seq::empty()
    } else {
        events_lines(v.drop_last()) + event_lines(v.last())
    }
}

/// The lines showing a response's payload: the items of an inventory or of
/// the shop, the ranked leaderboard, events, or a roll; nothing for other
/// payloads.
pub open spec fn data_lines(kind: ResponseKind, data: ResponseData) -> Seq<Seq<char>> {
    match data {
        ResponseData::Inventory(v) => if kind == ResponseKind::Inventory {
            v@.map_values(|e: InventoryEntry| inventory_line(e))
        } else {
            Seq::empty()
        },
        ResponseData::Shop(v) => if kind == ResponseKind::Shop {
            v@.map_values(|e: ShopEntry| shop_line(e))
        } else {
            Seq::empty()
        },
        ResponseData::Leaderboard(v) => if kind == ResponseKind::Leaderboard {
            Seq::new(v@.len(), |i: int| leaderboard_line((i + 1) as nat, v@[i]))
        } else {
            Seq::empty()
        },
        ResponseData::Events(v) => if kind == ResponseKind::Event {
            events_lines(v@)
        } else {
            Seq::empty()
        },
        ResponseData::Event(e) => if kind == ResponseKind::Event {
            event_lines(e)
        } else {
            Seq::empty()
        },
        ResponseData::Roll(r) => if kind == ResponseKind::DiceRoll {
            seq!["    Roll result: "@ + decimal(r as nat)]
        } else {
            Seq::empty()
        },
        _ => Seq::empty(),
    }
}

/// All the lines of a response: its icon and message, then its payload.
pub open spec fn response_lines_spec(r: Response) -> Seq<Seq<char>> {
    let head = seq!["  "@ + icon_spec(r.kind) + " "@ + r.message@];
    match r.data {
        Some(d) => head + data_lines(r.kind, d),
        None => head,
    }
}

fn push_line(lines: &mut Vec<String>, line: String)
    ensures
        line_views(final(lines)@) == line_views(old(lines)@).push(line@),
{
    let ghost before = lines@;
    lines.push(line);
    proof {
        assert(line_views(lines@) =~= line_views(before).push(line@));
    }
}

fn event_summary_lines(lines: &mut Vec<String>, e: &EventSummary)
    ensures
        line_views(final(lines)@) == line_views(old(lines)@) + event_lines(*e),
{
    let ghost before = line_views(lines@);
    let mut first = owned("    [");
    let id = uuid_to_string(e.id);
    push_str(&mut first, id.as_str());
    push_str(&mut first, "] ");
    push_str(&mut first, e.title.as_str());
    push_str(&mut first, " — ");
    push_str(&mut first, e.status.as_str());
    push_line(lines, first);
    let mut second = owned("        ");
    push_str(&mut second, e.description.as_str());
    push_line(lines, second);
    let mut third = owned("        expires at ");
    match rfc3339_of_micros(e.expires_at) {
        Some(t) => push_str(&mut third, t.as_str()),
        None => push_str(&mut third, "?"),
    }
    push_line(lines, third);
    proof {
        assert(line_views(lines@) =~= before + event_lines(*e));
    }
}

/// The lines a terminal shows for `response`.
pub fn response_lines(response: &Response) -> (lines: Vec<String>)
    ensures
        line_views(lines@) == response_lines_spec(*response),
{
    let mut lines: Vec<String> = Vec::new();
    let mut head = owned("  ");
    push_str(&mut head, icon(response.kind));
    push_str(&mut head, " ");
    push_str(&mut head, response.message.as_str());
    push_line(&mut lines, head);
    let ghost base = line_views(lines@);
    let kind = response.kind;
    match &response.data {
        None => {},
        Some(ResponseData::Inventory(v)) => {
            if kind == ResponseKind::Inventory {
                let mut i: usize = 0;
                while i < v.len()
                    invariant
                        i <= v@.len(),
                        line_views(lines@) == base + v@.take(i as int).map_values(
                            |e: InventoryEntry| inventory_line(e),
                        ),
                    decreases v@.len() - i,
                {
                    let e = &v[i];
                    let mut l = owned("    [");
                    let id = uuid_to_string(e.id);
                    push_str(&mut l, id.as_str());
                    push_str(&mut l, "] ");
                    push_str(&mut l, e.name.as_str());
                    push_str(&mut l, " — ");
                    push_str(&mut l, e.description.as_str());
                    push_line(&mut lines, l);
                    proof {
                        assert(v@.take(i + 1).map_values(|e: InventoryEntry| inventory_line(e))
                            =~= v@.take(i as int).map_values(|e: InventoryEntry| inventory_line(e)).push(
                            inventory_line(v@[i as int]),
                        ));
                    }
                    i = i + 1;
                }
                proof {
                    assert(v@.take(v@.len() as int) =~= v@);
                }
            }
        },
        Some(ResponseData::Shop(v)) => {
            if kind == ResponseKind::Shop {
                let mut i: usize = 0;
                while i < v.len()
                    invariant
                        i <= v@.len(),
                        line_views(lines@) == base + v@.take(i as int).map_values(
                            |e: ShopEntry| shop_line(e),
                        ),
                    decreases v@.len() - i,
                {
                    let e = &v[i];
                    let mut l = owned("    ");
                    push_str(&mut l, e.key.as_str());
                    push_str(&mut l, " — ");
                    push_decimal(&mut l, e.price);
                    push_str(&mut l, " coins — ");
                    push_str(&mut l, e.name.as_str());
                    push_str(&mut l, " — ");
                    push_str(&mut l, e.description.as_str());
                    push_line(&mut lines, l);
                    proof {
                        assert(v@.take(i + 1).map_values(|e: ShopEntry| shop_line(e))
                            =~= v@.take(i as int).map_values(|e: ShopEntry| shop_line(e)).push(
                            shop_line(v@[i as int]),
                        ));
                    }
                    i = i + 1;
                }
                proof {
                    assert(v@.take(v@.len() as int) =~= v@);
                }
            }
        },
        Some(ResponseData::Leaderboard(v)) => {
            if kind == ResponseKind::Leaderboard {
                let mut i: usize = 0;
                while i < v.len()
                    invariant
                        i <= v@.len(),
                        line_views(lines@) == base + Seq::new(
                            i as nat,
                            |j: int| leaderboard_line((j + 1) as nat, v@[j]),
                        ),
                    decreases v@.len() - i,
                {
                    let e = v[i];
                    let mut l = owned("    ");
                    push_decimal(&mut l, i as u64 + 1);
                    push_str(&mut l, ". Player ");
                    push_decimal(&mut l, e.player_id);
                    push_str(&mut l, " — ");
                    push_decimal(&mut l, e.xp);
                    push_str(&mut l, " XP, ");
                    push_decimal(&mut l, e.coins);
                    push_str(&mut l, " coins");
                    push_line(&mut lines, l);
                    proof {
                        assert(Seq::new(
                            (i + 1) as nat,
                            |j: int| leaderboard_line((j + 1) as nat, v@[j]),
                        ) =~= Seq::new(i as nat, |j: int| leaderboard_line((j + 1) as nat, v@[j])).push(
                            leaderboard_line((i + 1) as nat, v@[i as int]),
                        ));
                    }
                    i = i + 1;
                }
            }
        },
        Some(ResponseData::Events(v)) => {
            if kind == ResponseKind::Event {
                let mut i: usize = 0;
                while i < v.len()
                    invariant
                        i <= v@.len(),
                        line_views(lines@) == base + events_lines(v@.take(i as int)),
                    decreases v@.len() - i,
                {
                    event_summary_lines(&mut lines, &v[i]);
                    proof {
                        assert(v@.take(i + 1).drop_last() =~= v@.take(i as int));
                        assert(v@.take(i + 1).last() == v@[i as int]);
                    }
                    i = i + 1;
                }
                proof {
                    assert(v@.take(v@.len() as int) =~= v@);
                }
            }
        },
        Some(ResponseData::Event(e)) => {
            if kind == ResponseKind::Event {
                event_summary_lines(&mut lines, e);
            }
        },
        Some(ResponseData::Roll(r)) => {
            if kind == ResponseKind::DiceRoll {
                let mut l = owned("    Roll result: ");
                push_decimal(&mut l, *r as u64);
                push_line(&mut lines, l);
            }
        },
        Some(_) => {},
    }
    proof {
        assert(line_views(lines@) =~= response_lines_spec(*response));
    }
    lines
}

} // verus!
