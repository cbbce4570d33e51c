//! What the Discord frontend decides without Discord: its runtime settings,
//! the identifiers of event buttons, and short ids for display.

use vstd::prelude::*;
use vstd::utf8::is_char_boundary;
use vstd::string::StringSliceAdditionalSpecFns;
use crate::command::events::{ClaimEventCommand, TrashEventCommand};
use crate::command::Command;
use crate::config::Settings;
use crate::errors::MrRollerError;
use crate::game::{answers, Game};
use crate::player::PlayerId;
use crate::response::{Response, ResponseData, ResponseKind};
use crate::sources::{parse_uuid, uuid_parse, uuid_text, uuid_to_string};
use crate::text::{lemma_split_once_at, decimal, is_blank, owned, push_decimal, push_str, split_once, split_once_spec, starts_with, str_chars, str_eq, trim_spec};

verus! {

/// The settings the Discord process cannot run without.
#[derive(Debug)]
pub struct DiscordRuntimeConfig {
    pub token: String,
    pub database_url: String,
}

pub open spec fn missing_token_message() -> Seq<char> {
    "missing discord.token (or MR_ROLLER__DISCORD__TOKEN)"@
}

pub open spec fn needs_postgres_message() -> Seq<char> {
    "the public Discord server requires a PostgreSQL database.url"@
}

/// A usable token: not blank.
pub open spec fn usable_token(t: Seq<char>) -> bool {
    trim_spec(t).len() > 0
}

/// A usable database URL: not blank, and a PostgreSQL one.
pub open spec fn usable_postgres_url(u: Seq<char>) -> bool {
    trim_spec(u).len() > 0 && "postgres"@.len() <= u.len() && u.take(8) == "postgres"@
}

impl DiscordRuntimeConfig {
    /// Reads the token and the PostgreSQL URL from the settings; the token is
    /// checked first.
    pub fn from_settings(settings: &Settings) -> (r: Result<DiscordRuntimeConfig, String>)
        ensures
            match r {
                Ok(c) => {
                    &&& settings.discord.token matches Some(t) && usable_token(t@) && c.token@ == t@
                    &&& settings.database.url matches Some(u) && usable_postgres_url(u@)
                        && c.database_url@ == u@
                },
                Err(m) => if !(settings.discord.token matches Some(t) && usable_token(t@)) {
                    m@ == missing_token_message()
                } else {
                    !(settings.database.url matches Some(u) && usable_postgres_url(u@)) && m@
                        == needs_postgres_message()
                },
            },
    {
        proof {
            reveal_strlit("postgres");
        }
        let token = match &settings.discord.token {
            Some(t) => if !is_blank(t.as_str()) {
                owned(t.as_str())
            } else {
                return Err(owned("missing discord.token (or MR_ROLLER__DISCORD__TOKEN)"));
            },
            None => return Err(owned("missing discord.token (or MR_ROLLER__DISCORD__TOKEN)")),
        };
        let database_url = match &settings.database.url {
            Some(u) => if !is_blank(u.as_str()) && starts_with(u.as_str(), "postgres") {
                owned(u.as_str())
            } else {
                return Err(owned("the public Discord server requires a PostgreSQL database.url"));
            },
            None => return Err(owned("the public Discord server requires a PostgreSQL database.url")),
        };
        Ok(DiscordRuntimeConfig { token, database_url })
    }
}

/// What an event button does.
#[derive(Debug, Clone, Copy, PartialEq, Eq, Structural)]
pub enum EventButtonAction {
    Claim,
    Trash,
}

pub open spec fn action_key(action: EventButtonAction) -> Seq<char> {
    match action {
        EventButtonAction::Claim => "claim"@,
        EventButtonAction::Trash => "trash"@,
    }
}

/// The custom id of an event button: `event:{action}:{event_id}`.
pub fn event_custom_id(action: EventButtonAction, event_id: &str) -> (s: String)
    ensures
        s@ == "event:"@ + action_key(action) + ":"@ + event_id@,
{
    let key = match action {
        EventButtonAction::Claim => "claim",
        EventButtonAction::Trash => "trash",
    };
    let mut s = owned("event:");
    push_str(&mut s, key);
    push_str(&mut s, ":");
    push_str(&mut s, event_id);
    s
}

/// The action and event a button's custom id names, as `splitn(3, ':')`
/// reads it: `event`, then `claim` or `trash`, then the event's UUID.
pub open spec fn custom_id_spec(s: Seq<char>) -> Option<(EventButtonAction, u128)> {
    match split_once_spec(s, ':') {
        Some((head, rest)) => if head == "event"@ {
            match split_once_spec(rest, ':') {
                Some((action, id)) => {
                    let act = if action == "claim"@ {
                        Some(EventButtonAction::Claim)
                    } else if action == "trash"@ {
                        Some(EventButtonAction::Trash)
                    } else {
                        None
                    };
                    match (act, uuid_parse(id)) {
                        (Some(a), Some(u)) => Some((a, u)),
                        _ => None,
                    }
                },
                None => None,
            }
        } else {
            None
        },
        None => None,
    }
}

/// The custom id of the button `action` on the event `event_id`; reading it
/// back gives the action and the event.
pub fn event_button_id(action: EventButtonAction, event_id: u128) -> (s: String)
    ensures
        s@ == "event:"@ + action_key(action) + ":"@ + uuid_text(event_id),
        custom_id_spec(s@) == Some((action, event_id)),
{
    let id = uuid_to_string(event_id);
    let s = event_custom_id(action, id.as_str());
    proof {
        reveal_strlit("event:");
        reveal_strlit("event");
        reveal_strlit(":");
        reveal_strlit("claim");
        reveal_strlit("trash");
        let key = action_key(action);
        let t = uuid_text(event_id);
        let rest = key + ":"@ + t;
        assert(s@ =~= "event"@ + (":"@ + rest));
        lemma_split_once_at(s@, ':', 5);
        assert(s@.take(5) =~= "event"@);
        assert(s@.skip(6) =~= rest);
        lemma_split_once_at(rest, ':', 5);
        assert(rest.take(5) =~= key);
        assert(rest.skip(6) =~= t);
    }
    s
}

/// Reads a button's custom id back.
pub fn parse_event_custom_id(custom_id: &str) -> (r: Option<(EventButtonAction, u128)>)
    ensures
        r == custom_id_spec(custom_id@),
{
    let (head, rest) = match split_once(custom_id, ':') {
        Some(p) => p,
        None => return None,
    };
    if !str_eq(head.as_str(), "event") {
        return None;
    }
    let (action, id) = match split_once(rest.as_str(), ':') {
        Some(p) => p,
        None => return None,
    };
    let act = if str_eq(action.as_str(), "claim") {
        EventButtonAction::Claim
    } else if str_eq(action.as_str(), "trash") {
        EventButtonAction::Trash
    } else {
        return None;
    };
    match parse_uuid(id.as_str()) {
        Some(u) => Some((act, u)),
        None => None,
    }
}

/// The first eight bytes of an id for display, or the whole id where it is
/// shorter or the eighth byte is inside a character.
pub fn short_id(id: &str) -> (r: &str)
    ensures
        if 8 <= id.len() && is_char_boundary(id.spec_bytes(), 8) {
            r.spec_bytes() == id.spec_bytes().subrange(0, 8)
        } else {
            r == id
        },
{
    if id.len() >= 8 && id.is_char_boundary(8) {
        let (head, _) = id.split_at(8);
        head
    } else {
        id
    }
}

/// The id of the event a response describes, if it describes one.
pub fn event_id(response: &Response) -> (r: Option<u128>)
    ensures
        r == match response.data {
            Some(ResponseData::Event(s)) => Some(s.id),
            _ => None::<u128>,
        },
{
    match &response.data {
        Some(ResponseData::Event(s)) => Some(s.id),
        _ => None,
    }
}

// ── Button presses ─────────────────────────────────────────────────────────

/// Whether `resp` and `post` are a possible outcome of `user_id` pressing an
/// event button with the action `action` on event `event_id`.
pub open spec fn button_outcome(
    pre: Game,
    post: Game,
    action: EventButtonAction,
    event_id: u128,
    user_id: u64,
    resp: Response,
) -> bool {
    exists|r: Result<Response, MrRollerError>|
        #[trigger] answers(r, resp) && match action {
            EventButtonAction::Claim => (ClaimEventCommand {
                player_id: PlayerId(user_id),
                event_id,
            }).outcome(pre, post, r),
            EventButtonAction::Trash => (TrashEventCommand {
                player_id: PlayerId(user_id),
                event_id,
            }).outcome(pre, post, r),
        }
}

/// How the answer to a button press is shown.
#[derive(Debug)]
pub enum ButtonReply {
    /// An error, shown to the presser alone.
    Private(Response),
    /// Anything else: it replaces the event message.
    UpdateMessage(Response),
}

impl ButtonReply {
    pub open spec fn response_spec(self) -> Response {
        match self {
            ButtonReply::Private(r) => r,
            ButtonReply::UpdateMessage(r) => r,
        }
    }
}

/// Handles a press of a message button by Discord user `user_id`: a button
/// of an event claims or trashes it; any other button is not ours (`None`,
/// nothing changes). An error answer is shown to the presser alone; any other
/// answer replaces the event message.
pub fn button_press(game: &mut Game, custom_id: &str, user_id: u64) -> (r: Option<ButtonReply>)
    ensures
        match custom_id_spec(custom_id@) {
            None => r is None && *final(game) == *old(game),
            Some((action, event_id)) => r matches Some(reply) && {
                &&& button_outcome(
                    *old(game),
                    *final(game),
                    action,
                    event_id,
                    user_id,
                    reply.response_spec(),
                )
                &&& (reply is Private <==> reply.response_spec().kind == ResponseKind::Error)
            },
        },
{
    let (action, event_id) = match parse_event_custom_id(custom_id) {
        Some(p) => p,
        None => return None,
    };
    let player_id = PlayerId::new(user_id);
    let response = match action {
        EventButtonAction::Claim => game.execute(ClaimEventCommand { player_id, event_id }),
        EventButtonAction::Trash => game.execute(TrashEventCommand { player_id, event_id }),
    };
    if response.kind == ResponseKind::Error {
        Some(ButtonReply::Private(response))
    } else {
        Some(ButtonReply::UpdateMessage(response))
    }
}

// ── Game setup ─────────────────────────────────────────────────────────────

/// Whether a member may set up a game: with Administrator, Manage Server or
/// Manage Channels.
pub fn caller_can_setup(administrator: bool, manage_guild: bool, manage_channels: bool) -> (r: bool)
    ensures
        r == (administrator || manage_guild || manage_channels),
{
    administrator || manage_guild || manage_channels
}

/// Why `/setup` is refused, checked in order: outside a server, on a channel
/// that is not a text channel, or by a member who may not set up games.
pub fn setup_refusal(in_guild: bool, text_channel: bool, can_setup: bool) -> (r: Option<&'static str>)
    ensures
        !in_guild ==> (r matches Some(m) && m@ == "Mr Roller games must be set up inside a server channel."@),
        in_guild && !text_channel ==> (r matches Some(m) && m@ == "Please choose a text channel for the game."@),
        in_guild && text_channel && !can_setup ==> (r matches Some(m) && m@
            == "You need Administrator, Manage Server, or Manage Channels to set up Mr Roller."@),
        in_guild && text_channel && can_setup ==> r is None,
{
    if !in_guild {
        Some("Mr Roller games must be set up inside a server channel.")
    } else if !text_channel {
        Some("Please choose a text channel for the game.")
    } else if !can_setup {
        Some("You need Administrator, Manage Server, or Manage Channels to set up Mr Roller.")
    } else {
        None
    }
}

/// The private answer to a successful `/setup` in the channel `channel`
/// (its mention), for a new game or an existing one.
pub fn setup_message(created: bool, channel: &str) -> (s: String)
    ensures
        created ==> s@ == "Mr Roller is ready in "@ + channel@
            + ".\nYou are now an admin for this game. Run `/start` in that channel to receive your starter dice."@,
        !created ==> s@ == "A Mr Roller game already exists in "@ + channel@
            + ".\nYou have been added as an admin for that game. Run `/start` in that channel to receive your starter dice if you have not already joined."@,
{
    if created {
        let mut s = owned("Mr Roller is ready in ");
        push_str(&mut s, channel);
        push_str(
            &mut s,
            ".\nYou are now an admin for this game. Run `/start` in that channel to receive your starter dice.",
        );
        s
    } else {
        let mut s = owned("A Mr Roller game already exists in ");
        push_str(&mut s, channel);
        push_str(
            &mut s,
            ".\nYou have been added as an admin for that game. Run `/start` in that channel to receive your starter dice if you have not already joined.",
        );
        s
    }
}

/// The answer to `/status` for a configured channel.
pub fn status_message(game_id: &str, events_enabled: bool, player_count: u64) -> (s: String)
    ensures
        s@ == "Mr Roller is configured for this channel.\nGame ID: `"@ + game_id@ + "`\nEvents: "@
            + (if events_enabled {
            "enabled"@
        } else {
            "disabled"@
        }) + "\nPlayers: "@ + decimal(player_count as nat),
{
    let mut s = owned("Mr Roller is configured for this channel.\nGame ID: `");
    push_str(&mut s, game_id);
    push_str(&mut s, "`\nEvents: ");
    push_str(&mut s, if events_enabled { "enabled" } else { "disabled" });
    push_str(&mut s, "\nPlayers: ");
    push_decimal(&mut s, player_count);
    s
}

// ── Autocompletion and mentions ────────────────────────────────────────────

/// Whether `part` occurs in `s`.
pub open spec fn contains_text(s: Seq<char>, part: Seq<char>) -> bool {
    exists|i: int| 0 <= i && i + part.len() <= s.len() && #[trigger] s.subrange(i, i + part.len()) == part
}

/// Whether `part` occurs in `s`.
pub fn str_contains(s: &str, part: &str) -> (r: bool)
    ensures
        r == contains_text(s@, part@),
{
    let c = str_chars(s);
    let p = str_chars(part);
    if p.len() > c.len() {
        return false;
    }
    let last = c.len() - p.len();
    let mut i: usize = 0;
    loop
        invariant
            c@ == s@,
            p@ == part@,
            last == c@.len() - p@.len(),
            p@.len() <= c@.len(),
            i <= last,
            forall|k: int| 0 <= k < i ==> #[trigger] s@.subrange(k, k + part@.len()) != part@,
        decreases last - i,
    {
        if occurs_at(&c, i, &p) {
            return true;
        }
        if i == last {
            return false;
        }
        i = i + 1;
    }
}

/// The keys holding `partial`, in order.
pub open spec fn keys_matching(keys: Seq<Seq<char>>, partial: Seq<char>) -> Seq<Seq<char>> {
    keys.filter(|k: Seq<char>| contains_text(k, partial))
}

/// The item keys offered while a user types `partial`: those holding it.
pub fn autocomplete_keys(keys: &Vec<&str>, partial: &str) -> (r: Vec<String>)
    ensures
        r@.map_values(|s: String| s@) == keys_matching(keys@.map_values(|k: &str| k@), partial@),
{
    let ghost views = keys@.map_values(|k: &str| k@);
    let mut out: Vec<String> = Vec::new();
    let mut i: usize = 0;
    while i < keys.len()
        invariant
            i <= keys@.len(),
            views == keys@.map_values(|k: &str| k@),
            out@.map_values(|s: String| s@) == keys_matching(views.take(i as int), partial@),
        decreases keys@.len() - i,
    {
        let ghost before = out@.map_values(|s: String| s@);
        proof {
            assert(views.take(i + 1) =~= views.take(i as int).push(keys@[i as int]@));
            views.take(i as int).lemma_filter_push(keys@[i as int]@, |k: Seq<char>| contains_text(k, partial@));
            assert(views.take(i + 1).drop_last() =~= views.take(i as int));
            assert(views.take(i + 1).last() == keys@[i as int]@);
        }
        if str_contains(keys[i], partial) {
            out.push(owned(keys[i]));
            proof {
                assert(out@.map_values(|s: String| s@) =~= before.push(keys@[i as int]@));
            }
        } else {
            proof {
                assert(out@.map_values(|s: String| s@) =~= before);
            }
        }
        i = i + 1;
    }
    proof {
        assert(views.take(keys@.len() as int) =~= views);
    }
    out
}

/// `str::replace`: every occurrence of `from` in `s`, left to right and not
/// overlapping, replaced by `to`.
pub open spec fn replace_spec(s: Seq<char>, from: Seq<char>, to: Seq<char>) -> Seq<char>
    decreases s.len(),
{
    if from.len() == 0 || s.len() < from.len() {
        s
    } else if s.take(from.len() as int) == from {
        to + replace_spec(s.skip(from.len() as int), from, to)
    } else {
        seq![s[0]] + replace_spec(s.skip(1), from, to)
    }
}

/// Whether `p` occurs in `c` at position `i`.
fn occurs_at(c: &Vec<char>, i: usize, p: &Vec<char>) -> (r: bool)
    requires
        i <= c@.len(),
    ensures
        r == (p@.len() <= c@.len() - i && c@.subrange(i as int, i + p@.len()) == p@),
{
    let n = c.len();
    if p.len() > n - i {
        return false;
    }
    let mut j: usize = 0;
    while j < p.len()
        invariant
            n == c@.len(),
            i <= c@.len(),
            p@.len() <= c@.len() - i,
            j <= p@.len(),
            forall|m: int| 0 <= m < j ==> c@[i + m] == p@[m],
        decreases p@.len() - j,
    {
        if c[i + j] != p[j] {
            proof {
                assert(c@.subrange(i as int, i + p@.len())[j as int] != p@[j as int]);
            }
            return false;
        }
        j = j + 1;
    }
    proof {
        assert(c@.subrange(i as int, i + p@.len()) =~= p@);
    }
    true
}

/// A message with the user's id written as a mention of them.
pub fn mention_target(message: &str, user_id: u64, mention: &str) -> (s: String)
    ensures
        s@ == replace_spec(message@, decimal(user_id as nat), mention@),
{
    let c = str_chars(message);
    let id = str_chars(crate::text::u64_to_string(user_id).as_str());
    let ghost from = id@;
    let mut out = String::new();
    let mut i: usize = 0;
    proof {
        assert(message@.skip(0) =~= message@);
        crate::text::lemma_decimal_nonempty(user_id as nat);
    }
    while i < c.len()
        invariant
            c@ == message@,
            from == id@,
            from == decimal(user_id as nat),
            from.len() > 0,
            i <= c@.len(),
            out@ + replace_spec(message@.skip(i as int), from, mention@) == replace_spec(
                message@,
                from,
                mention@,
            ),
        decreases c@.len() - i,
    {
        let ghost rest = message@.skip(i as int);
        if occurs_at(&c, i, &id) {
            proof {
                assert(rest.take(from.len() as int) =~= c@.subrange(i as int, i + from.len()));
                assert(rest.skip(from.len() as int) =~= message@.skip(i + from.len()));
            }
            push_str(&mut out, mention);
            i = i + id.len();
        } else {
            proof {
                if rest.len() >= from.len() {
                    assert(rest.take(from.len() as int) =~= c@.subrange(i as int, i + from.len()));
                }
                assert(rest.skip(1) =~= message@.skip(i + 1));
                assert(rest[0] == c@[i as int]);
            }
            crate::text::string_push(&mut out, c[i]);
            i = i + 1;
        }
    }
    proof {
        assert(message@.skip(c@.len() as int) =~= Seq::<char>::empty());
    }
    out
}

} // verus!
