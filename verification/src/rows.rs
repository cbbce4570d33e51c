//! Conversions between game values and database columns: player ids as
//! text or `BIGINT`, and counters as signed 64-bit columns.

use vstd::prelude::*;
use crate::errors::MrRollerError;
use crate::player::PlayerId;
use crate::text::{decimal, owned, parse_u64, parse_u64_spec, push_str, u64_to_string};

verus! {

/// The text `str::parse::<u64>` gives as its error for `s` (its `Display`
/// form).
pub uninterp spec fn u64_parse_error_text(s: Seq<char>) -> Seq<char>;

/// `s.parse::<u64>()`'s error shown with `to_string` (the empty text where
/// the parse succeeds). The wording of std's error is named, not restated.
#[verifier::external_body]
fn u64_parse_error(s: &str) -> (r: String)
    ensures
        r@ == u64_parse_error_text(s@),
{
    match s.parse::<u64>() {
        Ok(_) => String::new(),
        Err(e) => e.to_string(),
    }
}

/// A player id as stored in a text column.
pub fn player_id_to_text(id: PlayerId) -> (s: String)
    ensures
        s@ == decimal(id.0 as nat),
{
    u64_to_string(id.0)
}

/// A player id read back from a text column.
pub fn text_to_player_id(id: String) -> (r: Result<PlayerId, MrRollerError>)
    ensures
        match parse_u64_spec(id@) {
            Some(n) => r == Ok::<PlayerId, MrRollerError>(PlayerId(n)),
            None => r matches Err(MrRollerError::Storage(m)) && m@ == u64_parse_error_text(id@),
        },
{
    match parse_u64(id.as_str()) {
        Some(n) => Ok(PlayerId::new(n)),
        None => Err(MrRollerError::Storage(u64_parse_error(id.as_str()))),
    }
}

/// A counter stored in a `BIGINT` column; refused above `i64::MAX`.
pub fn u64_to_i64(value: u64, field: &str) -> (r: Result<i64, MrRollerError>)
    ensures
        value <= i64::MAX ==> r == Ok::<i64, MrRollerError>(value as i64),
        value > i64::MAX ==> (r matches Err(MrRollerError::Storage(m)) && m@ == field@
            + " is too large for PostgreSQL BIGINT"@),
{
    if value <= 0x7fff_ffff_ffff_ffffu64 {
        Ok(value as i64)
    } else {
        let mut m = owned(field);
        push_str(&mut m, " is too large for PostgreSQL BIGINT");
        Err(MrRollerError::Storage(m))
    }
}

/// A counter read back from a `BIGINT` column; refused when negative.
pub fn i64_to_u64(value: i64, field: &str) -> (r: Result<u64, MrRollerError>)
    ensures
        value >= 0 ==> r == Ok::<u64, MrRollerError>(value as u64),
        value < 0 ==> (r matches Err(MrRollerError::Storage(m)) && m@ == field@ + " is negative"@),
{
    if value >= 0 {
        Ok(value as u64)
    } else {
        let mut m = owned(field);
        push_str(&mut m, " is negative");
        Err(MrRollerError::Storage(m))
    }
}

/// The two's-complement reading of a `u64` as an `i64`.
pub open spec fn as_signed(n: u64) -> i64 {
    if n <= i64::MAX {
        n as i64
    } else {
        (n - 0x1_0000_0000_0000_0000) as i64
    }
}

/// The two's-complement reading of an `i64` as a `u64`.
pub open spec fn as_unsigned(n: i64) -> u64 {
    if n >= 0 {
        n as u64
    } else {
        (n + 0x1_0000_0000_0000_0000) as u64
    }
}

/// A player id stored in an `INTEGER` column: the bits reinterpreted.
pub fn player_id_to_i64(id: PlayerId) -> (r: i64)
    ensures
        r == as_signed(id.0),
{
    if id.0 <= 0x7fff_ffff_ffff_ffffu64 {
        id.0 as i64
    } else {
        let below: u64 = id.0 - 0x8000_0000_0000_0000u64;
        let r: i64 = below as i64 - 0x7fff_ffff_ffff_ffffi64 - 1;
        r
    }
}

/// A player id read back from an `INTEGER` column: the bits reinterpreted.
pub fn i64_to_player_id(id: i64) -> (r: PlayerId)
    ensures
        r == PlayerId(as_unsigned(id)),
{
    if id >= 0 {
        PlayerId::new(id as u64)
    } else {
        let above: i64 = id + 0x7fff_ffff_ffff_ffffi64 + 1;
        PlayerId::new(above as u64 + 0x8000_0000_0000_0000u64)
    }
}

/// A Discord snowflake read from a text column.
pub fn parse_snowflake(value: String, field: &str) -> (r: Result<u64, String>)
    ensures
        match parse_u64_spec(value@) {
            Some(n) => r == Ok::<u64, String>(n),
            None => r matches Err(m) && m@ == "invalid "@ + field@ + " snowflake "@ + value@ + ": "@
                + u64_parse_error_text(value@),
        },
{
    match parse_u64(value.as_str()) {
        Some(n) => Ok(n),
        None => {
            let mut m = owned("invalid ");
            push_str(&mut m, field);
            push_str(&mut m, " snowflake ");
            push_str(&mut m, value.as_str());
            push_str(&mut m, ": ");
            let e = u64_parse_error(value.as_str());
            push_str(&mut m, e.as_str());
            Err(m)
        },
    }
}

} // verus!
