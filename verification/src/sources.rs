//! The game's outside sources: random numbers, fresh identifiers and the
//! clock. Each item here makes one call into `rand`, `uuid` or `chrono`.

use vstd::prelude::*;
use rand::Rng;

verus! {

/// The earliest instant `chrono::DateTime<Utc>` can hold, in microseconds
/// since the Unix epoch (year -262143, January 1st, midnight).
pub const MIN_UTC_MICROS: i64 = -8334601315200000000;

/// The latest instant `chrono::DateTime<Utc>` can hold, in microseconds since
/// the Unix epoch (year 262142, December 31st, 23:59:59.999999).
pub const MAX_UTC_MICROS: i64 = 8210266876799999999;

/// `rand::thread_rng().gen_range(low..=high)`: a uniformly chosen value of
/// the closed range. rand panics on an empty range, so `low <= high` is
/// required; the value drawn is only known to lie in the range.
#[verifier::external_body]
pub(crate) fn random_in_range(low: u32, high: u32) -> (r: u32)
    requires
        low <= high,
    ensures
        low <= r <= high,
{
    rand::thread_rng().gen_range(low..=high)
}

/// `rand::thread_rng().gen_range(0..bound)`: a uniformly chosen value below
/// `bound`. rand panics on an empty range, so `bound > 0` is required.
#[verifier::external_body]
pub(crate) fn random_below(bound: u32) -> (r: u32)
    requires
        bound > 0,
    ensures
        r < bound,
{
    rand::thread_rng().gen_range(0..bound)
}

/// `rand::thread_rng().gen_ratio(numerator, denominator)`: `true` with
/// probability `numerator / denominator`. rand panics when the denominator is
/// zero or below the numerator; its documentation promises `false` for a zero
/// numerator and `true` when numerator and denominator are equal. Nothing else
/// is known of a single draw.
#[verifier::external_body]
pub(crate) fn random_ratio(numerator: u32, denominator: u32) -> (r: bool)
    requires
        0 < denominator,
        numerator <= denominator,
    ensures
        numerator == 0 ==> !r,
        numerator == denominator ==> r,
{
    rand::thread_rng().gen_ratio(numerator, denominator)
}

/// `uuid::Uuid::new_v4().as_u128()`: a fresh random identifier. Nothing is
/// promised of its value; two draws may in principle coincide.
#[verifier::external_body]
pub(crate) fn new_uuid() -> (r: u128) {
    uuid::Uuid::new_v4().as_u128()
}

/// The value `uuid::Uuid::parse_str` gives for a text, as a `u128`; `None`
/// where the text is not a UUID in one of the forms the crate accepts.
pub uninterp spec fn uuid_parse(s: Seq<char>) -> Option<u128>;

/// `uuid::Uuid::parse_str(s).ok()`, the identifier taken as a `u128`. The
/// result is named by `uuid_parse`; the grammar of accepted forms is not
/// restated here.
#[verifier::external_body]
pub(crate) fn parse_uuid(s: &str) -> (r: Option<u128>)
    ensures
        r == uuid_parse(s@),
{
    match uuid::Uuid::parse_str(s) {
        Ok(id) => Some(id.as_u128()),
        Err(_) => None,
    }
}

/// The text `uuid` writes for a UUID with `Display`: the hyphenated,
/// lower-case form.
pub uninterp spec fn uuid_text(id: u128) -> Seq<char>;

/// `uuid::Uuid::from_u128(id).to_string()`: the hyphenated lower-case form
/// of the id (fmt.rs writes it through `as_hyphenated`), named `uuid_text`.
/// `Uuid::parse_str` reads that 36-character form back to the same id
/// (parser.rs, `parse_hyphenated`). The characters of the text are not
/// restated.
#[verifier::external_body]
pub(crate) fn uuid_to_string(id: u128) -> (s: String)
    ensures
        s@ == uuid_text(id),
        uuid_parse(s@) == Some(id),
{
    uuid::Uuid::from_u128(id).to_string()
}

/// The RFC 3339 text chrono writes for the UTC instant `micros`
/// microseconds after the Unix epoch, where chrono can hold that instant.
pub uninterp spec fn rfc3339_text(micros: i64) -> Option<Seq<char>>;

/// `chrono::DateTime::from_timestamp_micros(micros)` shown with
/// `to_rfc3339`: `None` where the instant is out of chrono's range. The
/// text is named `rfc3339_text`, not restated.
#[verifier::external_body]
pub(crate) fn rfc3339_of_micros(micros: i64) -> (r: Option<String>)
    ensures
        match r {
            Some(t) => rfc3339_text(micros) == Some(t@),
            None => rfc3339_text(micros) is None,
        },
{
    match chrono::DateTime::from_timestamp_micros(micros) {
        Some(t) => Some(t.to_rfc3339()),
        None => None,
    }
}

/// `chrono::Utc::now().timestamp_micros()`: the current time in microseconds
/// since the Unix epoch. chrono panics on a system clock before the epoch,
/// and a `DateTime<Utc>` ends at `MAX_UTC_MICROS`; nothing more is known of
/// it.
#[verifier::external_body]
pub(crate) fn now_micros() -> (r: i64)
    ensures
        0 <= r <= MAX_UTC_MICROS,
{
    chrono::Utc::now().timestamp_micros()
}

} // verus!
