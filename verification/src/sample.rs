//! Values drawn at random: fresh ids and made-up names, addresses and
//! numbers for records that stand in for real ones.

use crate::time::rfc3339_text;
use vstd::prelude::*;

verus! {

/// How many characters the text of a fresh id has.
pub const ID_LEN: usize = 36;

/// Draws an id with `uuid::Uuid::new_v4` and writes it with `to_string`.
/// Which id comes is left open; its text is the hyphenated form, which
/// always has thirty-six characters.
#[verifier::external_body]
pub(crate) fn fresh_id() -> (id: String)
    ensures
        id@.len() == ID_LEN,
{
    uuid::Uuid::new_v4().to_string()
}

/// Draws an address with `fake::faker::internet::en::SafeEmail`. Nothing
/// is claimed of the text.
#[verifier::external_body]
pub(crate) fn safe_email() -> String {
    fake::Fake::fake(&fake::faker::internet::en::SafeEmail())
}

/// Draws a number with `fake::faker::phone_number::en::PhoneNumber`.
/// Nothing is claimed of the text.
#[verifier::external_body]
pub(crate) fn phone_number() -> String {
    fake::Fake::fake(&fake::faker::phone_number::en::PhoneNumber())
}

/// Draws a name with `fake::faker::name::en::Name`. Nothing is claimed of
/// the text.
#[verifier::external_body]
pub(crate) fn person_name() -> String {
    fake::Fake::fake(&fake::faker::name::en::Name())
}

/// Draws a sentence of at least `least` and fewer than `most` words with
/// `fake::faker::lorem::en::Sentence`. Nothing is claimed of the text. The
/// generator draws the number of words from the range and does not return
/// where the range is empty.
#[verifier::external_body]
pub(crate) fn sentence(least: usize, most: usize) -> String
    requires
        least < most,
{
    fake::Fake::fake(&fake::faker::lorem::en::Sentence(least..most))
}

/// Draws any `i32` with `fake::Faker`.
#[verifier::external_body]
pub(crate) fn any_i32() -> i32 {
    fake::Fake::fake(&fake::Faker)
}

/// Draws a number with `fake::Fake::fake` on the range from `low` up to,
/// not including, `high`. The number lies in the range; the generator
/// does not return where the range is empty.
#[verifier::external_body]
pub(crate) fn fake_between(low: i64, high: i64) -> (n: i64)
    requires
        low < high,
    ensures
        low <= n < high,
{
    fake::Fake::fake(&(low..high))
}

/// Draws a number with `rand::Rng::gen_range` on the thread's generator,
/// from `low` up to, not including, `high`. The number lies in the range;
/// the generator does not return where the range is empty.
#[verifier::external_body]
pub(crate) fn pick_between(low: u32, high: u32) -> (n: u32)
    requires
        low < high,
    ensures
        low <= n < high,
{
    rand::Rng::gen_range(&mut rand::thread_rng(), low..high)
}

/// How many days back from now the calendar is sure to reach: a thousand
/// years of 365 days.
pub const FAR_BACK: u64 = 365_000;

/// Reads the clock with `chrono::Utc::now` and goes back `days` days with
/// `chrono::DateTime::checked_sub_days`, which gives nothing where the
/// date would leave chrono's range. The clock never reads before 1970 and
/// chrono's calendar starts more than two hundred thousand years earlier,
/// so going back up to `FAR_BACK` days always gives an instant. An instant
/// that comes back is one that chrono has, so it has its text, and its
/// nanoseconds stay under two billion.
#[verifier::external_body]
pub(crate) fn days_ago(days: u64) -> (reading: Option<(i64, u32)>)
    ensures
        match reading {
            Some(instant) => {
                &&& instant.1 < 2_000_000_000
                &&& rfc3339_text(instant.0, instant.1) is Some
            },
            None => days > FAR_BACK,
        },
{
    match chrono::Utc::now().checked_sub_days(chrono::Days::new(days)) {
        Some(at) => Some((at.timestamp(), at.timestamp_subsec_nanos())),
        None => None,
    }
}

} // verus!
