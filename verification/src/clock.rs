//! The local clock and the business numbers made from it.
use vstd::prelude::*;
use chrono::Local;
use uuid::Uuid;
use crate::calendar::{is_valid_date, year_text};
use crate::digest::is_lower_hex_digit;
use crate::numtext::pad2_text;
use crate::text::concat_str;

verus! {

/// A time of day as chrono gives it: the second is 60 only during a leap
/// second.
pub open spec fn is_valid_time(h: int, mi: int, s: int) -> bool {
    0 <= h < 24 && 0 <= mi < 60 && 0 <= s <= 60
}

/// chrono's `%Y-%m-%d %H:%M:%S`.
pub open spec fn local_time_text(y: int, mo: int, d: int, h: int, mi: int, s: int) -> Seq<char> {
    year_text(y) + "-"@ + pad2_text(mo as nat) + "-"@ + pad2_text(d as nat) + " "@ + pad2_text(
        h as nat,
    ) + ":"@ + pad2_text(mi as nat) + ":"@ + pad2_text(s as nat)
}

/// chrono's `%Y-%m`.
pub open spec fn month_text(y: int, mo: int) -> Seq<char> {
    year_text(y) + "-"@ + pad2_text(mo as nat)
}

/// chrono's `%Y%m%d%H%M%S`.
pub open spec fn compact_time_text(y: int, mo: int, d: int, h: int, mi: int, s: int) -> Seq<
    char,
> {
    year_text(y) + pad2_text(mo as nat) + pad2_text(d as nat) + pad2_text(h as nat) + pad2_text(
        mi as nat,
    ) + pad2_text(s as nat)
}

/// chrono's `%Y%m%d_%H%M%S`.
pub open spec fn backup_time_text(y: int, mo: int, d: int, h: int, mi: int, s: int) -> Seq<
    char,
> {
    year_text(y) + pad2_text(mo as nat) + pad2_text(d as nat) + "_"@ + pad2_text(h as nat)
        + pad2_text(mi as nat) + pad2_text(s as nat)
}

/// `t` is some moment written as "YYYY-MM-DD HH:MM:SS".
pub open spec fn is_local_time_text(t: Seq<char>) -> bool {
    exists|y: int, mo: int, d: int, h: int, mi: int, s: int|
        is_valid_date(y, mo, d) && is_valid_time(h, mi, s) && t == #[trigger] local_time_text(
            y,
            mo,
            d,
            h,
            mi,
            s,
        )
}

/// `t` is some month written as "YYYY-MM".
pub open spec fn is_month_text(t: Seq<char>) -> bool {
    exists|y: int, mo: int| is_valid_date(y, mo, 1) && t == #[trigger] month_text(y, mo)
}

/// `t` is some moment written as "YYYYMMDDHHMMSS".
pub open spec fn is_compact_time_text(t: Seq<char>) -> bool {
    exists|y: int, mo: int, d: int, h: int, mi: int, s: int|
        is_valid_date(y, mo, d) && is_valid_time(h, mi, s) && t == #[trigger] compact_time_text(
            y,
            mo,
            d,
            h,
            mi,
            s,
        )
}

/// `t` is some moment written as "YYYYMMDD_HHMMSS".
pub open spec fn is_backup_time_text(t: Seq<char>) -> bool {
    exists|y: int, mo: int, d: int, h: int, mi: int, s: int|
        is_valid_date(y, mo, d) && is_valid_time(h, mi, s) && t == #[trigger] backup_time_text(
            y,
            mo,
            d,
            h,
            mi,
            s,
        )
}

/// `u` is a UUID in its simple form: 32 lowercase hexadecimal digits.
pub open spec fn is_uuid_simple_text(u: Seq<char>) -> bool {
    u.len() == 32 && forall|i: int| 0 <= i < 32 ==> is_lower_hex_digit(#[trigger] u[i])
}

/// The local time as "YYYY-MM-DD HH:MM:SS" (`Local::now` from `chrono`,
/// formatted by chrono). Trusted: the text is a valid date and time of day in
/// that format; which moment it is depends on the clock and is not stated.
#[verifier::external_body]
pub fn now_string() -> (r: String)
    ensures
        is_local_time_text(r@),
{
    Local::now().format("%Y-%m-%d %H:%M:%S").to_string()
}

/// The local month as "YYYY-MM" (`Local::now` from `chrono`, formatted by
/// chrono). Trusted: the text is a valid month in that format; which one
/// depends on the clock and is not stated.
#[verifier::external_body]
pub fn current_month() -> (r: String)
    ensures
        is_month_text(r@),
{
    Local::now().format("%Y-%m").to_string()
}

/// The local time as "YYYYMMDDHHMMSS" (`Local::now` from `chrono`, formatted by
/// chrono). Trusted: the text is a valid date and time of day in that format;
/// which moment it is depends on the clock and is not stated.
#[verifier::external_body]
fn compact_timestamp() -> (r: String)
    ensures
        is_compact_time_text(r@),
{
    Local::now().format("%Y%m%d%H%M%S").to_string()
}

/// The local time as "YYYYMMDD_HHMMSS" (`Local::now` from `chrono`, formatted
/// by chrono). Trusted: the text is a valid date and time of day in that
/// format; which moment it is depends on the clock and is not stated.
#[verifier::external_body]
fn backup_stamp() -> (r: String)
    ensures
        is_backup_time_text(r@),
{
    Local::now().format("%Y%m%d_%H%M%S").to_string()
}

/// The name of a new backup file: "club_backup_", the local time as
/// "YYYYMMDD_HHMMSS", ".db".
pub fn backup_file_name() -> (r: String)
    ensures
        exists|stamp: Seq<char>| #[trigger] is_backup_time_text(stamp) && r@ == "club_backup_"@ + stamp + ".db"@,
{
    let stamp = backup_stamp();
    assert(is_backup_time_text(stamp@));
    let head = concat_str("club_backup_", stamp.as_str());
    concat_str(head.as_str(), ".db")
}

/// A random UUID in its simple form (`Uuid::new_v4().simple()` from `uuid`).
/// Trusted: the text is 32 lowercase hexadecimal digits; which ones is chance.
#[verifier::external_body]
fn random_uuid_simple() -> (r: String)
    ensures
        is_uuid_simple_text(r@),
{
    Uuid::new_v4().simple().to_string()
}

/// A business number: the prefix, the time stamp and the unique part, one
/// after the other.
pub fn compose_business_no(prefix: &str, stamp: &str, unique: &str) -> (r: String)
    ensures
        r@ == prefix@ + stamp@ + unique@,
{
    let head = concat_str(prefix, stamp);
    concat_str(head.as_str(), unique)
}

/// A fresh business number: `prefix`, the local time as "YYYYMMDDHHMMSS" and
/// a random UUID in 32 lowercase hexadecimal digits.
pub fn make_business_no(prefix: &str) -> (r: String)
    ensures
        exists|stamp: Seq<char>, unique: Seq<char>|
            #![trigger is_compact_time_text(stamp), is_uuid_simple_text(unique)]
            is_compact_time_text(stamp) && is_uuid_simple_text(unique) && r@ == prefix@ + stamp
                + unique,
        r@.len() >= prefix@.len() + 32,
        r@.subrange(0, prefix@.len() as int) == prefix@,
        forall|i: int| r@.len() - 32 <= i < r@.len() ==> is_lower_hex_digit(#[trigger] r@[i]),
{
    let stamp = compact_timestamp();
    let unique = random_uuid_simple();
    let r = compose_business_no(prefix, stamp.as_str(), unique.as_str());
    assert(is_compact_time_text(stamp@) && is_uuid_simple_text(unique@));
    assert(r@.subrange(0, prefix@.len() as int) =~= prefix@);
    assert forall|i: int| r@.len() - 32 <= i < r@.len() implies is_lower_hex_digit(#[trigger] r@[i]) by {
        assert(r@[i] == unique@[i - (r@.len() - 32)]);
    }
    r
}

} // verus!
