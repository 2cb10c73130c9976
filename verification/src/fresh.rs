//! Values that differ on every call: the current time and random
//! identifiers.

use vstd::prelude::*;

verus! {

/// `chrono::Utc::now()` as Unix nanoseconds through
/// `DateTime::timestamp_nanos_opt`, which gives `None` only past the year
/// 2262. Nothing else is stated of the result: it is the time of the call.
#[verifier::external_body]
fn clock_nanos() -> (out: Option<i64>) {
    chrono::Utc::now().timestamp_nanos_opt()
}

/// The current time in Unix nanoseconds; a clock past the year 2262 reads
/// as the largest time that can be stored.
pub(crate) fn utc_now_nanos() -> (out: i64) {
    match clock_nanos() {
        Some(nanos) => nanos,
        None => i64::MAX,
    }
}

/// Where the hyphenated form of a UUID has its hyphens.
pub open spec fn uuid_hyphen_at(i: int) -> bool {
    i == 8 || i == 13 || i == 18 || i == 23
}

/// A UUID in the hyphenated form: 36 characters, hyphens at the group
/// boundaries and lowercase hexadecimal digits elsewhere.
pub open spec fn hyphenated_uuid(s: Seq<char>) -> bool {
    &&& s.len() == 36
    &&& forall|i: int|
        0 <= i < 36 ==> (if uuid_hyphen_at(i) {
            #[trigger] s[i] == '-'
        } else {
            lower_hex_char(s[i])
        })
}

/// `uuid::Uuid::new_v4()` in its hyphenated form. The crate writes that form
/// (`encode_lower` with hyphens) as 32 lowercase hexadecimal digits in
/// groups of 8, 4, 4, 4 and 12 joined by hyphens, so its shape is stated;
/// the digits are random.
#[verifier::external_body]
pub(crate) fn random_uuid() -> (out: String)
    ensures
        hyphenated_uuid(out@),
{
    uuid::Uuid::new_v4().to_string()
}

/// A lowercase hexadecimal digit.
pub open spec fn lower_hex_char(c: char) -> bool {
    ('0' <= c && c <= '9') || ('a' <= c && c <= 'f')
}

/// A character of a formatted time stamp: an ASCII digit, a sign or a
/// separator.
pub open spec fn stamp_char(c: char) -> bool {
    ('0' <= c && c <= '9') || c == '-' || c == '+'
}

/// `uuid::Uuid::new_v4()` in its simple form. The crate writes that form as
/// the 16 bytes in 32 lowercase hexadecimal digits (`encode_lower`), so the
/// length and the digits' kind are stated; their values are random.
#[verifier::external_body]
pub(crate) fn random_uuid_simple() -> (out: String)
    ensures
        out@.len() == 32,
        forall|i: int| 0 <= i < out@.len() ==> lower_hex_char(#[trigger] out@[i]),
{
    uuid::Uuid::new_v4().simple().to_string()
}

/// A compact UTC time stamp: year, month and day, a hyphen, then hour,
/// minute and second.
pub const COMPACT_STAMP_FORMAT: &'static str = "%Y%m%d-%H%M%S";

/// `chrono::Utc::now().format(format)`, for the compact format only (a
/// format chrono cannot read would panic when written out). chrono writes the year as at least four digits, with a sign outside 0 to 9999,
/// and the other five fields as two digits each, so the stamp has at least
/// fifteen characters, each a digit, a sign or the hyphen. Which time it
/// shows is not stated: it is the time of the call.
#[verifier::external_body]
pub(crate) fn utc_now_formatted(format: &str) -> (out: String)
    requires
        format@ == COMPACT_STAMP_FORMAT@,
    ensures
        out@.len() >= 15,
        forall|i: int| 0 <= i < out@.len() ==> stamp_char(#[trigger] out@[i]),
{
    chrono::Utc::now().format(format).to_string()
}

} // verus!
