//! What the supervisor draws from outside: random identifiers, random numbers and
//! the time.

use crate::text::is_digit;
use vstd::prelude::*;

verus! {

/// Whether `c` is one of `0` to `9` or `a` to `f`.
pub open spec fn is_lower_hex(c: char) -> bool {
    is_digit(c) || 'a' <= c <= 'f'
}

/// Whether `s` is the text of a random (version 4) UUID: groups of 8, 4, 4, 4 and 12
/// lower-case hexadecimal digits with hyphens between them, where the third group
/// starts with the version and the fourth with the variant.
pub open spec fn is_uuid_v4(s: Seq<char>) -> bool {
    &&& s.len() == 36
    &&& forall|i: int|
        0 <= i < 36 ==> if i == 8 || i == 13 || i == 18 || i == 23 {
            #[trigger] s[i] == '-'
        } else {
            is_lower_hex(s[i])
        }
    &&& s[14] == '4'
    &&& s[19] == '8' || s[19] == '9' || s[19] == 'a' || s[19] == 'b'
}

/// Whether every character of `s` from `from` up to but not at `to` is a digit.
pub open spec fn digits_between(s: Seq<char>, from: int, to: int) -> bool {
    forall|i: int| from <= i < to ==> is_digit(#[trigger] s[i])
}

/// Whether `s` is a date and time in UTC, such as `2024-05-01T09:30:00.250+00:00`, with
/// the `T` at `t`. The year has four digits or more, a fraction of a second has
/// three, six or nine, and none is written where it is zero.
pub open spec fn is_utc_time_around(s: Seq<char>, t: int) -> bool {
    let end = s.len() - 6;
    &&& 10 <= t
    &&& t + 9 <= end
    &&& digits_between(s, t - 10, t - 6)
    &&& s[t - 6] == '-'
    &&& digits_between(s, t - 5, t - 3)
    &&& s[t - 3] == '-'
    &&& digits_between(s, t - 2, t)
    &&& s[t] == 'T'
    &&& digits_between(s, t + 1, t + 3)
    &&& s[t + 3] == ':'
    &&& digits_between(s, t + 4, t + 6)
    &&& s[t + 6] == ':'
    &&& digits_between(s, t + 7, t + 9)
    &&& end == t + 9 || {
        &&& s[t + 9] == '.'
        &&& digits_between(s, t + 10, end)
        &&& end == t + 13 || end == t + 16 || end == t + 19
    }
    &&& s[end] == '+'
    &&& s[end + 1] == '0'
    &&& s[end + 2] == '0'
    &&& s[end + 3] == ':'
    &&& s[end + 4] == '0'
    &&& s[end + 5] == '0'
}

/// Whether `s` is a date and time in UTC, as RFC 3339 writes it.
pub open spec fn is_utc_time(s: Seq<char>) -> bool {
    exists|t: int| is_utc_time_around(s, t)
}

/// `uuid::Uuid::new_v4`, with its result written by the crate's `Display`: a random
/// UUID, of which only the form is known. The call panics where the operating system
/// gives no random bytes.
#[verifier::external_body]
pub(crate) fn new_uuid() -> (res: String)
    ensures
        is_uuid_v4(res@),
{
    uuid::Uuid::new_v4().to_string()
}

/// `rand::Rng::gen_range` on the generator of `rand::thread_rng`: some number below
/// `bound`, of which no more is known. The generator panics where the operating system
/// gives it no seed.
#[verifier::external_body]
pub(crate) fn random_below(bound: u8) -> (res: u8)
    requires
        bound > 0,
    ensures
        res < bound,
{
    rand::Rng::gen_range(&mut rand::thread_rng(), 0..bound)
}

/// `chrono::Utc::now`, with its result written by `DateTime::to_rfc3339`: the time of
/// the call, of which only the form is known. The call panics where the clock is set
/// before 1970.
#[verifier::external_body]
pub(crate) fn utc_now() -> (res: String)
    ensures
        is_utc_time(res@),
{
    chrono::Utc::now().to_rfc3339()
}

} // verus!
