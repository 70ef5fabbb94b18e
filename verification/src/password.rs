//! Random passwords of letters and digits.

use crate::source::random_below;
use crate::text::is_digit;
use vstd::prelude::*;

verus! {

/// How many characters a password can be made of.
pub const ALPHABET_SIZE: u8 = 62;

/// Whether `c` is one of `0` to `9`, `a` to `z` or `A` to `Z`.
pub open spec fn is_letter_or_digit(c: char) -> bool {
    is_digit(c) || 'a' <= c <= 'z' || 'A' <= c <= 'Z'
}

/// The character with the number `idx`: the digits come first, then the lower-case
/// letters, then the upper-case ones.
pub open spec fn alphabet(idx: u8) -> char
    recommends
        idx < ALPHABET_SIZE,
{
    if idx <= 9 {
        ('0' as u8 + idx) as char
    } else if idx <= 35 {
        ('a' as u8 + (idx - 10)) as char
    } else {
        ('A' as u8 + (idx - 36)) as char
    }
}

/// The character with the number `idx`.
pub fn password_char(idx: u8) -> (res: char)
    requires
        idx < ALPHABET_SIZE,
    ensures
        res == alphabet(idx),
{
    if idx <= 9 {
        (48 + idx) as char
    } else if idx <= 35 {
        (97 + idx - 10) as char
    } else {
        (65 + idx - 36) as char
    }
}

/// The password that a sequence of character numbers stands for.
pub fn password_of(numbers: &Vec<u8>) -> (res: String)
    requires
        forall|i: int| 0 <= i < numbers@.len() ==> (#[trigger] numbers@[i]) < ALPHABET_SIZE,
    ensures
        res@ == numbers@.map_values(|idx: u8| alphabet(idx)),
{
    let mut res = String::new();
    let mut i: usize = 0;
    while i < numbers.len()
        invariant
            i <= numbers@.len(),
            forall|j: int| 0 <= j < numbers@.len() ==> (#[trigger] numbers@[j]) < ALPHABET_SIZE,
            res@ == numbers@.take(i as int).map_values(|idx: u8| alphabet(idx)),
        decreases numbers@.len() - i,
    {
        res.push(password_char(numbers[i]));
        i = i + 1;
        assert(res@ =~= numbers@.take(i as int).map_values(|idx: u8| alphabet(idx)));
    }
    assert(numbers@.take(i as int) =~= numbers@);
    res
}

/// A password of `len` characters, each drawn at random.
pub fn generate_password(len: usize) -> (res: String)
    ensures
        res@.len() == len,
        forall|i: int| 0 <= i < len ==> is_letter_or_digit(#[trigger] res@[i]),
{
    let mut numbers: Vec<u8> = Vec::new();
    while numbers.len() < len
        invariant
            numbers@.len() <= len,
            forall|i: int| 0 <= i < numbers@.len() ==> (#[trigger] numbers@[i]) < ALPHABET_SIZE,
        decreases len - numbers@.len(),
    {
        numbers.push(random_below(ALPHABET_SIZE));
    }
    password_of(&numbers)
}

/// The number of a letter or digit in the alphabet.
pub open spec fn alphabet_number(c: char) -> int {
    if is_digit(c) {
        c as int - '0' as int
    } else if 'a' <= c <= 'z' {
        c as int - 'a' as int + 10
    } else {
        c as int - 'A' as int + 36
    }
}

/// The alphabet holds every letter and digit once, and nothing else.
pub proof fn law_alphabet(idx: u8, c: char)
    ensures
        idx < ALPHABET_SIZE ==> is_letter_or_digit(alphabet(idx)) && alphabet_number(alphabet(idx))
            == idx,
        is_letter_or_digit(c) ==> 0 <= alphabet_number(c) < ALPHABET_SIZE && alphabet(
            alphabet_number(c) as u8,
        ) == c,
{
}

/// What counts as a letter or digit, and the characters that the numbers from 0 to 61 stand
/// for: the digits, then the small letters, then the capital ones, each in order.
pub proof fn law_alphabet_is_in_order(idx: u8, c: char)
    ensures
        is_letter_or_digit(c) <==> '0' <= c <= '9' || 'a' <= c <= 'z' || 'A' <= c <= 'Z',
        idx < 10 ==> alphabet(idx) as int == '0' as int + idx,
        10 <= idx < 36 ==> alphabet(idx) as int == 'a' as int + (idx - 10),
        36 <= idx < 62 ==> alphabet(idx) as int == 'A' as int + (idx - 36),
{
}

} // verus!
