//! Decimal numbers as text, and other helpers on character sequences.

use vstd::prelude::*;
use vstd::string::*;

verus! {

/// `String::push` of std: "Appends the given `char` to the end of this `String`."
pub assume_specification[ String::push ](s: &mut String, c: char)
    ensures
        final(s)@ == old(s)@.push(c),
;

/// The texts of a sequence of strings.
pub open spec fn texts(v: Seq<String>) -> Seq<Seq<char>> {
    v.map_values(|s: String| s@)
}

/// Whether `c` is one of `0` to `9`.
pub open spec fn is_digit(c: char) -> bool {
    '0' <= c <= '9'
}

/// The character that writes the digit `d`.
pub open spec fn digit_char(d: nat) -> char {
    ('0' as nat + d) as char
}

/// The number that a digit stands for.
pub open spec fn digit_value(c: char) -> nat {
    (c as int - '0' as int) as nat
}

/// `n` in base ten, most significant digit first, without leading zeros.
pub open spec fn decimal(n: nat) -> Seq<char>
    decreases n,
{
    if n < 10 {
        seq![digit_char(n)]
    } else {
        decimal(n / 10).push(digit_char(n % 10))
    }
}

/// The number that a sequence of digits writes in base ten; 0 for no digits.
pub open spec fn digits_value(s: Seq<char>) -> nat
    decreases s.len(),
{
    if s.len() == 0 {
        0
    } else {
        10 * digits_value(s.drop_last()) + digit_value(s.last())
    }
}

/// Whether every character of `s` is a digit.
pub open spec fn all_digits(s: Seq<char>) -> bool {
    forall|i: int| 0 <= i < s.len() ==> is_digit(#[trigger] s[i])
}

/// `s` without one leading plus sign, where it has one.
pub open spec fn without_plus(s: Seq<char>) -> Seq<char> {
    if s.len() > 0 && s[0] == '+' {
        s.skip(1)
    } else {
        s
    }
}

/// The `u16` that `s` writes: an optional plus sign and at least one digit, with
/// a value that fits. Anything else writes none.
pub open spec fn u16_of(s: Seq<char>) -> Option<u16> {
    let digits = without_plus(s);
    if digits.len() > 0 && all_digits(digits) && digits_value(digits) <= u16::MAX {
        Some(digits_value(digits) as u16)
    } else {
        None
    }
}

/// `n` in base ten.
pub fn u32_to_text(n: u32) -> (res: String)
    ensures
        res@ == decimal(n as nat),
    decreases n,
{
    let mut res = if n < 10 {
        String::new()
    } else {
        u32_to_text(n / 10)
    };
    let d: u8 = (n % 10) as u8;
    res.push((48 + d) as char);
    proof {
        if n < 10 {
            assert(res@ =~= decimal(n as nat));
        }
    }
    res
}

/// `n` in base ten.
pub fn u16_to_text(n: u16) -> (res: String)
    ensures
        res@ == decimal(n as nat),
{
    u32_to_text(n as u32)
}

/// The characters of `s`, one by one.
pub fn chars_of(s: &str) -> (res: Vec<char>)
    ensures
        res@ == s@,
{
    let mut res: Vec<char> = Vec::new();
    for c in rest: s.chars()
        invariant
            rest.seq() == s@,
            res@ == s@.take(rest.index() as int),
    {
        res.push(c);
    }
    res
}

/// Reads a `u16` written in base ten.
pub fn parse_u16(s: &str) -> (res: Option<u16>)
    ensures
        res == u16_of(s@),
{
    let chars = chars_of(s);
    let start: usize = if chars.len() > 0 && chars[0] == '+' {
        1
    } else {
        0
    };
    let ghost digits = without_plus(s@);
    assert(digits =~= chars@.skip(start as int));
    if start == chars.len() {
        return None;
    }
    let mut value: u32 = 0;
    let mut i: usize = start;
    while i < chars.len()
        invariant
            start <= i <= chars.len(),
            digits == without_plus(s@),
            digits == chars@.skip(start as int),
            all_digits(digits.take(i - start)),
            value <= u16::MAX ==> digits_value(digits.take(i - start)) == value,
            value > u16::MAX ==> digits_value(digits.take(i - start)) > u16::MAX,
        decreases chars.len() - i,
    {
        let c = chars[i];
        assert(c == digits[i - start]);
        if c < '0' || c > '9' {
            return None;
        }
        assert(digits.take(i + 1 - start).drop_last() =~= digits.take(i - start));
        if value <= 65535 {
            value = value * 10 + (c as u32 - 48);
        }
        i = i + 1;
    }
    assert(digits.take(digits.len() as int) =~= digits);
    if value <= 65535 {
        Some(value as u16)
    } else {
        None
    }
}

/// The place of the first `needle` in `chars`.
pub fn first_place(chars: &Vec<char>, needle: char) -> (res: Option<usize>)
    ensures
        match res {
            Some(i) => chars@.index_of_first(needle) == Some(i as int) && i < chars@.len(),
            None => chars@.index_of_first(needle) is None,
        },
{
    let mut i: usize = 0;
    while i < chars.len()
        invariant
            i <= chars.len(),
            forall|j: int| 0 <= j < i ==> chars@[j] != needle,
        decreases chars.len() - i,
    {
        if chars[i] == needle {
            proof {
                chars@.index_of_first_ensures(needle);
                assert(chars@.contains(needle));
            }
            return Some(i);
        }
        i = i + 1;
    }
    proof {
        chars@.index_of_first_ensures(needle);
    }
    None
}

/// A number in base ten is written in digits alone, at least one, and they write that
/// number.
pub proof fn lemma_decimal_digits(n: nat)
    ensures
        decimal(n).len() > 0,
        all_digits(decimal(n)),
        digits_value(decimal(n)) == n,
    decreases n,
{
    if n < 10 {
        reveal_with_fuel(digits_value, 2);
        assert(decimal(n).drop_last() =~= Seq::<char>::empty());
    } else {
        lemma_decimal_digits(n / 10);
        assert(decimal(n).drop_last() =~= decimal(n / 10));
    }
}

/// A number written in base ten reads back as itself.
pub proof fn law_decimal_reads_back(n: u16)
    ensures
        u16_of(decimal(n as nat)) == Some(n),
{
    lemma_decimal_digits(n as nat);
}

/// A plus sign in front of a number changes nothing.
pub proof fn law_plus_sign_is_ignored(n: u16)
    ensures
        u16_of(seq!['+'] + decimal(n as nat)) == Some(n),
{
    lemma_decimal_digits(n as nat);
    assert((seq!['+'] + decimal(n as nat)).skip(1) =~= decimal(n as nat));
}

/// Two different numbers are written differently.
pub proof fn law_decimal_is_injective(m: u16, n: u16)
    requires
        decimal(m as nat) == decimal(n as nat),
    ensures
        m == n,
{
    law_decimal_reads_back(m);
    law_decimal_reads_back(n);
}

/// A list of texts has the text of each string, in its place.
pub proof fn law_texts_are_those_of_the_strings(v: Seq<String>)
    ensures
        texts(v).len() == v.len(),
        forall|i: int| 0 <= i < v.len() ==> (#[trigger] texts(v)[i]) == v[i]@,
{
}

/// The last character that writes a number is its last digit, and the ones before write
/// the number without it.
pub proof fn law_number_is_written_by_its_digits(n: nat)
    ensures
        decimal(n).len() > 0,
        decimal(n).last() as int == '0' as int + n % 10,
        n < 10 ==> decimal(n).len() == 1,
        n >= 10 ==> decimal(n).drop_last() == decimal(n / 10),
{
    lemma_decimal_digits(n);
    if n >= 10 {
        assert(decimal(n).drop_last() =~= decimal(n / 10));
    }
}

/// Neither nothing nor a plus sign alone is a number, and of the single characters only
/// the ten digits are, each the one that it shows.
pub proof fn law_single_digits_are_numbers(c: char)
    ensures
        u16_of(Seq::empty()) is None,
        u16_of(seq!['+']) is None,
        '0' <= c <= '9' ==> u16_of(seq![c]) == Some((c as int - '0' as int) as u16),
        !('0' <= c <= '9') ==> u16_of(seq![c]) is None,
{
    reveal_with_fuel(digits_value, 2);
    assert(seq!['+'].skip(1) =~= Seq::<char>::empty());
    let one = seq![c];
    assert(one.drop_last() =~= Seq::<char>::empty());
    assert(one[0] == c);
    if '0' <= c <= '9' {
        assert(without_plus(one) == one);
    } else if c != '+' {
        assert(!is_digit(one[0]));
    }
}

/// A further digit makes ten times the number and that digit, as far as the result fits. A
/// further character of any other kind, or anything further behind what is no number, makes
/// no number.
pub proof fn law_further_characters_of_a_number(s: Seq<char>, c: char)
    requires
        s.len() > 0,
        s != seq!['+'],
    ensures
        !('0' <= c <= '9') ==> u16_of(s.push(c)) is None,
        u16_of(s) is None ==> u16_of(s.push(c)) is None,
        '0' <= c <= '9' && u16_of(s) is Some ==> u16_of(s.push(c)) == (if 10 * u16_of(s)->0 + (
        c as int - '0' as int) <= 65535 {
            Some((10 * u16_of(s)->0 + (c as int - '0' as int)) as u16)
        } else {
            None
        }),
{
    let digits = without_plus(s);
    let longer = without_plus(s.push(c));
    if s[0] == '+' && s.len() == 1 {
        assert(s =~= seq!['+']);
    }
    assert(longer =~= digits.push(c));
    assert(longer.drop_last() =~= digits);
    assert(longer.last() == c);
    assert(longer[digits.len() as int] == c);
    if all_digits(longer) {
        assert forall|i: int| 0 <= i < digits.len() implies is_digit(#[trigger] digits[i]) by {
            assert(longer[i] == digits[i]);
        }
    } else if all_digits(digits) && '0' <= c <= '9' {
        let i = choose|i: int| 0 <= i < longer.len() && !is_digit(#[trigger] longer[i]);
        if i < digits.len() {
            assert(is_digit(digits[i]));
        }
    }
}

/// One plus sign in front changes nothing; a second one makes no number.
pub proof fn law_one_plus_sign_at_most(s: Seq<char>)
    ensures
        s.len() == 0 || s[0] != '+' ==> u16_of(seq!['+'] + s) == u16_of(s),
        s.len() > 0 && s[0] == '+' ==> u16_of(seq!['+'] + s) is None,
{
    assert((seq!['+'] + s).skip(1) =~= s);
    if s.len() > 0 && s[0] == '+' {
        assert(!is_digit(s[0]));
    }
}

} // verus!
