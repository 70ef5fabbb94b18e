//! What a TOML text says.
//!
//! The reading covers the part of TOML that configuration files need here: comments,
//! tables with a bare name, and in them bare keys with a string, a number or a truth value,
//! each on a line of its own. A text that holds anything else is not read.

use crate::text::{all_digits, decimal, digits_value, is_digit, lemma_decimal_digits};
use vstd::prelude::*;

verus! {

/// A text of `lines`, each ended by a line feed.
pub open spec fn joined(lines: Seq<Seq<char>>) -> Seq<char>
    decreases lines.len(),
{
    if lines.len() == 0 {
        Seq::empty()
    } else {
        lines[0] + seq!['\n'] + joined(lines.skip(1))
    }
}

/// The lines of a text, without the line feeds that end them.
pub open spec fn text_lines(s: Seq<char>) -> Seq<Seq<char>>
    decreases s.len(),
{
    if s.len() == 0 {
        Seq::empty()
    } else {
        match s.index_of_first('\n') {
            Some(i) => if 0 <= i < s.len() {
                seq![s.take(i)] + text_lines(s.skip(i + 1))
            } else {
                Seq::empty()
            },
            None => seq![s],
        }
    }
}

/// `n` blanks.
pub open spec fn blanks(n: nat) -> Seq<char> {
    Seq::new(n, |i: int| ' ')
}

/// `s` without the blanks at its end.
pub open spec fn trim_end(s: Seq<char>) -> Seq<char>
    decreases s.len(),
{
    if s.len() > 0 && s.last() == ' ' {
        trim_end(s.drop_last())
    } else {
        s
    }
}

/// `s` without the blanks at its start.
pub open spec fn trim_start(s: Seq<char>) -> Seq<char>
    decreases s.len(),
{
    if s.len() > 0 && s[0] == ' ' {
        trim_start(s.skip(1))
    } else {
        s
    }
}

/// Whether `c` can stand in a bare name or key.
pub open spec fn is_bare_char(c: char) -> bool {
    is_digit(c) || 'a' <= c <= 'z' || 'A' <= c <= 'Z' || c == '_' || c == '-'
}

/// Whether `s` can stand as a name or key without quotes.
pub open spec fn is_bare(s: Seq<char>) -> bool {
    s.len() > 0 && forall|i: int| 0 <= i < s.len() ==> is_bare_char(#[trigger] s[i])
}

/// Whether `c` stands for itself between the quotes of a string: it is no quote, no
/// backslash and, tabs apart, no control character.
pub open spec fn is_plain_char(c: char) -> bool {
    c != '"' && c != '\\' && c as int != 127 && (c as int >= 32 || c == '\t')
}

/// Whether every character of `s` stands for itself between the quotes of a string.
pub open spec fn is_plain(s: Seq<char>) -> bool {
    forall|i: int| 0 <= i < s.len() ==> is_plain_char(#[trigger] s[i])
}

/// `s` between quotes.
pub open spec fn quoted(s: Seq<char>) -> Seq<char> {
    seq!['"'] + s + seq!['"']
}

/// The value of a key.
pub enum TomlValue {
    Text(Seq<char>),
    Number(nat),
    Flag(bool),
}

/// The value that `s` writes.
pub open spec fn value_of(s: Seq<char>) -> Option<TomlValue> {
    if s == "true"@ {
        Some(TomlValue::Flag(true))
    } else if s == "false"@ {
        Some(TomlValue::Flag(false))
    } else if s.len() >= 2 && s[0] == '"' && s.last() == '"' && is_plain(
        s.subrange(1, s.len() - 1),
    ) {
        Some(TomlValue::Text(s.subrange(1, s.len() - 1)))
    } else if s.len() > 0 && all_digits(s) && (s.len() == 1 || s[0] != '0') {
        Some(TomlValue::Number(digits_value(s)))
    } else {
        None
    }
}

/// What a line is.
pub enum TomlLine {
    /// An empty line or a comment.
    Nothing,
    /// The name of the table that starts here.
    Table(Seq<char>),
    /// A key and its value.
    Setting(Seq<char>, TomlValue),
    /// Anything else.
    Other,
}

/// What `line` is.
pub open spec fn line_of(line: Seq<char>) -> TomlLine {
    if line.len() == 0 || line[0] == '#' {
        TomlLine::Nothing
    } else if line[0] == '[' {
        let name = line.subrange(1, line.len() - 1);
        if line.len() > 2 && line.last() == ']' && is_bare(name) {
            TomlLine::Table(name)
        } else {
            TomlLine::Other
        }
    } else {
        match line.index_of_first('=') {
            Some(i) => {
                let key = trim_end(line.take(i));
                match value_of(trim_start(line.skip(i + 1))) {
                    Some(value) => if is_bare(key) {
                        TomlLine::Setting(key, value)
                    } else {
                        TomlLine::Other
                    },
                    None => TomlLine::Other,
                }
            },
            None => TomlLine::Other,
        }
    }
}

/// The tables of a text, by their names, and in each the values by their keys.
pub type Document = Map<Seq<char>, Map<Seq<char>, TomlValue>>;

/// What `lines` say that follow what is in `so_far`, where `table` is the table that was
/// started last. A table must not start twice, and a key must not stand twice in a table.
pub open spec fn read_lines(
    lines: Seq<Seq<char>>,
    table: Seq<char>,
    so_far: Document,
) -> Option<Document>
    decreases lines.len(),
{
    if lines.len() == 0 {
        Some(so_far)
    } else {
        let rest = lines.skip(1);
        match line_of(lines[0]) {
            TomlLine::Nothing => read_lines(rest, table, so_far),
            TomlLine::Table(name) => if so_far.contains_key(name) {
                None
            } else {
                read_lines(rest, name, so_far.insert(name, Map::empty()))
            },
            TomlLine::Setting(key, value) => if !so_far.contains_key(table)
                || so_far[table].contains_key(key) {
                None
            } else {
                read_lines(rest, table, so_far.insert(table, so_far[table].insert(key, value)))
            },
            TomlLine::Other => None,
        }
    }
}

/// What a text says, where it can be read.
pub open spec fn read_toml(s: Seq<char>) -> Option<Document> {
    read_lines(text_lines(s), Seq::empty(), Map::empty())
}

/// A line added at the end.
pub proof fn lemma_joined_push(lines: Seq<Seq<char>>, line: Seq<char>)
    ensures
        joined(lines.push(line)) == joined(lines) + line + seq!['\n'],
    decreases lines.len(),
{
    if lines.len() == 0 {
        reveal_with_fuel(joined, 2);
        assert(lines.push(line).skip(1) =~= Seq::<Seq<char>>::empty());
    } else {
        lemma_joined_push(lines.skip(1), line);
        assert(lines.push(line).skip(1) =~= lines.skip(1).push(line));
    }
    assert(joined(lines.push(line)) =~= joined(lines) + line + seq!['\n']);
}

/// A text of lines that hold no line feed has these lines.
pub proof fn lemma_lines_of_joined(lines: Seq<Seq<char>>)
    requires
        forall|i: int| 0 <= i < lines.len() ==> !(#[trigger] lines[i]).contains('\n'),
    ensures
        text_lines(joined(lines)) == lines,
    decreases lines.len(),
{
    if lines.len() > 0 {
        let rest = lines.skip(1);
        assert forall|i: int| 0 <= i < rest.len() implies !(#[trigger] rest[i]).contains('\n') by {
            assert(rest[i] == lines[i + 1]);
        }
        lemma_lines_of_joined(rest);
        let s = joined(lines);
        let first = lines[0];
        s.index_of_first_ensures('\n');
        assert(s[first.len() as int] == '\n');
        assert(s.contains('\n'));
        let i = s.index_of_first('\n')->0;
        if i < first.len() {
            assert(first[i] == s[i]);
            assert(first.contains('\n'));
        }
        assert(s.take(i) =~= first);
        assert(s.skip(i + 1) =~= joined(rest));
        assert(seq![first] + rest =~= lines);
    }
}

proof fn lemma_trim_end(s: Seq<char>, n: nat)
    requires
        s.len() > 0,
        s.last() != ' ',
    ensures
        trim_end(s + blanks(n)) == s,
    decreases n,
{
    if n == 0 {
        assert(s + blanks(0) =~= s);
    } else {
        assert((s + blanks(n)).drop_last() =~= s + blanks((n - 1) as nat));
        lemma_trim_end(s, (n - 1) as nat);
    }
}

/// A key, some blanks, an equals sign, a blank and a value are a setting.
pub proof fn lemma_setting_line(
    line: Seq<char>,
    key: Seq<char>,
    n: nat,
    text: Seq<char>,
    value: TomlValue,
)
    requires
        line == key + blanks(n) + seq!['=', ' '] + text,
        is_bare(key),
        text.len() > 0,
        text[0] != ' ',
        value_of(text) == Some(value),
    ensures
        line_of(line) == TomlLine::Setting(key, value),
{
    let i = (key.len() + n) as int;
    line.index_of_first_ensures('=');
    assert(line[i] == '=');
    assert(line.contains('='));
    let k = line.index_of_first('=')->0;
    if k < key.len() {
        assert(line[k] == key[k]);
        assert(is_bare_char(key[k]));
    } else if k < i {
        assert(line[k] == ' ');
    }
    assert(line[0] == key[0]);
    assert(is_bare_char(key[0]));
    assert(is_bare_char(key.last()));
    assert(line.take(i) =~= key + blanks(n));
    lemma_trim_end(key, n);
    assert(line.skip(i + 1) =~= seq![' '] + text);
    assert((seq![' '] + text).skip(1) =~= text);
    reveal_with_fuel(trim_start, 2);
}

proof fn lemma_decimal_starts_without_zero(n: nat)
    ensures
        decimal(n).len() == 1 || decimal(n)[0] != '0',
        n > 0 ==> decimal(n)[0] != '0',
    decreases n,
{
    if n >= 10 {
        lemma_decimal_starts_without_zero(n / 10);
        lemma_decimal_digits(n / 10);
        assert(decimal(n)[0] == decimal(n / 10)[0]);
    }
}

/// A number in base ten is read as that number.
pub proof fn lemma_number_value(n: nat)
    ensures
        decimal(n).len() > 0,
        decimal(n)[0] != ' ',
        value_of(decimal(n)) == Some(TomlValue::Number(n)),
{
    lemma_decimal_digits(n);
    lemma_decimal_starts_without_zero(n);
    assert(is_digit(decimal(n)[0]));
    reveal_strlit("true");
    reveal_strlit("false");
    assert("true"@[0] == 't');
    assert("false"@[0] == 'f');
}

/// A quoted string is read as that string.
pub proof fn lemma_text_value(s: Seq<char>)
    requires
        is_plain(s),
    ensures
        quoted(s).len() > 0,
        quoted(s)[0] != ' ',
        value_of(quoted(s)) == Some(TomlValue::Text(s)),
{
    assert(quoted(s).subrange(1, quoted(s).len() - 1) =~= s);
    reveal_strlit("true");
    reveal_strlit("false");
    assert("true"@[0] == 't');
    assert("false"@[0] == 'f');
}

/// Reading goes past a line that says nothing.
pub proof fn lemma_read_nothing(lines: Seq<Seq<char>>, k: int, table: Seq<char>, so_far: Document)
    requires
        0 <= k < lines.len(),
        line_of(lines[k]) == TomlLine::Nothing,
    ensures
        read_lines(lines.skip(k), table, so_far) == read_lines(lines.skip(k + 1), table, so_far),
{
    assert(lines.skip(k).skip(1) =~= lines.skip(k + 1));
}

/// Reading goes past the start of a new table.
pub proof fn lemma_read_table(
    lines: Seq<Seq<char>>,
    k: int,
    table: Seq<char>,
    so_far: Document,
    name: Seq<char>,
)
    requires
        0 <= k < lines.len(),
        line_of(lines[k]) == TomlLine::Table(name),
        !so_far.contains_key(name),
    ensures
        read_lines(lines.skip(k), table, so_far) == read_lines(
            lines.skip(k + 1),
            name,
            so_far.insert(name, Map::empty()),
        ),
{
    assert(lines.skip(k).skip(1) =~= lines.skip(k + 1));
}

/// Reading goes past a new key of the table that was started last.
pub proof fn lemma_read_setting(
    lines: Seq<Seq<char>>,
    k: int,
    table: Seq<char>,
    before: Document,
    settings: Map<Seq<char>, TomlValue>,
    key: Seq<char>,
    value: TomlValue,
)
    requires
        0 <= k < lines.len(),
        line_of(lines[k]) == TomlLine::Setting(key, value),
        !settings.contains_key(key),
    ensures
        read_lines(lines.skip(k), table, before.insert(table, settings)) == read_lines(
            lines.skip(k + 1),
            table,
            before.insert(table, settings.insert(key, value)),
        ),
{
    assert(lines.skip(k).skip(1) =~= lines.skip(k + 1));
    let so_far = before.insert(table, settings);
    assert(so_far.insert(table, so_far[table].insert(key, value)) =~= before.insert(
        table,
        settings.insert(key, value),
    ));
}

} // verus!
