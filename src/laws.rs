use crate::grammar::{
    bool_text, decimal, digit_char, entry_line, int_text, map_entries, map_text, seq_text, tabs,
};
use crate::maps::setting_entries;
use crate::project::PBXSetting;
use crate::ser::Serialize;
use indexmap::IndexMap;
use vstd::prelude::*;

verus! {

/// The value of a decimal digit character.
pub open spec fn digit_value(c: char) -> int {
    if c == '1' {
        1
    } else if c == '2' {
        2
    } else if c == '3' {
        3
    } else if c == '4' {
        4
    } else if c == '5' {
        5
    } else if c == '6' {
        6
    } else if c == '7' {
        7
    } else if c == '8' {
        8
    } else if c == '9' {
        9
    } else {
        0
    }
}

/// A plain decimal reader: the digits, most significant first.
pub open spec fn parse_decimal(s: Seq<char>) -> int
    decreases s.len(),
{
    if s.len() == 0 {
        0
    } else {
        parse_decimal(s.drop_last()) * 10 + digit_value(s.last())
    }
}

/// A plain integer reader: an optional leading `-`, then decimal digits.
pub open spec fn parse_int(s: Seq<char>) -> int {
    if s.len() > 0 && s[0] == '-' {
        -parse_decimal(s.drop_first())
    } else {
        parse_decimal(s)
    }
}

/// A plain boolean reader.
pub open spec fn parse_bool(s: Seq<char>) -> bool {
    s == bool_text(true)
}

proof fn lemma_digit(d: nat)
    requires
        d < 10,
    ensures
        digit_value(digit_char(d)) == d,
        digit_char(d) != '-',
{
}

proof fn lemma_decimal(n: nat)
    ensures
        parse_decimal(decimal(n)) == n,
        decimal(n).len() > 0,
        decimal(n)[0] != '-',
    decreases n,
{
    if n < 10 {
        lemma_digit(n);
        assert(decimal(n).drop_last() =~= Seq::<char>::empty());
        assert(parse_decimal(Seq::<char>::empty()) == 0);
        assert(decimal(n).last() == digit_char(n));
    } else {
        lemma_decimal(n / 10);
        lemma_digit(n % 10);
        assert(decimal(n).drop_last() =~= decimal(n / 10));
        assert(decimal(n).last() == digit_char(n % 10));
        assert(decimal(n)[0] == decimal(n / 10)[0]);
        assert((n / 10) * 10 + n % 10 == n);
    }
}

/// Every integer is written so that a plain decimal reader gets the same integer back.
pub proof fn lemma_int_round_trip(i: int)
    ensures
        parse_int(int_text(i)) == i,
{
    if i < 0 {
        lemma_decimal((-i) as nat);
        assert((seq!['-'] + decimal((-i) as nat)).drop_first() =~= decimal((-i) as nat));
    } else {
        lemma_decimal(i as nat);
    }
}

/// Every boolean is written so that a plain reader gets the same boolean back.
pub proof fn lemma_bool_round_trip(b: bool)
    ensures
        parse_bool(bool_text(b)) == b,
{
    if !b {
        assert(bool_text(false).len() != bool_text(true).len());
    }
}

/// An empty sequence is `(`, a line break with the indentation of its own depth, and `)`.
pub proof fn lemma_empty_sequence<T: Serialize>(v: Vec<T>, depth: nat)
    requires
        v@.len() == 0,
    ensures
        v.text(depth) == seq!['(', '\n'] + tabs(depth) + seq![')'],
        seq_text(Seq::empty(), depth) == seq!['(', '\n'] + tabs(depth) + seq![')'],
{
    assert(v.text(depth) =~= seq!['(', '\n'] + tabs(depth) + seq![')']);
    assert(seq_text(Seq::empty(), depth) =~= seq!['(', '\n'] + tabs(depth) + seq![')']);
}

/// An empty settings map, like any empty map, is `{`, a line break with the indentation
/// of its own depth, and `}`.
pub proof fn lemma_empty_settings(m: IndexMap<String, PBXSetting>, depth: nat)
    requires
        setting_entries(m).len() == 0,
    ensures
        m.text(depth) == seq!['{', '\n'] + tabs(depth) + seq!['}'],
        map_text(Seq::empty(), depth) == seq!['{', '\n'] + tabs(depth) + seq!['}'],
{
    assert(m.text(depth) =~= seq!['{', '\n'] + tabs(depth) + seq!['}']);
    assert(map_text(Seq::empty(), depth) =~= seq!['{', '\n'] + tabs(depth) + seq!['}']);
}

proof fn lemma_map_entries_append(
    a: Seq<(Seq<char>, Seq<char>)>,
    b: Seq<(Seq<char>, Seq<char>)>,
    depth: nat,
)
    ensures
        map_entries(a + b, depth) == map_entries(a, depth) + map_entries(b, depth),
    decreases b.len(),
{
    if b.len() == 0 {
        assert(a + b =~= a);
        assert(map_entries(a, depth) + map_entries(b, depth) =~= map_entries(a, depth));
    } else {
        lemma_map_entries_append(a, b.drop_last(), depth);
        assert((a + b).drop_last() =~= a + b.drop_last());
        assert((a + b).last() == b.last());
        assert(map_entries(a + b, depth) =~= map_entries(a, depth) + map_entries(b, depth));
    }
}

/// The entries of a map or record are written in their given order, never reordered:
/// the `k`-th entry's line stands after the lines of all entries before it and before
/// the lines of all entries after it.
pub proof fn lemma_entries_in_order(entries: Seq<(Seq<char>, Seq<char>)>, k: int, depth: nat)
    requires
        0 <= k < entries.len(),
    ensures
        map_entries(entries, depth) == map_entries(entries.take(k), depth) + entry_line(
            entries[k].0,
            entries[k].1,
            depth,
        ) + map_entries(entries.skip(k + 1), depth),
{
    let before = entries.take(k);
    let one = seq![entries[k]];
    let after = entries.skip(k + 1);
    assert(entries =~= before + one + after);
    lemma_map_entries_append(before + one, after, depth);
    lemma_map_entries_append(before, one, depth);
    assert(one.drop_last() =~= Seq::<(Seq<char>, Seq<char>)>::empty());
    assert(map_entries(Seq::<(Seq<char>, Seq<char>)>::empty(), depth) == Seq::<char>::empty());
    assert(one.last() == entries[k]);
    assert(map_entries(one, depth) =~= entry_line(entries[k].0, entries[k].1, depth));
}

/// Encoding is a function of the value alone: two encodings of one value are the same text.
pub proof fn lemma_encoding_repeatable<T: Serialize>(v: T, first: Seq<char>, second: Seq<char>)
    requires
        first == v.text(0),
        second == v.text(0),
    ensures
        first == second,
{
}

} // verus!
