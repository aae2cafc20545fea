use vstd::prelude::*;

verus! {

/// `n` tab characters: the indentation of one line at depth `n`.
pub open spec fn tabs(n: nat) -> Seq<char>
    decreases n,
{
    if n == 0 {
        Seq::empty()
    } else {
        tabs((n - 1) as nat).push('\t')
    }
}

/// A line break followed by the indentation of depth `depth`.
pub open spec fn newline(depth: nat) -> Seq<char> {
    seq!['\n'] + tabs(depth)
}

/// A string between double quotes, written as it is.
pub open spec fn quoted(s: Seq<char>) -> Seq<char> {
    seq!['"'] + s + seq!['"']
}

pub open spec fn digit_char(d: nat) -> char {
    if d == 0 {
        '0'
    } else if d == 1 {
        '1'
    } else if d == 2 {
        '2'
    } else if d == 3 {
        '3'
    } else if d == 4 {
        '4'
    } else if d == 5 {
        '5'
    } else if d == 6 {
        '6'
    } else if d == 7 {
        '7'
    } else if d == 8 {
        '8'
    } else {
        '9'
    }
}

/// The shortest decimal form of a natural number.
pub open spec fn decimal(n: nat) -> Seq<char>
    decreases n,
{
    if n < 10 {
        seq![digit_char(n)]
    } else {
        decimal(n / 10).push(digit_char(n % 10))
    }
}

/// The decimal form of an integer, with a leading `-` when it is negative.
pub open spec fn int_text(i: int) -> Seq<char> {
    if i < 0 {
        seq!['-'] + decimal((-i) as nat)
    } else {
        decimal(i as nat)
    }
}

pub open spec fn bool_text(b: bool) -> Seq<char> {
    if b {
        seq!['t', 'r', 'u', 'e']
    } else {
        seq!['f', 'a', 'l', 's', 'e']
    }
}

/// What an absent value and the unit value are written as.
pub open spec fn null_text() -> Seq<char> {
    seq!['n', 'u', 'l', 'l']
}

/// The elements of a sequence, each on its own line at `depth` and followed by `,`.
pub open spec fn seq_items(items: Seq<Seq<char>>, depth: nat) -> Seq<char>
    decreases items.len(),
{
    if items.len() == 0 {
        Seq::empty()
    } else {
        seq_items(items.drop_last(), depth) + newline(depth) + items.last() + seq![',']
    }
}

/// A sequence at `depth` whose elements, written one level deeper, are `items`.
pub open spec fn seq_text(items: Seq<Seq<char>>, depth: nat) -> Seq<char> {
    seq!['('] + seq_items(items, depth + 1) + newline(depth) + seq![')']
}

/// One entry of a map or a record: its own line, the key, ` = `, the value and `;`.
pub open spec fn entry_line(key: Seq<char>, value: Seq<char>, depth: nat) -> Seq<char> {
    newline(depth) + key + seq![' ', '=', ' '] + value + seq![';']
}

/// The entries of a map or record, in the given order.
pub open spec fn map_entries(entries: Seq<(Seq<char>, Seq<char>)>, depth: nat) -> Seq<char>
    decreases entries.len(),
{
    if entries.len() == 0 {
        Seq::empty()
    } else {
        map_entries(entries.drop_last(), depth) + entry_line(
            entries.last().0,
            entries.last().1,
            depth,
        )
    }
}

/// A map or record at `depth` whose entries, written one level deeper, are `entries`
/// (keys and values as already written).
pub open spec fn map_text(entries: Seq<(Seq<char>, Seq<char>)>, depth: nat) -> Seq<char> {
    seq!['{'] + map_entries(entries, depth + 1) + newline(depth) + seq!['}']
}

/// A variant that carries nothing: its name as a quoted string.
pub open spec fn unit_variant_text(name: Seq<char>) -> Seq<char> {
    quoted(name)
}

/// A variant that carries one value.
pub open spec fn newtype_variant_text(name: Seq<char>, value: Seq<char>) -> Seq<char> {
    seq!['{'] + quoted(name) + seq![':'] + value + seq!['}']
}

/// One `"name":value` pair of a variant that carries named fields.
pub open spec fn variant_field_text(name: Seq<char>, value: Seq<char>) -> Seq<char> {
    quoted(name) + seq![':'] + value
}

} // verus!
