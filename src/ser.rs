use crate::grammar::{bool_text, decimal, digit_char, entry_line, int_text, map_entries, newline, newtype_variant_text, null_text, quoted, seq_items, seq_text, tabs, unit_variant_text, variant_field_text};
use vstd::prelude::*;
use vstd::string::StringExecFns;

verus! {

/// The writer: an output buffer and the current indentation depth.
pub struct Serializer {
    indent_level: usize,
    output: String,
}

/// The one failure that encoding can report.
#[derive(Debug, Clone, Copy, PartialEq, Eq)]
pub struct Error;

impl Error {
    /// The text that describes the failure.
    pub fn message(&self) -> (r: String)
        ensures
            r@ == seq!['E', 'r', 'r', 'o', 'r'],
    {
        proof {
            reveal_strlit("Error");
        }
        String::from_str("Error")
    }
}

/// Relies on `String::push`: the character is added at the end.
#[verifier::external_body]
fn push_char(s: &mut String, c: char)
    ensures
        final(s)@ == old(s)@.push(c),
{
    s.push(c)
}

/// The one-character string of a decimal digit.
fn digit_str(d: u64) -> (r: &'static str)
    requires
        d < 10,
    ensures
        r@ == seq![digit_char(d as nat)],
{
    proof {
        reveal_strlit("0");
        reveal_strlit("1");
        reveal_strlit("2");
        reveal_strlit("3");
        reveal_strlit("4");
        reveal_strlit("5");
        reveal_strlit("6");
        reveal_strlit("7");
        reveal_strlit("8");
        reveal_strlit("9");
    }
    if d == 0 {
        "0"
    } else if d == 1 {
        "1"
    } else if d == 2 {
        "2"
    } else if d == 3 {
        "3"
    } else if d == 4 {
        "4"
    } else if d == 5 {
        "5"
    } else if d == 6 {
        "6"
    } else if d == 7 {
        "7"
    } else if d == 8 {
        "8"
    } else {
        "9"
    }
}

impl Serializer {
    /// What has been written so far.
    pub closed spec fn written(&self) -> Seq<char> {
        self.output@
    }

    /// The current indentation depth.
    pub closed spec fn depth(&self) -> nat {
        self.indent_level as nat
    }

    /// A writer with nothing written, at depth zero.
    pub fn new() -> (r: Serializer)
        ensures
            r.written() == Seq::<char>::empty(),
            r.depth() == 0,
    {
        Serializer { indent_level: 0, output: String::new() }
    }

    /// Hands out what has been written.
    pub fn into_output(self) -> (r: String)
        ensures
            r@ == self.written(),
    {
        self.output
    }

    fn write(&mut self, s: &str)
        ensures
            final(self).output@ == old(self).output@ + s@,
            final(self).indent_level == old(self).indent_level,
    {
        self.output.append(s);
    }

    /// Starts a new line, indented to the current depth.
    pub fn begin_line(&mut self)
        ensures
            final(self).written() == old(self).written() + newline(old(self).depth()),
            final(self).depth() == old(self).depth(),
    {
        proof {
            reveal_strlit("\n");
            reveal_strlit("\t");
        }
        self.write("\n");
        let mut i: usize = 0;
        while i < self.indent_level
            invariant
                i <= self.indent_level,
                self.indent_level == old(self).indent_level,
                self.output@ == old(self).output@ + seq!['\n'] + tabs(i as nat),
            decreases self.indent_level - i,
        {
            let ghost before = self.output@;
            proof {
                reveal_strlit("\t");
            }
            self.write("\t");
            assert(tabs((i + 1) as nat) == tabs(i as nat).push('\t'));
            assert(self.output@ =~= before.push('\t'));
            assert(self.output@ =~= old(self).output@ + seq!['\n'] + tabs((i + 1) as nat));
            i = i + 1;
        }
        assert(self.output@ =~= old(self).output@ + newline(old(self).depth()));
    }

    /// Goes one level deeper.
    pub fn indent(&mut self)
        requires
            old(self).depth() < usize::MAX,
        ensures
            final(self).written() == old(self).written(),
            final(self).depth() == old(self).depth() + 1,
    {
        self.indent_level = self.indent_level + 1;
    }

    /// Comes back one level.
    pub fn dedent(&mut self)
        requires
            old(self).depth() > 0,
        ensures
            final(self).written() == old(self).written(),
            final(self).depth() == old(self).depth() - 1,
    {
        self.indent_level = self.indent_level - 1;
    }

    fn write_decimal(&mut self, n: u64)
        ensures
            final(self).output@ == old(self).output@ + decimal(n as nat),
            final(self).indent_level == old(self).indent_level,
        decreases n,
    {
        if n >= 10 {
            self.write_decimal(n / 10);
        }
        let d = digit_str(n % 10);
        self.write(d);
        if n >= 10 {
            assert(self.output@ =~= old(self).output@ + decimal(n as nat));
        } else {
            assert(self.output@ =~= old(self).output@ + decimal(n as nat));
        }
    }

    pub fn serialize_bool(&mut self, v: bool)
        ensures
            final(self).written() == old(self).written() + bool_text(v),
            final(self).depth() == old(self).depth(),
    {
        proof {
            reveal_strlit("true");
            reveal_strlit("false");
        }
        if v {
            self.write("true");
        } else {
            self.write("false");
        }
        assert(self.output@ =~= old(self).output@ + bool_text(v));
    }

    pub fn serialize_u64(&mut self, v: u64)
        ensures
            final(self).written() == old(self).written() + int_text(v as int),
            final(self).depth() == old(self).depth(),
    {
        self.write_decimal(v);
    }

    pub fn serialize_i64(&mut self, v: i64)
        ensures
            final(self).written() == old(self).written() + int_text(v as int),
            final(self).depth() == old(self).depth(),
    {
        proof {
            reveal_strlit("-");
        }
        if v < 0 {
            self.write("-");
            let m: u64 = (-(v as i128)) as u64;
            self.write_decimal(m);
            assert(self.output@ =~= old(self).output@ + int_text(v as int));
        } else {
            self.write_decimal(v as u64);
        }
    }

    pub fn serialize_i8(&mut self, v: i8)
        ensures
            final(self).written() == old(self).written() + int_text(v as int),
            final(self).depth() == old(self).depth(),
    {
        self.serialize_i64(v as i64)
    }

    pub fn serialize_i16(&mut self, v: i16)
        ensures
            final(self).written() == old(self).written() + int_text(v as int),
            final(self).depth() == old(self).depth(),
    {
        self.serialize_i64(v as i64)
    }

    pub fn serialize_i32(&mut self, v: i32)
        ensures
            final(self).written() == old(self).written() + int_text(v as int),
            final(self).depth() == old(self).depth(),
    {
        self.serialize_i64(v as i64)
    }

    pub fn serialize_u8(&mut self, v: u8)
        ensures
            final(self).written() == old(self).written() + int_text(v as int),
            final(self).depth() == old(self).depth(),
    {
        self.serialize_u64(v as u64)
    }

    pub fn serialize_u16(&mut self, v: u16)
        ensures
            final(self).written() == old(self).written() + int_text(v as int),
            final(self).depth() == old(self).depth(),
    {
        self.serialize_u64(v as u64)
    }

    pub fn serialize_u32(&mut self, v: u32)
        ensures
            final(self).written() == old(self).written() + int_text(v as int),
            final(self).depth() == old(self).depth(),
    {
        self.serialize_u64(v as u64)
    }

    /// A string between double quotes; nothing inside is escaped.
    pub fn serialize_str(&mut self, v: &str)
        ensures
            final(self).written() == old(self).written() + quoted(v@),
            final(self).depth() == old(self).depth(),
    {
        proof {
            reveal_strlit("\"");
        }
        self.write("\"");
        self.write(v);
        self.write("\"");
        assert(self.output@ =~= old(self).output@ + quoted(v@));
    }

    pub fn serialize_char(&mut self, v: char)
        ensures
            final(self).written() == old(self).written() + quoted(seq![v]),
            final(self).depth() == old(self).depth(),
    {
        proof {
            reveal_strlit("\"");
        }
        self.write("\"");
        push_char(&mut self.output, v);
        self.write("\"");
        assert(self.output@ =~= old(self).output@ + quoted(seq![v]));
    }

    pub fn serialize_unit(&mut self)
        ensures
            final(self).written() == old(self).written() + null_text(),
            final(self).depth() == old(self).depth(),
    {
        proof {
            reveal_strlit("null");
        }
        self.write("null");
        assert(self.output@ =~= old(self).output@ + null_text());
    }

    pub fn serialize_none(&mut self)
        ensures
            final(self).written() == old(self).written() + null_text(),
            final(self).depth() == old(self).depth(),
    {
        self.serialize_unit()
    }

    pub fn serialize_unit_struct(&mut self, _name: &str)
        ensures
            final(self).written() == old(self).written() + null_text(),
            final(self).depth() == old(self).depth(),
    {
        self.serialize_unit()
    }

    /// A variant without payload: its name as a quoted string, no braces.
    pub fn serialize_unit_variant(&mut self, _name: &str, _variant_index: u32, variant: &str)
        ensures
            final(self).written() == old(self).written() + unit_variant_text(variant@),
            final(self).depth() == old(self).depth(),
    {
        self.serialize_str(variant)
    }
}

/// A value that can describe itself to the writer.
pub trait Serialize {
    /// The text of the value when it is written at depth `depth`.
    spec fn text(&self, depth: nat) -> Seq<char>;

    /// How many levels of indentation the value opens, at most.
    spec fn height(&self) -> nat;

    /// Writes the value at the writer's current depth.
    fn serialize(&self, s: &mut Serializer)
        requires
            old(s).depth() + self.height() <= usize::MAX,
        ensures
            final(s).written() == old(s).written() + self.text(old(s).depth()),
            final(s).depth() == old(s).depth(),
    ;
}

/// The texts of the items, each written at `depth`.
pub open spec fn item_texts<T: Serialize>(items: Seq<T>, depth: nat) -> Seq<Seq<char>> {
    items.map_values(|x: T| x.text(depth))
}

/// The largest height among the items.
pub open spec fn max_height<T: Serialize>(items: Seq<T>) -> nat
    decreases items.len(),
{
    if items.len() == 0 {
        0
    } else {
        let h = max_height(items.drop_last());
        if items.last().height() > h {
            items.last().height()
        } else {
            h
        }
    }
}

pub proof fn lemma_max_height<T: Serialize>(items: Seq<T>, i: int)
    requires
        0 <= i < items.len(),
    ensures
        items[i].height() <= max_height(items),
    decreases items.len(),
{
    if i < items.len() - 1 {
        lemma_max_height(items.drop_last(), i);
    }
}

impl Serializer {
    /// Opens a sequence: `(`, one level deeper.
    pub fn serialize_seq(&mut self, _len: Option<usize>)
        requires
            old(self).depth() < usize::MAX,
        ensures
            final(self).written() == old(self).written() + seq!['('],
            final(self).depth() == old(self).depth() + 1,
    {
        proof {
            reveal_strlit("(");
        }
        self.write("(");
        self.indent();
    }

    /// One element of a sequence, on its own line and followed by `,`.
    pub fn serialize_element<T: Serialize>(&mut self, value: &T)
        requires
            old(self).depth() + value.height() <= usize::MAX,
        ensures
            final(self).written() == old(self).written() + newline(old(self).depth())
                + value.text(old(self).depth()) + seq![','],
            final(self).depth() == old(self).depth(),
    {
        proof {
            reveal_strlit(",");
        }
        self.begin_line();
        value.serialize(self);
        self.write(",");
        assert(self.output@ =~= old(self).output@ + newline(old(self).depth()) + value.text(
            old(self).depth(),
        ) + seq![',']);
    }

    /// Closes a sequence: back one level, a new line, `)`.
    pub fn end_seq(&mut self)
        requires
            old(self).depth() > 0,
        ensures
            final(self).written() == old(self).written() + newline((old(self).depth() - 1) as nat)
                + seq![')'],
            final(self).depth() == old(self).depth() - 1,
    {
        proof {
            reveal_strlit(")");
        }
        self.dedent();
        self.begin_line();
        self.write(")");
        assert(self.output@ =~= old(self).output@ + newline((old(self).depth() - 1) as nat)
            + seq![')']);
    }

    /// Bytes, written as a sequence of unsigned integers.
    pub fn serialize_bytes(&mut self, v: &[u8])
        requires
            old(self).depth() < usize::MAX,
        ensures
            final(self).written() == old(self).written() + seq_text(
                v@.map_values(|b: u8| int_text(b as int)),
                old(self).depth(),
            ),
            final(self).depth() == old(self).depth(),
    {
        let ghost d = self.depth();
        let ghost texts = v@.map_values(|b: u8| int_text(b as int));
        self.serialize_seq(Some(v.len()));
        let mut i: usize = 0;
        while i < v.len()
            invariant
                i <= v@.len(),
                texts == v@.map_values(|b: u8| int_text(b as int)),
                self.depth() == d + 1,
                self.written() == old(self).written() + seq!['('] + seq_items(
                    texts.take(i as int),
                    d + 1,
                ),
            decreases v@.len() - i,
        {
            proof {
                reveal_strlit(",");
            }
            self.begin_line();
            self.serialize_u8(v[i]);
            self.write(",");
            assert(texts.take(i + 1).drop_last() =~= texts.take(i as int));
            assert(self.written() =~= old(self).written() + seq!['('] + seq_items(
                texts.take(i + 1),
                d + 1,
            ));
            i = i + 1;
        }
        self.end_seq();
        assert(texts.take(v@.len() as int) =~= texts);
        assert(self.written() =~= old(self).written() + seq_text(texts, d));
    }

    /// The payload of an optional value that is present.
    pub fn serialize_some<T: Serialize>(&mut self, value: &T)
        requires
            old(self).depth() + value.height() <= usize::MAX,
        ensures
            final(self).written() == old(self).written() + value.text(old(self).depth()),
            final(self).depth() == old(self).depth(),
    {
        value.serialize(self)
    }

    /// A named wrapper around one value is written as that value.
    pub fn serialize_newtype_struct<T: Serialize>(&mut self, _name: &str, value: &T)
        requires
            old(self).depth() + value.height() <= usize::MAX,
        ensures
            final(self).written() == old(self).written() + value.text(old(self).depth()),
            final(self).depth() == old(self).depth(),
    {
        value.serialize(self)
    }

    /// A variant with one payload: `{"name":value}`.
    pub fn serialize_newtype_variant<T: Serialize>(
        &mut self,
        _name: &str,
        _variant_index: u32,
        variant: &str,
        value: &T,
    )
        requires
            old(self).depth() + value.height() <= usize::MAX,
        ensures
            final(self).written() == old(self).written() + newtype_variant_text(
                variant@,
                value.text(old(self).depth()),
            ),
            final(self).depth() == old(self).depth(),
    {
        proof {
            reveal_strlit("{");
            reveal_strlit(":");
            reveal_strlit("}");
        }
        self.write("{");
        self.serialize_str(variant);
        self.write(":");
        value.serialize(self);
        self.write("}");
        assert(self.output@ =~= old(self).output@ + newtype_variant_text(
            variant@,
            value.text(old(self).depth()),
        ));
    }

    /// Opens a fixed-arity tuple: `[`.
    pub fn serialize_tuple(&mut self, _len: usize)
        ensures
            final(self).written() == old(self).written() + seq!['['],
            final(self).depth() == old(self).depth(),
    {
        proof {
            reveal_strlit("[");
        }
        self.write("[");
    }

    /// Opens a named fixed-arity tuple: `[`.
    pub fn serialize_tuple_struct(&mut self, _name: &str, len: usize)
        ensures
            final(self).written() == old(self).written() + seq!['['],
            final(self).depth() == old(self).depth(),
    {
        self.serialize_tuple(len)
    }

    /// One element of a tuple: `,` before every element but the first.
    pub fn tuple_element<T: Serialize>(&mut self, first: bool, value: &T)
        requires
            old(self).depth() + value.height() <= usize::MAX,
        ensures
            final(self).written() == old(self).written() + (if first {
                Seq::<char>::empty()
            } else {
                seq![',']
            }) + value.text(old(self).depth()),
            final(self).depth() == old(self).depth(),
    {
        proof {
            reveal_strlit(",");
        }
        if !first {
            self.write(",");
        }
        value.serialize(self);
        assert(self.output@ =~= old(self).output@ + (if first {
            Seq::<char>::empty()
        } else {
            seq![',']
        }) + value.text(old(self).depth()));
    }

    /// Closes a tuple: `]`.
    pub fn end_tuple(&mut self)
        ensures
            final(self).written() == old(self).written() + seq![']'],
            final(self).depth() == old(self).depth(),
    {
        proof {
            reveal_strlit("]");
        }
        self.write("]");
    }

    /// Opens a variant with a tuple payload: `{"name":[`.
    pub fn serialize_tuple_variant(
        &mut self,
        _name: &str,
        _variant_index: u32,
        variant: &str,
        _len: usize,
    )
        ensures
            final(self).written() == old(self).written() + seq!['{'] + quoted(variant@) + seq![
                ':',
                '[',
            ],
            final(self).depth() == old(self).depth(),
    {
        proof {
            reveal_strlit("{");
            reveal_strlit(":[");
        }
        self.write("{");
        self.serialize_str(variant);
        self.write(":[");
        assert(self.output@ =~= old(self).output@ + seq!['{'] + quoted(variant@) + seq![':', '[']);
    }

    /// Closes a variant with a tuple payload: `]}`.
    pub fn end_tuple_variant(&mut self)
        ensures
            final(self).written() == old(self).written() + seq![']', '}'],
            final(self).depth() == old(self).depth(),
    {
        proof {
            reveal_strlit("]}");
        }
        self.write("]}");
    }

    /// Opens a map: `{`, one level deeper.
    pub fn serialize_map(&mut self, _len: Option<usize>)
        requires
            old(self).depth() < usize::MAX,
        ensures
            final(self).written() == old(self).written() + seq!['{'],
            final(self).depth() == old(self).depth() + 1,
    {
        proof {
            reveal_strlit("{");
        }
        self.write("{");
        self.indent();
    }

    /// Opens a record: written as a map.
    pub fn serialize_struct(&mut self, _name: &str, _len: usize)
        requires
            old(self).depth() < usize::MAX,
        ensures
            final(self).written() == old(self).written() + seq!['{'],
            final(self).depth() == old(self).depth() + 1,
    {
        self.serialize_map(None)
    }

    /// The key of a map entry, on its own line.
    pub fn serialize_key<T: Serialize>(&mut self, key: &T)
        requires
            old(self).depth() + key.height() <= usize::MAX,
        ensures
            final(self).written() == old(self).written() + newline(old(self).depth()) + key.text(
                old(self).depth(),
            ),
            final(self).depth() == old(self).depth(),
    {
        self.begin_line();
        key.serialize(self);
    }

    /// The value of a map entry: ` = `, the value, `;`.
    pub fn serialize_value<T: Serialize>(&mut self, value: &T)
        requires
            old(self).depth() + value.height() <= usize::MAX,
        ensures
            final(self).written() == old(self).written() + seq![' ', '=', ' '] + value.text(
                old(self).depth(),
            ) + seq![';'],
            final(self).depth() == old(self).depth(),
    {
        proof {
            reveal_strlit(" = ");
            reveal_strlit(";");
        }
        self.write(" = ");
        value.serialize(self);
        self.write(";");
        assert(self.output@ =~= old(self).output@ + seq![' ', '=', ' '] + value.text(
            old(self).depth(),
        ) + seq![';']);
    }

    /// One field of a record: its name as it is, ` = `, the value, `;`, on its own line.
    pub fn serialize_field<T: Serialize>(&mut self, key: &str, value: &T)
        requires
            old(self).depth() + value.height() <= usize::MAX,
        ensures
            final(self).written() == old(self).written() + entry_line(
                key@,
                value.text(old(self).depth()),
                old(self).depth(),
            ),
            final(self).depth() == old(self).depth(),
    {
        self.begin_line();
        self.write(key);
        self.serialize_value(value);
        assert(self.output@ =~= old(self).output@ + entry_line(
            key@,
            value.text(old(self).depth()),
            old(self).depth(),
        ));
    }

    /// Closes a map or record: back one level, a new line, `}`.
    pub fn end_map(&mut self)
        requires
            old(self).depth() > 0,
        ensures
            final(self).written() == old(self).written() + newline((old(self).depth() - 1) as nat)
                + seq!['}'],
            final(self).depth() == old(self).depth() - 1,
    {
        proof {
            reveal_strlit("}");
        }
        self.dedent();
        self.begin_line();
        self.write("}");
        assert(self.output@ =~= old(self).output@ + newline((old(self).depth() - 1) as nat)
            + seq!['}']);
    }

    /// Opens a variant with named fields: `{"name":{`.
    pub fn serialize_struct_variant(
        &mut self,
        _name: &str,
        _variant_index: u32,
        variant: &str,
        _len: usize,
    )
        ensures
            final(self).written() == old(self).written() + seq!['{'] + quoted(variant@) + seq![
                ':',
                '{',
            ],
            final(self).depth() == old(self).depth(),
    {
        proof {
            reveal_strlit("{");
            reveal_strlit(":{");
        }
        self.write("{");
        self.serialize_str(variant);
        self.write(":{");
        assert(self.output@ =~= old(self).output@ + seq!['{'] + quoted(variant@) + seq![':', '{']);
    }

    /// One named field of a variant: `,` before every field but the first, then
    /// `"name":value`.
    pub fn variant_field<T: Serialize>(&mut self, first: bool, key: &str, value: &T)
        requires
            old(self).depth() + value.height() <= usize::MAX,
        ensures
            final(self).written() == old(self).written() + (if first {
                Seq::<char>::empty()
            } else {
                seq![',']
            }) + variant_field_text(key@, value.text(old(self).depth())),
            final(self).depth() == old(self).depth(),
    {
        proof {
            reveal_strlit(",");
            reveal_strlit(":");
        }
        if !first {
            self.write(",");
        }
        self.serialize_str(key);
        self.write(":");
        value.serialize(self);
        assert(self.output@ =~= old(self).output@ + (if first {
            Seq::<char>::empty()
        } else {
            seq![',']
        }) + variant_field_text(key@, value.text(old(self).depth())));
    }

    /// Closes a variant with named fields: `}}`.
    pub fn end_struct_variant(&mut self)
        ensures
            final(self).written() == old(self).written() + seq!['}', '}'],
            final(self).depth() == old(self).depth(),
    {
        proof {
            reveal_strlit("}}");
        }
        self.write("}}");
    }
}

/// Encodes a value as text, starting at depth zero. Encoding always succeeds.
pub fn to_string<T: Serialize>(value: &T) -> (r: Result<String, Error>)
    requires
        value.height() <= usize::MAX,
    ensures
        r is Ok,
        r matches Ok(s) ==> s@ == value.text(0),
{
    let mut s = Serializer::new();
    value.serialize(&mut s);
    assert(s.written() =~= value.text(0));
    Ok(s.into_output())
}

pub proof fn lemma_max_height_bound<T: Serialize>(items: Seq<T>, b: nat)
    requires
        forall|i: int| 0 <= i < items.len() ==> #[trigger] items[i].height() <= b,
    ensures
        max_height(items) <= b,
    decreases items.len(),
{
    if items.len() > 0 {
        let rest = items.drop_last();
        assert forall|i: int| 0 <= i < rest.len() implies #[trigger] rest[i].height() <= b by {
            assert(rest[i] == items[i]);
        }
        lemma_max_height_bound(rest, b);
    }
}

/// Adding one element adds one line to the elements of a sequence.
pub proof fn lemma_seq_items_push(items: Seq<Seq<char>>, item: Seq<char>, depth: nat)
    ensures
        seq_items(items.push(item), depth) == seq_items(items, depth) + newline(depth) + item
            + seq![','],
{
    assert(items.push(item).drop_last() =~= items);
}

/// Adding one entry adds one line to the entries of a map or record.
pub broadcast proof fn lemma_map_entries_push(
    entries: Seq<(Seq<char>, Seq<char>)>,
    e: (Seq<char>, Seq<char>),
    depth: nat,
)
    ensures
        #[trigger] map_entries(entries.push(e), depth) == map_entries(entries, depth) + entry_line(
            e.0,
            e.1,
            depth,
        ),
{
    assert(entries.push(e).drop_last() =~= entries);
}

impl Serialize for bool {
    open spec fn text(&self, depth: nat) -> Seq<char> {
        bool_text(*self)
    }

    open spec fn height(&self) -> nat {
        0
    }

    fn serialize(&self, s: &mut Serializer) {
        s.serialize_bool(*self)
    }
}

impl Serialize for i32 {
    open spec fn text(&self, depth: nat) -> Seq<char> {
        int_text(*self as int)
    }

    open spec fn height(&self) -> nat {
        0
    }

    fn serialize(&self, s: &mut Serializer) {
        s.serialize_i32(*self)
    }
}

impl Serialize for i64 {
    open spec fn text(&self, depth: nat) -> Seq<char> {
        int_text(*self as int)
    }

    open spec fn height(&self) -> nat {
        0
    }

    fn serialize(&self, s: &mut Serializer) {
        s.serialize_i64(*self)
    }
}

impl Serialize for u8 {
    open spec fn text(&self, depth: nat) -> Seq<char> {
        int_text(*self as int)
    }

    open spec fn height(&self) -> nat {
        0
    }

    fn serialize(&self, s: &mut Serializer) {
        s.serialize_u8(*self)
    }
}

impl Serialize for u32 {
    open spec fn text(&self, depth: nat) -> Seq<char> {
        int_text(*self as int)
    }

    open spec fn height(&self) -> nat {
        0
    }

    fn serialize(&self, s: &mut Serializer) {
        s.serialize_u32(*self)
    }
}

impl Serialize for u64 {
    open spec fn text(&self, depth: nat) -> Seq<char> {
        int_text(*self as int)
    }

    open spec fn height(&self) -> nat {
        0
    }

    fn serialize(&self, s: &mut Serializer) {
        s.serialize_u64(*self)
    }
}

impl Serialize for usize {
    open spec fn text(&self, depth: nat) -> Seq<char> {
        int_text(*self as int)
    }

    open spec fn height(&self) -> nat {
        0
    }

    fn serialize(&self, s: &mut Serializer) {
        s.serialize_u64(*self as u64)
    }
}

impl Serialize for char {
    open spec fn text(&self, depth: nat) -> Seq<char> {
        quoted(seq![*self])
    }

    open spec fn height(&self) -> nat {
        0
    }

    fn serialize(&self, s: &mut Serializer) {
        s.serialize_char(*self)
    }
}

impl Serialize for String {
    open spec fn text(&self, depth: nat) -> Seq<char> {
        quoted(self@)
    }

    open spec fn height(&self) -> nat {
        0
    }

    fn serialize(&self, s: &mut Serializer) {
        s.serialize_str(self.as_str())
    }
}

impl<'a> Serialize for &'a str {
    open spec fn text(&self, depth: nat) -> Seq<char> {
        quoted((*self)@)
    }

    open spec fn height(&self) -> nat {
        0
    }

    fn serialize(&self, s: &mut Serializer) {
        s.serialize_str(*self)
    }
}

impl<T: Serialize> Serialize for Option<T> {
    open spec fn text(&self, depth: nat) -> Seq<char> {
        match self {
            Some(v) => v.text(depth),
            None => null_text(),
        }
    }

    open spec fn height(&self) -> nat {
        match self {
            Some(v) => v.height(),
            None => 0,
        }
    }

    fn serialize(&self, s: &mut Serializer) {
        match self {
            Some(v) => s.serialize_some(v),
            None => s.serialize_none(),
        }
    }
}

impl<T: Serialize> Serialize for Vec<T> {
    open spec fn text(&self, depth: nat) -> Seq<char> {
        seq_text(item_texts(self@, depth + 1), depth)
    }

    open spec fn height(&self) -> nat {
        1 + max_height(self@)
    }

    fn serialize(&self, s: &mut Serializer) {
        let ghost d = s.depth();
        s.serialize_seq(Some(self.len()));
        let mut i: usize = 0;
        while i < self.len()
            invariant
                i <= self@.len(),
                s.depth() == d + 1,
                d + 1 + max_height(self@) <= usize::MAX,
                s.written() == old(s).written() + seq!['('] + seq_items(
                    item_texts(self@.take(i as int), d + 1),
                    d + 1,
                ),
            decreases self@.len() - i,
        {
            proof {
                lemma_max_height(self@, i as int);
            }
            s.serialize_element(&self[i]);
            proof {
                assert(item_texts(self@.take(i + 1), d + 1) =~= item_texts(
                    self@.take(i as int),
                    d + 1,
                ).push(self@[i as int].text(d + 1)));
                lemma_seq_items_push(
                    item_texts(self@.take(i as int), d + 1),
                    self@[i as int].text(d + 1),
                    d + 1,
                );
            }
            i = i + 1;
        }
        s.end_seq();
        assert(self@.take(self@.len() as int) =~= self@);
        assert(s.written() =~= old(s).written() + self.text(d));
    }
}

} // verus!
