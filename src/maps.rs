use crate::grammar::{int_text, map_entries, map_text, quoted};
use crate::project::{PBXObject, PBXSetting};
use crate::ser::{lemma_map_entries_push, Serialize, Serializer};
use indexmap::IndexMap;
use vstd::prelude::*;

verus! {

broadcast use lemma_map_entries_push;

#[verifier::external_type_specification]
#[verifier::external_body]
#[verifier::reject_recursive_types(K)]
#[verifier::reject_recursive_types(V)]
#[verifier::reject_recursive_types(S)]
pub struct ExIndexMap<K, V, S>(IndexMap<K, V, S>);

/// The entries of an object map, in their order.
pub uninterp spec fn object_entries(m: IndexMap<usize, PBXObject>) -> Seq<(usize, PBXObject)>;

/// The entries of a settings map, keys as characters, in their order.
pub uninterp spec fn setting_entries(m: IndexMap<String, PBXSetting>) -> Seq<
    (Seq<char>, PBXSetting),
>;

/// The entries of a map of strings, as characters, in their order.
pub uninterp spec fn string_entries(m: IndexMap<String, String>) -> Seq<(Seq<char>, Seq<char>)>;

/// The position of the entry with key `k`, or -1 where there is none.
pub open spec fn key_index(entries: Seq<(Seq<char>, Seq<char>)>, k: Seq<char>) -> int
    decreases entries.len(),
{
    if entries.len() == 0 {
        -1
    } else {
        let j = key_index(entries.drop_last(), k);
        if j >= 0 {
            j
        } else if entries.last().0 == k {
            entries.len() - 1
        } else {
            -1
        }
    }
}

/// Inserting into an ordered map: an existing key keeps its place and takes the new
/// value; a new key goes last.
pub open spec fn insert_entry(entries: Seq<(Seq<char>, Seq<char>)>, k: Seq<char>, v: Seq<char>) -> Seq<
    (Seq<char>, Seq<char>),
> {
    let j = key_index(entries, k);
    if j >= 0 {
        entries.update(j, (k, v))
    } else {
        entries.push((k, v))
    }
}

/// The entries of a map built by inserting the pairs one after another.
pub open spec fn collected(pairs: Seq<(Seq<char>, Seq<char>)>) -> Seq<(Seq<char>, Seq<char>)>
    decreases pairs.len(),
{
    if pairs.len() == 0 {
        Seq::empty()
    } else {
        insert_entry(collected(pairs.drop_last()), pairs.last().0, pairs.last().1)
    }
}

/// Relies on `IndexMap::new`: the map starts empty.
#[verifier::external_body]
pub(crate) fn new_object_map() -> (r: IndexMap<usize, PBXObject>)
    ensures
        object_entries(r) == Seq::<(usize, PBXObject)>::empty(),
{
    IndexMap::new()
}

/// Relies on `IndexMap::len`: the number of entries.
#[verifier::external_body]
pub(crate) fn object_map_len(m: &IndexMap<usize, PBXObject>) -> (r: usize)
    ensures
        r == object_entries(*m).len(),
{
    m.len()
}

/// Relies on `IndexMap::insert`: a key not yet present goes last with its value.
#[verifier::external_body]
pub(crate) fn object_map_insert(m: &mut IndexMap<usize, PBXObject>, k: usize, v: PBXObject)
    requires
        forall|i: int|
            0 <= i < object_entries(*old(m)).len() ==> #[trigger] object_entries(*old(m))[i].0
                != k,
    ensures
        object_entries(*final(m)) == object_entries(*old(m)).push((k, v)),
{
    m.insert(k, v);
}

/// Relies on `IndexMap::get_index`: the entry at a position, if there is one.
#[verifier::external_body]
pub(crate) fn object_map_get<'a>(m: &'a IndexMap<usize, PBXObject>, i: usize) -> (r: Option<
    (&'a usize, &'a PBXObject),
>)
    ensures
        r is Some <==> i < object_entries(*m).len(),
        r matches Some(p) ==> *p.0 == object_entries(*m)[i as int].0 && *p.1 == object_entries(
            *m,
        )[i as int].1,
{
    m.get_index(i)
}

/// Relies on `IndexMap::len`: the number of entries.
#[verifier::external_body]
pub(crate) fn setting_map_len(m: &IndexMap<String, PBXSetting>) -> (r: usize)
    ensures
        r == setting_entries(*m).len(),
{
    m.len()
}

/// Relies on `IndexMap::get_index`: the entry at a position, if there is one.
#[verifier::external_body]
pub(crate) fn setting_map_get<'a>(m: &'a IndexMap<String, PBXSetting>, i: usize) -> (r: Option<
    (&'a String, &'a PBXSetting),
>)
    ensures
        r is Some <==> i < setting_entries(*m).len(),
        r matches Some(p) ==> p.0@ == setting_entries(*m)[i as int].0 && *p.1
            == setting_entries(*m)[i as int].1,
{
    m.get_index(i)
}

/// Relies on `IndexMap::new`: the map starts empty.
#[verifier::external_body]
pub(crate) fn new_string_map() -> (r: IndexMap<String, String>)
    ensures
        string_entries(r) == Seq::<(Seq<char>, Seq<char>)>::empty(),
{
    IndexMap::new()
}

/// Relies on `IndexMap::len`: the number of entries.
#[verifier::external_body]
pub(crate) fn string_map_len(m: &IndexMap<String, String>) -> (r: usize)
    ensures
        r == string_entries(*m).len(),
{
    m.len()
}

/// Relies on `IndexMap::insert`: an existing key keeps its place and takes the new
/// value, a new key goes last.
#[verifier::external_body]
pub(crate) fn string_map_insert(m: &mut IndexMap<String, String>, k: String, v: String)
    ensures
        string_entries(*final(m)) == insert_entry(string_entries(*old(m)), k@, v@),
{
    m.insert(k, v);
}

/// Relies on `IndexMap::get_index`: the entry at a position, if there is one.
#[verifier::external_body]
pub(crate) fn string_map_get<'a>(m: &'a IndexMap<String, String>, i: usize) -> (r: Option<
    (&'a String, &'a String),
>)
    ensures
        r is Some <==> i < string_entries(*m).len(),
        r matches Some(p) ==> p.0@ == string_entries(*m)[i as int].0 && p.1@ == string_entries(
            *m,
        )[i as int].1,
{
    m.get_index(i)
}

/// The written entries of an object map: the identifier, then the object as written
/// at `depth`.
pub open spec fn object_lines(entries: Seq<(usize, PBXObject)>, depth: nat) -> Seq<
    (Seq<char>, Seq<char>),
> {
    entries.map_values(|e: (usize, PBXObject)| (int_text(e.0 as int), e.1.text(depth)))
}

/// The written entries of a settings map: the quoted key, then the setting as written
/// at `depth`.
pub open spec fn setting_lines(entries: Seq<(Seq<char>, PBXSetting)>, depth: nat) -> Seq<
    (Seq<char>, Seq<char>),
> {
    entries.map_values(|e: (Seq<char>, PBXSetting)| (quoted(e.0), e.1.text(depth)))
}

/// The written entries of a map of strings: key and value, both quoted.
pub open spec fn string_lines(entries: Seq<(Seq<char>, Seq<char>)>) -> Seq<
    (Seq<char>, Seq<char>),
> {
    entries.map_values(|e: (Seq<char>, Seq<char>)| (quoted(e.0), quoted(e.1)))
}

impl Serialize for IndexMap<usize, PBXObject> {
    open spec fn text(&self, depth: nat) -> Seq<char> {
        map_text(object_lines(object_entries(*self), depth + 1), depth)
    }

    open spec fn height(&self) -> nat {
        4
    }

    fn serialize(&self, s: &mut Serializer) {
        let ghost d = s.depth();
        let ghost lines = object_lines(object_entries(*self), d + 1);
        let n = object_map_len(self);
        s.serialize_map(Some(n));
        let mut i: usize = 0;
        while i < n
            invariant
                i <= n,
                n == object_entries(*self).len(),
                lines == object_lines(object_entries(*self), d + 1),
                s.depth() == d + 1,
                d + 4 <= usize::MAX,
                s.written() == old(s).written() + seq!['{'] + map_entries(
                    lines.take(i as int),
                    d + 1,
                ),
            decreases n - i,
        {
            match object_map_get(self, i) {
                Some((k, v)) => {
                    s.serialize_key(k);
                    s.serialize_value(v);
                    assert(lines.take(i + 1) =~= lines.take(i as int).push(lines[i as int]));
                },
                None => {},
            }
            i = i + 1;
        }
        s.end_map();
        assert(lines.take(n as int) =~= lines);
        assert(s.written() =~= old(s).written() + self.text(d));
    }
}

impl Serialize for IndexMap<String, PBXSetting> {
    open spec fn text(&self, depth: nat) -> Seq<char> {
        map_text(setting_lines(setting_entries(*self), depth + 1), depth)
    }

    open spec fn height(&self) -> nat {
        2
    }

    fn serialize(&self, s: &mut Serializer) {
        let ghost d = s.depth();
        let ghost lines = setting_lines(setting_entries(*self), d + 1);
        let n = setting_map_len(self);
        s.serialize_map(Some(n));
        let mut i: usize = 0;
        while i < n
            invariant
                i <= n,
                n == setting_entries(*self).len(),
                lines == setting_lines(setting_entries(*self), d + 1),
                s.depth() == d + 1,
                d + 2 <= usize::MAX,
                s.written() == old(s).written() + seq!['{'] + map_entries(
                    lines.take(i as int),
                    d + 1,
                ),
            decreases n - i,
        {
            match setting_map_get(self, i) {
                Some((k, v)) => {
                    s.serialize_key(k);
                    s.serialize_value(v);
                    assert(lines.take(i + 1) =~= lines.take(i as int).push(lines[i as int]));
                },
                None => {},
            }
            i = i + 1;
        }
        s.end_map();
        assert(lines.take(n as int) =~= lines);
        assert(s.written() =~= old(s).written() + self.text(d));
    }
}

impl Serialize for IndexMap<String, String> {
    open spec fn text(&self, depth: nat) -> Seq<char> {
        map_text(string_lines(string_entries(*self)), depth)
    }

    open spec fn height(&self) -> nat {
        1
    }

    fn serialize(&self, s: &mut Serializer) {
        let ghost d = s.depth();
        let ghost lines = string_lines(string_entries(*self));
        let n = string_map_len(self);
        s.serialize_map(Some(n));
        let mut i: usize = 0;
        while i < n
            invariant
                i <= n,
                n == string_entries(*self).len(),
                lines == string_lines(string_entries(*self)),
                s.depth() == d + 1,
                d + 1 <= usize::MAX,
                s.written() == old(s).written() + seq!['{'] + map_entries(
                    lines.take(i as int),
                    d + 1,
                ),
            decreases n - i,
        {
            match string_map_get(self, i) {
                Some((k, v)) => {
                    s.serialize_key(k);
                    s.serialize_value(v);
                    assert(lines.take(i + 1) =~= lines.take(i as int).push(lines[i as int]));
                },
                None => {},
            }
            i = i + 1;
        }
        s.end_map();
        assert(lines.take(n as int) =~= lines);
        assert(s.written() =~= old(s).written() + self.text(d));
    }
}

/// A map of build settings, filled from the pairs in their order.
pub fn build_settings<const N: usize>(arr: [(&str, &str); N]) -> (r: IndexMap<String, String>)
    ensures
        string_entries(r) == collected(arr@.map_values(|p: (&str, &str)| (p.0@, p.1@))),
{
    let ghost pairs = arr@.map_values(|p: (&str, &str)| (p.0@, p.1@));
    let mut m = new_string_map();
    let mut i: usize = 0;
    while i < N
        invariant
            i <= N,
            N == arr@.len(),
            pairs == arr@.map_values(|p: (&str, &str)| (p.0@, p.1@)),
            string_entries(m) == collected(pairs.take(i as int)),
        decreases N - i,
    {
        let (k, v) = arr[i];
        string_map_insert(&mut m, k.to_string(), v.to_string());
        assert(pairs.take(i + 1).drop_last() =~= pairs.take(i as int));
        i = i + 1;
    }
    assert(pairs.take(N as int) =~= pairs);
    m
}

} // verus!
