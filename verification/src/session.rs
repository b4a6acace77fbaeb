//! The documents of an editing session and the field edits made on the top-level table.

use vstd::prelude::*;

use crate::document::{lemma_seq_view, seq_view, values_equal, TomlSpec, TomlTable, TomlValue};

verus! {

broadcast use lemma_seq_view;

/// IEEE-754 bit pattern of zero.
pub const FLOAT_ZERO: u64 = 0x0;

/// IEEE-754 bit pattern of one.
pub const FLOAT_ONE: u64 = 0x3ff0000000000000;

/// IEEE-754 bit pattern of five.
pub const FLOAT_FIVE: u64 = 0x4014000000000000;

/// IEEE-754 bit pattern of ten.
pub const FLOAT_TEN: u64 = 0x4024000000000000;

/// IEEE-754 bit pattern of twenty.
pub const FLOAT_TWENTY: u64 = 0x4034000000000000;

/// IEEE-754 bit pattern of minus five.
pub const FLOAT_MINUS_FIVE: u64 = 0xc014000000000000;

/// IEEE-754 bit pattern of minus ten.
pub const FLOAT_MINUS_TEN: u64 = 0xc024000000000000;

/// IEEE-754 bit pattern of forty-five.
pub const FLOAT_FORTY_FIVE: u64 = 0x4046800000000000;

/// IEEE-754 bit pattern of minus forty-five.
pub const FLOAT_MINUS_FORTY_FIVE: u64 = 0xc046800000000000;

/// IEEE-754 bit pattern of one millionth (the default joint compliance).
pub const FLOAT_MICRO: u64 = 0x3eb0c6f7a0b5ed8d;

/// IEEE-754 bit pattern of one thousandth (the default angle limit torque).
pub const FLOAT_MILLI: u64 = 0x3f50624dd2f1a9fc;

/// IEEE-754 bit pattern of fifteen hundredths (the default chain end chance).
pub const FLOAT_FIFTEEN_HUNDREDTHS: u64 = 0x3fc3333333333333;

/// The documents that an editing session works on.
pub struct EditorSession {
    /// The mob document as it is being edited.
    pub current_mob: Option<TomlValue>,
    /// The mob document as it was loaded or last saved.
    pub original_mob: Option<TomlValue>,
}

/// The value of an optional document.
pub open spec fn doc_view(d: Option<TomlValue>) -> Option<TomlSpec> {
    match d {
        Some(v) => Some(v@),
        None => None,
    }
}

/// The top-level table of a document, when the document is a table.
pub open spec fn mob_map(doc: Option<TomlSpec>) -> Option<Map<Seq<char>, TomlSpec>> {
    match doc {
        Some(TomlSpec::Table(m)) => Some(m),
        _ => None,
    }
}

/// The document whose top-level table is `f` of the top-level table of `doc`; a document
/// that is not a table stays as it is.
pub open spec fn edit_mob(
    doc: Option<TomlSpec>,
    f: spec_fn(Map<Seq<char>, TomlSpec>) -> Map<Seq<char>, TomlSpec>,
) -> Option<TomlSpec> {
    match doc {
        Some(TomlSpec::Table(m)) => Some(TomlSpec::Table(f(m))),
        _ => doc,
    }
}

/// The value of the two-element float array `[x, y]`.
pub open spec fn vec2_spec(x: u64, y: u64) -> TomlSpec {
    TomlSpec::Array(seq![TomlSpec::Float(x), TomlSpec::Float(y)])
}

/// The array under `key`, when `m` holds one there.
pub open spec fn array_at(m: Map<Seq<char>, TomlSpec>, key: Seq<char>) -> Option<Seq<TomlSpec>> {
    if m.contains_key(key) && m[key] is Array {
        Some(m[key]->Array_0)
    } else {
        None
    }
}

/// The table under `key`, when `m` holds one there.
pub open spec fn table_at(m: Map<Seq<char>, TomlSpec>, key: Seq<char>) -> Option<
    Map<Seq<char>, TomlSpec>,
> {
    if m.contains_key(key) && m[key] is Table {
        Some(m[key]->Table_0)
    } else {
        None
    }
}

/// The table at position `index` of the array under `key`, when there is one.
pub open spec fn elem_table(m: Map<Seq<char>, TomlSpec>, key: Seq<char>, index: int) -> Option<
    Map<Seq<char>, TomlSpec>,
> {
    match array_at(m, key) {
        Some(a) => if 0 <= index < a.len() && a[index] is Table {
            Some(a[index]->Table_0)
        } else {
            None
        },
        None => None,
    }
}

/// The array at position `index` of the array under `key`, when there is one.
pub open spec fn elem_array(m: Map<Seq<char>, TomlSpec>, key: Seq<char>, index: int) -> Option<
    Seq<TomlSpec>,
> {
    match array_at(m, key) {
        Some(a) => if 0 <= index < a.len() && a[index] is Array {
            Some(a[index]->Array_0)
        } else {
            None
        },
        None => None,
    }
}

/// `m` with position `index` of the array under `key` set to `v`.
pub open spec fn with_elem(
    m: Map<Seq<char>, TomlSpec>,
    key: Seq<char>,
    index: int,
    v: TomlSpec,
) -> Map<Seq<char>, TomlSpec> {
    m.insert(key, TomlSpec::Array(array_at(m, key).unwrap().update(index, v)))
}

/// `m` with position `index` of the array under `key` removed (when it is there), and the key
/// dropped when that leaves the array empty; `m` is unchanged if the key holds no array.
pub open spec fn delete_elem_pruned(m: Map<Seq<char>, TomlSpec>, key: Seq<char>, index: int) -> Map<
    Seq<char>,
    TomlSpec,
> {
    match array_at(m, key) {
        Some(a) => {
            let rest = if 0 <= index < a.len() {
                a.remove(index)
            } else {
                a
            };
            if rest.len() == 0 {
                m.remove(key)
            } else {
                m.insert(key, TomlSpec::Array(rest))
            }
        },
        None => m,
    }
}

/// Whether the original document has `key` at its top level.
pub open spec fn original_has(original: Option<TomlSpec>, key: Seq<char>) -> bool {
    match mob_map(original) {
        Some(o) => o.contains_key(key),
        None => false,
    }
}

/// The top-level edit made when a field is set in a way that tracks defaults: a field that
/// the original document lacks is left out while it holds its default value.
pub open spec fn set_with_default_spec(
    m: Map<Seq<char>, TomlSpec>,
    has_original: bool,
    key: Seq<char>,
    value: TomlSpec,
    default: TomlSpec,
) -> Map<Seq<char>, TomlSpec> {
    if has_original || value != default {
        m.insert(key, value)
    } else {
        m.remove(key)
    }
}

/// `m` with the table at position `index` of the array under `key` changed by `f`, when
/// there is such a table; otherwise `m`.
pub open spec fn edit_elem_table(
    m: Map<Seq<char>, TomlSpec>,
    key: Seq<char>,
    index: int,
    f: spec_fn(Map<Seq<char>, TomlSpec>) -> Map<Seq<char>, TomlSpec>,
) -> Map<Seq<char>, TomlSpec> {
    match elem_table(m, key, index) {
        Some(t) => with_elem(m, key, index, TomlSpec::Table(f(t))),
        None => m,
    }
}

/// `m` with the array at position `index` of the array under `key` changed by `f`, when
/// there is such an array; otherwise `m`.
pub open spec fn edit_elem_array(
    m: Map<Seq<char>, TomlSpec>,
    key: Seq<char>,
    index: int,
    f: spec_fn(Seq<TomlSpec>) -> Seq<TomlSpec>,
) -> Map<Seq<char>, TomlSpec> {
    match elem_array(m, key, index) {
        Some(a) => with_elem(m, key, index, TomlSpec::Array(f(a))),
        None => m,
    }
}

/// `m` with the table under `key` changed by `f`, when there is one; otherwise `m`.
pub open spec fn edit_table_at(
    m: Map<Seq<char>, TomlSpec>,
    key: Seq<char>,
    f: spec_fn(Map<Seq<char>, TomlSpec>) -> Map<Seq<char>, TomlSpec>,
) -> Map<Seq<char>, TomlSpec> {
    match table_at(m, key) {
        Some(t) => m.insert(key, TomlSpec::Table(f(t))),
        None => m,
    }
}

/// Takes the table at position `index` of the array under `key` out of `mob`, together with
/// the rest of that array; the array leaves `mob` with it.
pub(crate) fn take_elem_table(mob: &mut TomlTable, key: &str, index: usize) -> (r: Option<
    (Vec<TomlValue>, TomlTable),
>)
    ensures
        match r {
            Some((rest, t)) => {
                &&& elem_table(old(mob)@, key@, index as int) == Some(t@)
                &&& index <= rest@.len()
                &&& array_at(old(mob)@, key@) == Some(
                    seq_view(rest@).insert(index as int, TomlSpec::Table(t@)),
                )
                &&& final(mob)@ == old(mob)@.remove(key@)
            },
            None => {
                &&& elem_table(old(mob)@, key@, index as int) is None
                &&& final(mob)@ == old(mob)@
            },
        },
{
    let ghost before = mob@;
    match mob.take_array(key) {
        Some(mut arr) => {
            let ghost whole = arr@;
            if index < arr.len() {
                let elem = arr.remove(index);
                match elem {
                    TomlValue::Table(t) => {
                        assert(seq_view(arr@).insert(index as int, TomlSpec::Table(t@)) =~= seq_view(whole));
                        return Some((arr, t));
                    },
                    other => {
                        arr.insert(index, other);
                        assert(arr@ =~= whole);
                    },
                }
            }
            mob.insert(key.to_owned(), TomlValue::Array(arr));
            assert(mob@ =~= before);
            None
        },
        None => None,
    }
}

/// Takes the array at position `index` of the array under `key` out of `mob`, together with
/// the rest of the outer array; the outer array leaves `mob` with it.
pub(crate) fn take_elem_array(mob: &mut TomlTable, key: &str, index: usize) -> (r: Option<
    (Vec<TomlValue>, Vec<TomlValue>),
>)
    ensures
        match r {
            Some((rest, a)) => {
                &&& elem_array(old(mob)@, key@, index as int) == Some(seq_view(a@))
                &&& index <= rest@.len()
                &&& array_at(old(mob)@, key@) == Some(
                    seq_view(rest@).insert(index as int, TomlSpec::Array(seq_view(a@))),
                )
                &&& final(mob)@ == old(mob)@.remove(key@)
            },
            None => {
                &&& elem_array(old(mob)@, key@, index as int) is None
                &&& final(mob)@ == old(mob)@
            },
        },
{
    let ghost before = mob@;
    match mob.take_array(key) {
        Some(mut arr) => {
            let ghost whole = arr@;
            if index < arr.len() {
                let elem = arr.remove(index);
                match elem {
                    TomlValue::Array(a) => {
                        assert(seq_view(arr@).insert(index as int, TomlSpec::Array(seq_view(a@)))
                            =~= seq_view(whole));
                        return Some((arr, a));
                    },
                    other => {
                        arr.insert(index, other);
                        assert(arr@ =~= whole);
                    },
                }
            }
            mob.insert(key.to_owned(), TomlValue::Array(arr));
            assert(mob@ =~= before);
            None
        },
        None => None,
    }
}

/// The value at position `index` of the array under `key`, when there is one.
pub open spec fn elem_value(m: Map<Seq<char>, TomlSpec>, key: Seq<char>, index: int) -> Option<TomlSpec> {
    match array_at(m, key) {
        Some(a) => if 0 <= index < a.len() {
            Some(a[index])
        } else {
            None
        },
        None => None,
    }
}

/// Takes the value at position `index` of the array under `key` out of `mob`, together with
/// the rest of that array; the array leaves `mob` with it.
pub(crate) fn take_elem_value(mob: &mut TomlTable, key: &str, index: usize) -> (r: Option<
    (Vec<TomlValue>, TomlValue),
>)
    ensures
        match r {
            Some((rest, v)) => {
                &&& elem_value(old(mob)@, key@, index as int) == Some(v@)
                &&& index <= rest@.len()
                &&& array_at(old(mob)@, key@) == Some(seq_view(rest@).insert(index as int, v@))
                &&& final(mob)@ == old(mob)@.remove(key@)
            },
            None => {
                &&& elem_value(old(mob)@, key@, index as int) is None
                &&& final(mob)@ == old(mob)@
            },
        },
{
    let ghost before = mob@;
    match mob.take_array(key) {
        Some(mut arr) => {
            let ghost whole = arr@;
            if index < arr.len() {
                let elem = arr.remove(index);
                assert(seq_view(arr@).insert(index as int, elem@) =~= seq_view(whole));
                return Some((arr, elem));
            }
            mob.insert(key.to_owned(), TomlValue::Array(arr));
            assert(mob@ =~= before);
            None
        },
        None => None,
    }
}

/// Puts an element taken by `take_elem_table` or `take_elem_array` back in its place, as the
/// value `v`.
pub(crate) fn put_elem(
    mob: &mut TomlTable,
    key: &str,
    rest: Vec<TomlValue>,
    index: usize,
    v: TomlValue,
    Ghost(orig): Ghost<Map<Seq<char>, TomlSpec>>,
)
    requires
        index <= rest@.len(),
        old(mob)@ == orig.remove(key@),
        array_at(orig, key@) is Some,
        exists|x: TomlSpec|
            array_at(orig, key@) == Some(#[trigger] seq_view(rest@).insert(index as int, x)),
    ensures
        final(mob)@ == with_elem(orig, key@, index as int, v@),
{
    let ghost x = choose|x: TomlSpec|
        array_at(orig, key@) == Some(#[trigger] seq_view(rest@).insert(index as int, x));
    let mut arr = rest;
    let ghost r = arr@;
    arr.insert(index, v);
    assert(seq_view(arr@) =~= seq_view(r).insert(index as int, x).update(index as int, v@));
    mob.insert(key.to_owned(), TomlValue::Array(arr));
    assert(mob@ =~= with_elem(orig, key@, index as int, v@));
}

/// Removes position `index` of the array under `key` (when it is there) and drops the key when
/// the array is left empty.
pub(crate) fn delete_elem_and_prune(mob: &mut TomlTable, key: &str, index: usize)
    ensures
        final(mob)@ == delete_elem_pruned(old(mob)@, key@, index as int),
{
    let ghost before = mob@;
    if let Some(mut arr) = mob.take_array(key) {
        let ghost whole = seq_view(arr@);
        if index < arr.len() {
            arr.remove(index);
            assert(seq_view(arr@) =~= whole.remove(index as int));
        }
        if arr.len() > 0 {
            mob.insert(key.to_owned(), TomlValue::Array(arr));
        }
    }
}

/// Appends `v` to the array under `key`, creating an empty array there first when the key is
/// missing; a key that holds something else is left alone.
pub(crate) fn push_to_array_field(mob: &mut TomlTable, key: &str, v: TomlValue)
    ensures
        final(mob)@ == push_elem_spec(old(mob)@, key@, v@),
{
    if !mob.contains_key(key) {
        mob.insert(key.to_owned(), TomlValue::Array(Vec::new()));
        assert(seq_view(Seq::<TomlValue>::empty()) =~= Seq::<TomlSpec>::empty());
    }
    if let Some(mut arr) = mob.take_array(key) {
        let ghost whole = seq_view(arr@);
        arr.push(v);
        assert(seq_view(arr@) =~= whole.push(v@));
        mob.insert(key.to_owned(), TomlValue::Array(arr));
    }
}

/// `m` with `v` appended to the array under `key`, an empty array being created first for a
/// missing key; a key that holds something else is left alone.
pub open spec fn push_elem_spec(m: Map<Seq<char>, TomlSpec>, key: Seq<char>, v: TomlSpec) -> Map<
    Seq<char>,
    TomlSpec,
> {
    let m1 = if m.contains_key(key) {
        m
    } else {
        m.insert(key, TomlSpec::Array(Seq::empty()))
    };
    match array_at(m1, key) {
        Some(a) => m1.insert(key, TomlSpec::Array(a.push(v))),
        None => m1,
    }
}

/// The value `[x, y]` of two floats given by their bit patterns.
pub fn vec2_value(x: u64, y: u64) -> (v: TomlValue)
    ensures
        v@ == vec2_spec(x, y),
{
    let mut items: Vec<TomlValue> = Vec::new();
    items.push(TomlValue::Float(x));
    items.push(TomlValue::Float(y));
    let v = TomlValue::Array(items);
    assert(seq_view(items@) =~= seq![TomlSpec::Float(x), TomlSpec::Float(y)]);
    v
}

/// Takes the top-level table of the current document out of the session.
pub fn take_mob(session: &mut EditorSession) -> (r: Option<TomlTable>)
    ensures
        final(session).original_mob == old(session).original_mob,
        match r {
            Some(t) => {
                &&& mob_map(doc_view(old(session).current_mob)) == Some(t@)
                &&& final(session).current_mob is None
            },
            None => {
                &&& mob_map(doc_view(old(session).current_mob)) is None
                &&& final(session).current_mob == old(session).current_mob
            },
        },
{
    match session.current_mob.take() {
        Some(TomlValue::Table(t)) => Some(t),
        other => {
            session.current_mob = other;
            None
        },
    }
}

/// Puts a top-level table back as the current document.
pub fn put_mob(session: &mut EditorSession, t: TomlTable)
    ensures
        final(session).original_mob == old(session).original_mob,
        doc_view(final(session).current_mob) == Some(TomlSpec::Table(t@)),
{
    session.current_mob = Some(TomlValue::Table(t));
}

/// Sets a top-level field of the current mob.
pub fn set_field(session: &mut EditorSession, key: &str, value: TomlValue)
    ensures
        final(session).original_mob == old(session).original_mob,
        doc_view(final(session).current_mob) == edit_mob(
            doc_view(old(session).current_mob),
            |m: Map<Seq<char>, TomlSpec>| m.insert(key@, value@),
        ),
{
    if let Some(mut mob) = take_mob(session) {
        mob.insert(key.to_owned(), value);
        put_mob(session, mob);
    }
}

/// Removes a top-level field of the current mob.
pub fn remove_field(session: &mut EditorSession, key: &str)
    ensures
        final(session).original_mob == old(session).original_mob,
        doc_view(final(session).current_mob) == edit_mob(
            doc_view(old(session).current_mob),
            |m: Map<Seq<char>, TomlSpec>| m.remove(key@),
        ),
{
    if let Some(mut mob) = take_mob(session) {
        mob.remove(key);
        put_mob(session, mob);
    }
}

/// Whether the original document has `key` at its top level.
pub fn original_has_field(session: &EditorSession, key: &str) -> (r: bool)
    ensures
        r == original_has(doc_view(session.original_mob), key@),
{
    match &session.original_mob {
        Some(TomlValue::Table(t)) => t.contains_key(key),
        _ => false,
    }
}

/// Sets a top-level field, keeping it out of the document while the original lacks it and
/// the new value is the default.
pub fn set_field_with_default(
    session: &mut EditorSession,
    key: &str,
    value: TomlValue,
    default: TomlValue,
)
    ensures
        final(session).original_mob == old(session).original_mob,
        doc_view(final(session).current_mob) == edit_mob(
            doc_view(old(session).current_mob),
            |m: Map<Seq<char>, TomlSpec>|
                set_with_default_spec(
                    m,
                    original_has(doc_view(old(session).original_mob), key@),
                    key@,
                    value@,
                    default@,
                ),
        ),
{
    let original_has_it = original_has_field(session, key);
    if let Some(mut mob) = take_mob(session) {
        if original_has_it {
            mob.insert(key.to_owned(), value);
        } else if values_equal(&value, &default) {
            mob.remove(key);
        } else {
            mob.insert(key.to_owned(), value);
        }
        put_mob(session, mob);
    }
}

/// Sets a two-float field `[x, y]` in the same default-tracking way as
/// `set_field_with_default`.
pub fn set_vec2_field_with_default(
    session: &mut EditorSession,
    key: &str,
    x: u64,
    y: u64,
    default_x: u64,
    default_y: u64,
)
    ensures
        final(session).original_mob == old(session).original_mob,
        doc_view(final(session).current_mob) == edit_mob(
            doc_view(old(session).current_mob),
            |m: Map<Seq<char>, TomlSpec>|
                set_with_default_spec(
                    m,
                    original_has(doc_view(old(session).original_mob), key@),
                    key@,
                    vec2_spec(x, y),
                    vec2_spec(default_x, default_y),
                ),
        ),
{
    let value = vec2_value(x, y);
    let default = vec2_value(default_x, default_y);
    set_field_with_default(session, key, value, default);
}

} // verus!
