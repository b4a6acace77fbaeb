//! The sections of the properties panel: whether a patch overrides a section of its base,
//! taking a section over from the base or giving it back, and reading the values that the
//! panel shows, with their defaults.

use vstd::prelude::*;

use crate::document::{clone_value, TomlSpec, TomlTable, TomlValue};
use crate::fields::{vec2_component, vec2_components, Number};
use crate::names::{sort_names, sorted_by_bytes, str_bytes};
use crate::session::{doc_view, edit_mob, mob_map, put_mob, table_at, take_mob, EditorSession, FLOAT_TEN};

verus! {

broadcast use vstd::seq_lib::group_to_multiset_ensures, vstd::multiset::group_multiset_axioms;

/// Whether the patch being edited sets `key` itself (rather than inheriting it from its base).
pub fn is_section_patched(is_patch: bool, patch_table: &TomlTable, key: &str) -> (r: bool)
    ensures
        r == (is_patch && patch_table@.contains_key(key@)),
{
    is_patch && patch_table.contains_key(key)
}

/// Whether the panel lets the user edit a section: always for a mob, and for a patch only once
/// the patch overrides the section.
pub fn section_editable(is_patch: bool, is_patched: bool) -> (r: bool)
    ensures
        r == (!is_patch || is_patched),
{
    !is_patch || is_patched
}

/// The value that taking section `key` over from the base puts into the patch: the displayed
/// (base) value, or an empty list when there is none and `create_empty` is set.
pub open spec fn override_value(display: Map<Seq<char>, TomlSpec>, key: Seq<char>, create_empty: bool) -> Option<
    TomlSpec,
> {
    if display.contains_key(key) {
        Some(display[key])
    } else if create_empty {
        Some(TomlSpec::Array(Seq::empty()))
    } else {
        None
    }
}

/// Takes section `key` over from the base: the displayed value is copied into the current
/// document (or an empty list, with `create_empty`, when the base has none). Returns whether
/// the document changed hands.
pub fn override_section(
    session: &mut EditorSession,
    display_table: &TomlTable,
    key: &str,
    create_empty: bool,
) -> (modified: bool)
    ensures
        modified == (mob_map(doc_view(old(session).current_mob)) is Some && override_value(
            display_table@,
            key@,
            create_empty,
        ) is Some),
        final(session).original_mob == old(session).original_mob,
        doc_view(final(session).current_mob) == match override_value(
            display_table@,
            key@,
            create_empty,
        ) {
            Some(v) => edit_mob(
                doc_view(old(session).current_mob),
                |m: Map<Seq<char>, TomlSpec>| m.insert(key@, v),
            ),
            None => doc_view(old(session).current_mob),
        },
        display_table@.contains_key(key@) && mob_map(doc_view(old(session).current_mob)) is Some
            ==> modified && mob_map(doc_view(final(session).current_mob)) == Some(
            mob_map(doc_view(old(session).current_mob)).unwrap().insert(key@, display_table@[key@]),
        ),
{
    let value = match display_table.get(key) {
        Some(v) => clone_value(v),
        None => {
            if !create_empty {
                return false;
            }
            proof {
                assert(crate::document::seq_view(Seq::<TomlValue>::empty()) =~= Seq::<TomlSpec>::empty());
            }
            TomlValue::Array(Vec::new())
        },
    };
    match take_mob(session) {
        Some(mut mob) => {
            let _ = mob.insert(key.to_owned(), value);
            put_mob(session, mob);
            true
        },
        None => false,
    }
}

/// Gives section `key` back to the base by removing it from the current document. Returns
/// whether there was a document to change.
pub fn reset_section(session: &mut EditorSession, key: &str) -> (modified: bool)
    ensures
        modified == (mob_map(doc_view(old(session).current_mob)) is Some),
        final(session).original_mob == old(session).original_mob,
        doc_view(final(session).current_mob) == edit_mob(
            doc_view(old(session).current_mob),
            |m: Map<Seq<char>, TomlSpec>| m.remove(key@),
        ),
{
    match take_mob(session) {
        Some(mut mob) => {
            let _ = mob.remove(key);
            put_mob(session, mob);
            true
        },
        None => false,
    }
}

/// The float under `key`, by its bits, or `default` when there is no float there.
pub open spec fn float_or_spec(m: Map<Seq<char>, TomlSpec>, key: Seq<char>, default: u64) -> u64 {
    if m.contains_key(key) && m[key] is Float {
        m[key]->Float_0
    } else {
        default
    }
}

/// The float under `key`, by its bits, or `default` when there is no float there.
pub fn float_or(table: &TomlTable, key: &str, default: u64) -> (r: u64)
    ensures
        r == float_or_spec(table@, key@, default),
{
    match table.get(key) {
        Some(TomlValue::Float(b)) => *b,
        _ => default,
    }
}

/// The integer under `key`, or `default` when there is no integer there.
pub open spec fn int_or_spec(m: Map<Seq<char>, TomlSpec>, key: Seq<char>, default: i64) -> i64 {
    if m.contains_key(key) && m[key] is Int {
        m[key]->Int_0
    } else {
        default
    }
}

/// The integer under `key`, or `default` when there is no integer there.
pub fn int_or(table: &TomlTable, key: &str, default: i64) -> (r: i64)
    ensures
        r == int_or_spec(table@, key@, default),
{
    match table.get(key) {
        Some(TomlValue::Integer(i)) => *i,
        _ => default,
    }
}

/// The boolean under `key`, or `default` when there is no boolean there.
pub open spec fn bool_or_spec(m: Map<Seq<char>, TomlSpec>, key: Seq<char>, default: bool) -> bool {
    if m.contains_key(key) && m[key] is Bool {
        m[key]->Bool_0
    } else {
        default
    }
}

/// The boolean under `key`, or `default` when there is no boolean there.
pub fn bool_or(table: &TomlTable, key: &str, default: bool) -> (r: bool)
    ensures
        r == bool_or_spec(table@, key@, default),
{
    match table.get(key) {
        Some(TomlValue::Boolean(b)) => *b,
        _ => default,
    }
}

/// The string under `key`, or the empty string when there is no string there.
pub open spec fn str_or_empty_spec(m: Map<Seq<char>, TomlSpec>, key: Seq<char>) -> Seq<char> {
    if m.contains_key(key) && m[key] is Str {
        m[key]->Str_0
    } else {
        Seq::empty()
    }
}

/// The string under `key`, or the empty string when there is no string there.
pub fn str_or_empty(table: &TomlTable, key: &str) -> (r: String)
    ensures
        r@ == str_or_empty_spec(table@, key@),
{
    match table.get(key) {
        Some(TomlValue::String(s)) => s.clone(),
        _ => String::new(),
    }
}

/// The shape of a collider as the panel shows it.
#[derive(PartialEq, Eq, Structural, Clone, Copy, Debug)]
pub enum ColliderShape {
    /// A circle of the given radius (a float by its bits).
    Circle(u64),
    /// A rectangle of the given width and height (floats by their bits).
    Rectangle(u64, u64),
    /// No shape that the panel knows.
    Unknown,
}

/// A float read from a shape's dimensions, or `default`.
pub open spec fn dimension_or(n: Option<Number>, default: u64) -> u64 {
    match n {
        Some(Number::Float(b)) => b,
        _ => default,
    }
}

/// The shape of collider `c`: a `Circle` radius that is a float, else a `Rectangle` array whose
/// missing dimensions count as ten.
pub open spec fn collider_shape_spec(c: Map<Seq<char>, TomlSpec>) -> ColliderShape {
    match table_at(c, "shape"@) {
        Some(s) => if s.contains_key("Circle"@) && s["Circle"@] is Float {
            ColliderShape::Circle(s["Circle"@]->Float_0)
        } else if s.contains_key("Rectangle"@) && s["Rectangle"@] is Array {
            ColliderShape::Rectangle(
                dimension_or(vec2_component(s, "Rectangle"@, 0, false), FLOAT_TEN),
                dimension_or(vec2_component(s, "Rectangle"@, 1, false), FLOAT_TEN),
            )
        } else {
            ColliderShape::Unknown
        },
        None => ColliderShape::Unknown,
    }
}

fn dimension_or_exec(n: Option<Number>, default: u64) -> (r: u64)
    ensures
        r == dimension_or(n, default),
{
    match n {
        Some(Number::Float(b)) => b,
        _ => default,
    }
}

/// The shape of a collider as the panel shows it.
pub fn collider_shape(collider: &TomlTable) -> (r: ColliderShape)
    ensures
        r == collider_shape_spec(collider@),
{
    match collider.get("shape") {
        Some(TomlValue::Table(s)) => match s.get("Circle") {
            Some(TomlValue::Float(r)) => ColliderShape::Circle(*r),
            _ => match s.get("Rectangle") {
                Some(TomlValue::Array(_)) => {
                    let (w, h) = vec2_components(s, "Rectangle", false);
                    ColliderShape::Rectangle(
                        dimension_or_exec(w, FLOAT_TEN),
                        dimension_or_exec(h, FLOAT_TEN),
                    )
                },
                _ => ColliderShape::Unknown,
            },
        },
        _ => ColliderShape::Unknown,
    }
}

/// The keys of a table in byte order, as the spawner sections list them.
pub fn sorted_keys(table: &TomlTable) -> (r: Vec<String>)
    ensures
        r@.len() == table@.dom().len(),
        forall|i: int| 0 <= i < r@.len() ==> table@.contains_key(#[trigger] r@[i]@),
        forall|k: Seq<char>| #[trigger] table@.contains_key(k) ==> exists|i: int|
            0 <= i < r@.len() && r@[i]@ == k,
        sorted_by_bytes(r@),
{
    let keys = table.keys();
    let r = sort_names(keys);
    proof {
        assert(r@.len() == r@.to_multiset().len());
        assert(keys@.len() == keys@.to_multiset().len());
        assert forall|i: int| 0 <= i < r@.len() implies table@.contains_key(#[trigger] r@[i]@) by {
            assert(r@.to_multiset().count(r@[i]) > 0);
            assert(keys@.to_multiset().count(r@[i]) > 0);
            assert(keys@.contains(r@[i]));
        }
        assert forall|k: Seq<char>| #[trigger] table@.contains_key(k) implies exists|i: int|
            0 <= i < r@.len() && r@[i]@ == k by {
            let j = choose|j: int| 0 <= j < keys@.len() && keys@[j]@ == k;
            assert(keys@.to_multiset().count(keys@[j]) > 0);
            assert(r@.contains(keys@[j]));
        }
    }
    r
}

/// The selected item of a list after item `deleted` is removed: the deleted item is no longer
/// selected, and a selection after it moves down by one so that it keeps to the same item.
pub open spec fn selection_after_delete_spec(selected: Option<usize>, deleted: usize) -> Option<usize> {
    match selected {
        Some(s) => if s == deleted {
            None
        } else if s > deleted {
            Some((s - 1) as usize)
        } else {
            Some(s)
        },
        None => None,
    }
}

/// The selected item of a list after item `deleted` is removed.
pub fn selection_after_delete(selected: Option<usize>, deleted: usize) -> (r: Option<usize>)
    ensures
        r == selection_after_delete_spec(selected, deleted),
{
    match selected {
        Some(s) => if s == deleted {
            None
        } else if s > deleted {
            Some(s - 1)
        } else {
            Some(s)
        },
        None => None,
    }
}

/// The selection after the Select/Deselect button of item `index`: selecting it, or clearing
/// the selection when it is the selected one.
pub fn toggle_selection(selected: Option<usize>, index: usize) -> (r: Option<usize>)
    ensures
        r == (if selected == Some(index) {
            None
        } else {
            Some(index)
        }),
{
    match selected {
        Some(s) => if s == index {
            None
        } else {
            Some(index)
        },
        None => Some(index),
    }
}

/// The table that a copy of `v` holds, when `v` is a table.
fn table_copy(v: &TomlValue) -> (r: Option<TomlTable>)
    ensures
        match v@ {
            TomlSpec::Table(m) => r matches Some(t) && t@ == m,
            _ => r is None,
        },
{
    match clone_value(v) {
        TomlValue::Table(t) => Some(t),
        _ => None,
    }
}

/// The tables that the properties panel shows and checks against. For a patch whose merged mob
/// is given (`merged`: the base mob with the patch applied), the merged table is shown and the
/// patch itself tells which fields it sets; otherwise the current mob serves as both. Nothing
/// when the current document, or the merged one, is no table.
pub fn get_display_tables(session: &EditorSession, is_patch: bool, merged: Option<&TomlValue>) -> (r:
    Option<(TomlTable, TomlTable)>)
    ensures
        match mob_map(doc_view(session.current_mob)) {
            None => r is None,
            Some(cur) => if is_patch && merged is Some {
                match merged.unwrap()@ {
                    TomlSpec::Table(mm) => r matches Some(pair) && pair.0@ == mm && pair.1@ == cur,
                    _ => r is None,
                }
            } else {
                r matches Some(pair) && pair.0@ == cur && pair.1@ == cur
            },
        },
{
    let current = match &session.current_mob {
        Some(v) => match table_copy(v) {
            Some(t) => t,
            None => return None,
        },
        None => return None,
    };
    if is_patch {
        if let Some(m) = merged {
            return match table_copy(m) {
                Some(d) => Some((d, current)),
                None => None,
            };
        }
    }
    let shown = match &session.current_mob {
        Some(v) => table_copy(v),
        None => None,
    };
    match shown {
        Some(d) => Some((d, current)),
        None => None,
    }
}

} // verus!
