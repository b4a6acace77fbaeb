//! Results of the property editors and how they are applied to the document.

use vstd::prelude::*;

use crate::document::{lemma_seq_view, TomlSpec, TomlTable, TomlValue};
use crate::session::{
    array_at, doc_view, edit_mob, original_has, remove_field, set_field, set_field_with_default,
    set_with_default_spec, vec2_spec, vec2_value, EditorSession,
};
use crate::spawners::{
    remove_spawner_field, remove_spawner_field_spec, set_spawner_field, set_spawner_field_spec,
    spawner_path_ok,
};

verus! {

broadcast use lemma_seq_view;

/// What a field editor reports after the user has dealt with it.
pub enum FieldResult<T> {
    /// No change was made to the field.
    NoChange,
    /// The field value was changed to the given value.
    Changed(T),
    /// The field should be removed from the patch (reset to the inherited value).
    Reset,
}

/// What the properties panel asks the rest of the editor to do.
pub struct PropertiesPanelResult {
    /// Whether the main sprite browser should be opened.
    pub open_sprite_browser: bool,
    /// The decoration that needs a sprite browser, if any.
    pub open_decoration_browser: Option<usize>,
    /// Whether registering the mob was asked for.
    pub register_mob: bool,
}

impl Default for PropertiesPanelResult {
    fn default() -> (r: Self)
        ensures
            !r.open_sprite_browser,
            r.open_decoration_browser is None,
            !r.register_mob,
    {
        PropertiesPanelResult {
            open_sprite_browser: false,
            open_decoration_browser: None,
            register_mob: false,
        }
    }
}

/// The document after a field editor's result for the top-level field `key`: a change sets the
/// field (with `default`, it stays out of a document whose original lacks it while the value is
/// the default), a reset removes it.
pub open spec fn field_result_spec(
    doc: Option<TomlSpec>,
    original: Option<TomlSpec>,
    key: Seq<char>,
    result: FieldResult<TomlSpec>,
    default: Option<TomlSpec>,
) -> Option<TomlSpec> {
    match result {
        FieldResult::NoChange => doc,
        FieldResult::Changed(v) => match default {
            Some(d) => edit_mob(
                doc,
                |m: Map<Seq<char>, TomlSpec>| set_with_default_spec(m, original_has(original, key), key, v, d),
            ),
            None => edit_mob(doc, |m: Map<Seq<char>, TomlSpec>| m.insert(key, v)),
        },
        FieldResult::Reset => edit_mob(doc, |m: Map<Seq<char>, TomlSpec>| m.remove(key)),
    }
}

/// The value of a field editor's result.
pub open spec fn result_view(r: FieldResult<TomlValue>) -> FieldResult<TomlSpec> {
    match r {
        FieldResult::NoChange => FieldResult::NoChange,
        FieldResult::Changed(v) => FieldResult::Changed(v@),
        FieldResult::Reset => FieldResult::Reset,
    }
}

/// The value of an optional document value.
pub open spec fn opt_view(v: Option<TomlValue>) -> Option<TomlSpec> {
    match v {
        Some(x) => Some(x@),
        None => None,
    }
}

/// Applies a field editor's result to the top-level field `key` of the current mob; `default`
/// is the value that the game assumes when the field is missing, for the fields that have one.
/// Returns whether anything was done.
pub fn apply_field_result(
    session: &mut EditorSession,
    key: &str,
    result: FieldResult<TomlValue>,
    default: Option<TomlValue>,
) -> (modified: bool)
    ensures
        modified == !(result is NoChange),
        final(session).original_mob == old(session).original_mob,
        doc_view(final(session).current_mob) == field_result_spec(
            doc_view(old(session).current_mob),
            doc_view(old(session).original_mob),
            key@,
            result_view(result),
            opt_view(default),
        ),
{
    match result {
        FieldResult::NoChange => false,
        FieldResult::Changed(v) => {
            match default {
                Some(d) => set_field_with_default(session, key, v, d),
                None => set_field(session, key, v),
            }
            true
        },
        FieldResult::Reset => {
            remove_field(session, key);
            true
        },
    }
}

/// The document after a field editor's result for `field` of the spawner `spawner_name` among
/// the `spawner_type` spawners.
pub open spec fn spawner_result_spec(
    doc: Option<TomlSpec>,
    spawner_type: Seq<char>,
    spawner_name: Seq<char>,
    field: Seq<char>,
    result: FieldResult<TomlSpec>,
) -> Option<TomlSpec> {
    match result {
        FieldResult::NoChange => doc,
        FieldResult::Changed(v) => edit_mob(
            doc,
            |m: Map<Seq<char>, TomlSpec>| set_spawner_field_spec(m, spawner_type, spawner_name, field, v),
        ),
        FieldResult::Reset => edit_mob(
            doc,
            |m: Map<Seq<char>, TomlSpec>| remove_spawner_field_spec(m, spawner_type, spawner_name, field),
        ),
    }
}

/// Applies a field editor's result to `field` of the spawner `spawner_name` among the
/// `spawner_type` spawners. Returns whether anything was done.
pub fn apply_spawner_field_result(
    session: &mut EditorSession,
    spawner_type: &str,
    spawner_name: &str,
    field: &str,
    result: FieldResult<TomlValue>,
) -> (modified: bool)
    requires
        result is Changed ==> spawner_path_ok(
            doc_view(old(session).current_mob),
            spawner_type@,
            spawner_name@,
        ),
    ensures
        modified == !(result is NoChange),
        final(session).original_mob == old(session).original_mob,
        doc_view(final(session).current_mob) == spawner_result_spec(
            doc_view(old(session).current_mob),
            spawner_type@,
            spawner_name@,
            field@,
            result_view(result),
        ),
{
    match result {
        FieldResult::NoChange => false,
        FieldResult::Changed(v) => {
            set_spawner_field(session, spawner_type, spawner_name, field, v);
            true
        },
        FieldResult::Reset => {
            remove_spawner_field(session, spawner_type, spawner_name, field);
            true
        },
    }
}

/// Sets `key` of `table` to the two-element float array `[x, y]` (floats by their bits).
pub fn set_vec2_value(table: &mut TomlTable, key: &str, x: u64, y: u64)
    ensures
        final(table)@ == old(table)@.insert(key@, vec2_spec(x, y)),
{
    let _ = table.insert(key.to_owned(), vec2_value(x, y));
}

/// A number read from a document: a float by its bits, or an integer.
#[derive(PartialEq, Eq, Structural, Clone, Copy, Debug)]
pub enum Number {
    Float(u64),
    Integer(i64),
}

/// The number that `v` holds, if it holds a float, or an integer while `integers` is set.
pub open spec fn number_of(v: TomlSpec, integers: bool) -> Option<Number> {
    match v {
        TomlSpec::Float(b) => Some(Number::Float(b)),
        TomlSpec::Int(i) => if integers {
            Some(Number::Integer(i))
        } else {
            None
        },
        _ => None,
    }
}

/// The number at position `index` of the array under `key` of `m`, if there is one.
pub open spec fn vec2_component(
    m: Map<Seq<char>, TomlSpec>,
    key: Seq<char>,
    index: int,
    integers: bool,
) -> Option<Number> {
    match array_at(m, key) {
        Some(a) => if 0 <= index < a.len() {
            number_of(a[index], integers)
        } else {
            None
        },
        None => None,
    }
}

fn number_in(v: &TomlValue, integers: bool) -> (r: Option<Number>)
    ensures
        r == number_of(v@, integers),
{
    match v {
        TomlValue::Float(b) => Some(Number::Float(*b)),
        TomlValue::Integer(i) => if integers {
            Some(Number::Integer(*i))
        } else {
            None
        },
        _ => None,
    }
}

/// The first two numbers of the array under `key` of `table`, each one missing when the array
/// is, when it is shorter, or when the element is no float (or integer, while `integers` is
/// set). The caller turns them into coordinates, a missing one into its default.
pub fn vec2_components(table: &TomlTable, key: &str, integers: bool) -> (r: (
    Option<Number>,
    Option<Number>,
))
    ensures
        r.0 == vec2_component(table@, key@, 0, integers),
        r.1 == vec2_component(table@, key@, 1, integers),
{
    match table.get(key) {
        Some(TomlValue::Array(a)) => {
            assert(array_at(table@, key@) == Some(crate::document::seq_view(a@)));
            assert(crate::document::seq_view(a@).len() == a@.len());
            let x = if a.len() > 0 {
                number_in(&a[0], integers)
            } else {
                None
            };
            let y = if a.len() > 1 {
                number_in(&a[1], integers)
            } else {
                None
            };
            (x, y)
        },
        _ => (None, None),
    }
}

} // verus!
