//! Editing the colliders of a mob.

use vstd::prelude::*;

use crate::document::{str_eq, TomlSpec, TomlTable, TomlValue};
use crate::session::{
    delete_elem_and_prune, delete_elem_pruned, doc_view, edit_elem_table, edit_mob, edit_table_at,
    push_elem_spec, push_to_array_field, put_elem, put_mob, take_elem_table, take_mob, vec2_spec,
    vec2_value, EditorSession, FLOAT_TEN, FLOAT_TWENTY, FLOAT_ZERO,
};

verus! {

/// The collider that is added for a new circle (`circle`) or rectangle.
pub open spec fn new_collider_spec(circle: bool) -> TomlSpec {
    let shape = if circle {
        Map::empty().insert("Circle"@, TomlSpec::Float(FLOAT_TEN))
    } else {
        Map::empty().insert("Rectangle"@, vec2_spec(FLOAT_TWENTY, FLOAT_TWENTY))
    };
    TomlSpec::Table(
        Map::empty().insert("shape"@, TomlSpec::Table(shape)).insert(
            "position"@,
            vec2_spec(FLOAT_ZERO, FLOAT_ZERO),
        ).insert("rotation"@, TomlSpec::Float(FLOAT_ZERO)),
    )
}

/// `m` with the shape table of collider `index` changed by `f`.
pub open spec fn edit_collider_shape(
    m: Map<Seq<char>, TomlSpec>,
    index: int,
    f: spec_fn(Map<Seq<char>, TomlSpec>) -> Map<Seq<char>, TomlSpec>,
) -> Map<Seq<char>, TomlSpec> {
    edit_elem_table(
        m,
        "colliders"@,
        index,
        |c: Map<Seq<char>, TomlSpec>| edit_table_at(c, "shape"@, f),
    )
}

/// Sets field `field` of collider `index` to `v`.
fn set_collider_field(session: &mut EditorSession, index: usize, field: &str, v: TomlValue)
    ensures
        final(session).original_mob == old(session).original_mob,
        doc_view(final(session).current_mob) == edit_mob(
            doc_view(old(session).current_mob),
            |m: Map<Seq<char>, TomlSpec>|
                edit_elem_table(
                    m,
                    "colliders"@,
                    index as int,
                    |c: Map<Seq<char>, TomlSpec>| c.insert(field@, v@),
                ),
        ),
{
    if let Some(mut mob) = take_mob(session) {
        let ghost orig = mob@;
        if let Some((rest, mut collider)) = take_elem_table(&mut mob, "colliders", index) {
            collider.insert(field.to_owned(), v);
            put_elem(&mut mob, "colliders", rest, index, TomlValue::Table(collider), Ghost(orig));
        }
        put_mob(session, mob);
    }
}

/// Sets field `field` of the shape of collider `index` to `v`.
fn set_collider_shape_field(session: &mut EditorSession, index: usize, field: &str, v: TomlValue)
    ensures
        final(session).original_mob == old(session).original_mob,
        doc_view(final(session).current_mob) == edit_mob(
            doc_view(old(session).current_mob),
            |m: Map<Seq<char>, TomlSpec>|
                edit_collider_shape(
                    m,
                    index as int,
                    |s: Map<Seq<char>, TomlSpec>| s.insert(field@, v@),
                ),
        ),
{
    if let Some(mut mob) = take_mob(session) {
        let ghost orig = mob@;
        if let Some((rest, mut collider)) = take_elem_table(&mut mob, "colliders", index) {
            let ghost c0 = collider@;
            if let Some(mut shape) = collider.take_table("shape") {
                shape.insert(field.to_owned(), v);
                collider.insert("shape".to_owned(), TomlValue::Table(shape));
            }
            assert(collider@ =~= edit_table_at(c0, "shape"@, |s: Map<Seq<char>, TomlSpec>| s.insert(field@, v@)));
            put_elem(&mut mob, "colliders", rest, index, TomlValue::Table(collider), Ghost(orig));
        }
        put_mob(session, mob);
    }
}

/// Sets the radius of circle collider `index`.
pub fn update_collider_circle_radius(session: &mut EditorSession, index: usize, radius: u64)
    ensures
        final(session).original_mob == old(session).original_mob,
        doc_view(final(session).current_mob) == edit_mob(
            doc_view(old(session).current_mob),
            |m: Map<Seq<char>, TomlSpec>|
                edit_collider_shape(
                    m,
                    index as int,
                    |s: Map<Seq<char>, TomlSpec>| s.insert("Circle"@, TomlSpec::Float(radius)),
                ),
        ),
{
    set_collider_shape_field(session, index, "Circle", TomlValue::Float(radius));
}

/// Sets the width and height of rectangle collider `index`.
pub fn update_collider_rectangle_dims(
    session: &mut EditorSession,
    index: usize,
    width: u64,
    height: u64,
)
    ensures
        final(session).original_mob == old(session).original_mob,
        doc_view(final(session).current_mob) == edit_mob(
            doc_view(old(session).current_mob),
            |m: Map<Seq<char>, TomlSpec>|
                edit_collider_shape(
                    m,
                    index as int,
                    |s: Map<Seq<char>, TomlSpec>| s.insert("Rectangle"@, vec2_spec(width, height)),
                ),
        ),
{
    set_collider_shape_field(session, index, "Rectangle", vec2_value(width, height));
}

/// Sets the position of collider `index`.
pub fn update_collider_position(session: &mut EditorSession, index: usize, x: u64, y: u64)
    ensures
        final(session).original_mob == old(session).original_mob,
        doc_view(final(session).current_mob) == edit_mob(
            doc_view(old(session).current_mob),
            |m: Map<Seq<char>, TomlSpec>|
                edit_elem_table(
                    m,
                    "colliders"@,
                    index as int,
                    |c: Map<Seq<char>, TomlSpec>| c.insert("position"@, vec2_spec(x, y)),
                ),
        ),
{
    set_collider_field(session, index, "position", vec2_value(x, y));
}

/// Sets the rotation of collider `index`.
pub fn update_collider_rotation(session: &mut EditorSession, index: usize, rotation: u64)
    ensures
        final(session).original_mob == old(session).original_mob,
        doc_view(final(session).current_mob) == edit_mob(
            doc_view(old(session).current_mob),
            |m: Map<Seq<char>, TomlSpec>|
                edit_elem_table(
                    m,
                    "colliders"@,
                    index as int,
                    |c: Map<Seq<char>, TomlSpec>| c.insert("rotation"@, TomlSpec::Float(rotation)),
                ),
        ),
{
    set_collider_field(session, index, "rotation", TomlValue::Float(rotation));
}

/// The collider added for `shape_type`: a circle for "Circle", a rectangle otherwise.
pub fn new_collider(shape_type: &str) -> (c: TomlValue)
    ensures
        c@ == new_collider_spec(shape_type@ == "Circle"@),
{
    let circle = str_eq(shape_type, "Circle");
    let mut shape = TomlTable::new();
    if circle {
        shape.insert("Circle".to_owned(), TomlValue::Float(FLOAT_TEN));
    } else {
        shape.insert("Rectangle".to_owned(), vec2_value(FLOAT_TWENTY, FLOAT_TWENTY));
    }
    let mut collider = TomlTable::new();
    collider.insert("shape".to_owned(), TomlValue::Table(shape));
    collider.insert("position".to_owned(), vec2_value(FLOAT_ZERO, FLOAT_ZERO));
    collider.insert("rotation".to_owned(), TomlValue::Float(FLOAT_ZERO));
    TomlValue::Table(collider)
}

/// Adds a collider of shape `shape_type` ("Circle", or a rectangle for anything else).
pub fn add_new_collider(session: &mut EditorSession, shape_type: &str)
    ensures
        final(session).original_mob == old(session).original_mob,
        doc_view(final(session).current_mob) == edit_mob(
            doc_view(old(session).current_mob),
            |m: Map<Seq<char>, TomlSpec>|
                push_elem_spec(m, "colliders"@, new_collider_spec(shape_type@ == "Circle"@)),
        ),
{
    if let Some(mut mob) = take_mob(session) {
        let c = new_collider(shape_type);
        push_to_array_field(&mut mob, "colliders", c);
        put_mob(session, mob);
    }
}

/// Deletes collider `index`; an array of colliders left empty is removed with its key, so
/// that a patch inherits the base colliders again.
pub fn delete_collider(session: &mut EditorSession, index: usize)
    ensures
        final(session).original_mob == old(session).original_mob,
        doc_view(final(session).current_mob) == edit_mob(
            doc_view(old(session).current_mob),
            |m: Map<Seq<char>, TomlSpec>| delete_elem_pruned(m, "colliders"@, index as int),
        ),
{
    if let Some(mut mob) = take_mob(session) {
        delete_elem_and_prune(&mut mob, "colliders", index);
        put_mob(session, mob);
    }
}

} // verus!
