//! Editing the decorations of a mob: each is an array `[sprite_path, [x, y]]`.

use vstd::prelude::*;

use crate::document::{lemma_seq_view, seq_view, TomlSpec, TomlValue};
use crate::session::{
    delete_elem_and_prune, delete_elem_pruned, doc_view, edit_elem_array, edit_mob,
    push_elem_spec, push_to_array_field, put_elem, put_mob, take_elem_array, take_mob, vec2_spec,
    vec2_value, EditorSession, FLOAT_ZERO,
};

verus! {

broadcast use lemma_seq_view;

/// The decoration added by default: sprite `sprite` at the origin.
pub open spec fn new_decoration_spec(sprite: Seq<char>) -> TomlSpec {
    TomlSpec::Array(seq![TomlSpec::Str(sprite), vec2_spec(FLOAT_ZERO, FLOAT_ZERO)])
}

/// Replaces item `slot` of decoration `index` by `v`, when the decoration has more than `slot`
/// items.
fn set_decoration_item(session: &mut EditorSession, index: usize, slot: usize, v: TomlValue)
    ensures
        final(session).original_mob == old(session).original_mob,
        doc_view(final(session).current_mob) == edit_mob(
            doc_view(old(session).current_mob),
            |m: Map<Seq<char>, TomlSpec>|
                edit_elem_array(
                    m,
                    "decorations"@,
                    index as int,
                    |d: Seq<TomlSpec>|
                        if slot < d.len() {
                            d.update(slot as int, v@)
                        } else {
                            d
                        },
                ),
        ),
{
    if let Some(mut mob) = take_mob(session) {
        let ghost orig = mob@;
        if let Some((rest, mut decoration)) = take_elem_array(&mut mob, "decorations", index) {
            let ghost d0 = seq_view(decoration@);
            if slot < decoration.len() {
                decoration.remove(slot);
                decoration.insert(slot, v);
                assert(seq_view(decoration@) =~= d0.update(slot as int, v@));
            }
            put_elem(&mut mob, "decorations", rest, index, TomlValue::Array(decoration), Ghost(orig));
        }
        put_mob(session, mob);
    }
}

/// Sets the sprite path of decoration `index` (its first item, when it has one).
pub fn update_decoration_sprite(session: &mut EditorSession, index: usize, sprite_path: &str)
    ensures
        final(session).original_mob == old(session).original_mob,
        doc_view(final(session).current_mob) == edit_mob(
            doc_view(old(session).current_mob),
            |m: Map<Seq<char>, TomlSpec>|
                edit_elem_array(
                    m,
                    "decorations"@,
                    index as int,
                    |d: Seq<TomlSpec>|
                        if 0 < d.len() {
                            d.update(0, TomlSpec::Str(sprite_path@))
                        } else {
                            d
                        },
                ),
        ),
{
    set_decoration_item(session, index, 0, TomlValue::String(sprite_path.to_owned()));
}

/// Sets the position of decoration `index` (its second item, when it has two).
pub fn update_decoration_position(session: &mut EditorSession, index: usize, x: u64, y: u64)
    ensures
        final(session).original_mob == old(session).original_mob,
        doc_view(final(session).current_mob) == edit_mob(
            doc_view(old(session).current_mob),
            |m: Map<Seq<char>, TomlSpec>|
                edit_elem_array(
                    m,
                    "decorations"@,
                    index as int,
                    |d: Seq<TomlSpec>|
                        if 2 <= d.len() {
                            d.update(1, vec2_spec(x, y))
                        } else {
                            d
                        },
                ),
        ),
{
    set_decoration_item(session, index, 1, vec2_value(x, y));
}

/// Deletes decoration `index`; an emptied list of decorations is removed with its key.
pub fn delete_decoration(session: &mut EditorSession, index: usize)
    ensures
        final(session).original_mob == old(session).original_mob,
        doc_view(final(session).current_mob) == edit_mob(
            doc_view(old(session).current_mob),
            |m: Map<Seq<char>, TomlSpec>| delete_elem_pruned(m, "decorations"@, index as int),
        ),
{
    if let Some(mut mob) = take_mob(session) {
        delete_elem_and_prune(&mut mob, "decorations", index);
        put_mob(session, mob);
    }
}

/// Adds a decoration showing `default_sprite` at the origin.
pub fn add_new_decoration(session: &mut EditorSession, default_sprite: String)
    ensures
        final(session).original_mob == old(session).original_mob,
        doc_view(final(session).current_mob) == edit_mob(
            doc_view(old(session).current_mob),
            |m: Map<Seq<char>, TomlSpec>|
                push_elem_spec(m, "decorations"@, new_decoration_spec(default_sprite@)),
        ),
{
    if let Some(mut mob) = take_mob(session) {
        let ghost sprite = default_sprite@;
        let mut items: Vec<TomlValue> = Vec::new();
        items.push(TomlValue::String(default_sprite));
        items.push(vec2_value(FLOAT_ZERO, FLOAT_ZERO));
        assert(seq_view(items@) =~= seq![TomlSpec::Str(sprite), vec2_spec(FLOAT_ZERO, FLOAT_ZERO)]);
        push_to_array_field(&mut mob, "decorations", TomlValue::Array(items));
        put_mob(session, mob);
    }
}

} // verus!
