//! Editing the jointed mobs of a mob: joints, angle limits and chains.

use vstd::prelude::*;

use crate::document::{TomlSpec, TomlTable, TomlValue};
use crate::session::{
    array_at, delete_elem_and_prune, delete_elem_pruned, doc_view, edit_elem_table, edit_mob,
    edit_table_at, put_elem, put_mob, take_elem_table, take_mob, vec2_spec, vec2_value,
    EditorSession, FLOAT_FIFTEEN_HUNDREDTHS, FLOAT_FORTY_FIVE, FLOAT_MICRO, FLOAT_MILLI,
    FLOAT_MINUS_FIVE, FLOAT_MINUS_FORTY_FIVE, FLOAT_MINUS_TEN, FLOAT_ZERO,
};
use crate::text::{decimal, push_decimal};

verus! {

/// `t` with `field` set to `v`, or removed when `v` is `None`.
pub open spec fn set_or_remove(t: Map<Seq<char>, TomlSpec>, field: Seq<char>, v: Option<TomlSpec>) -> Map<
    Seq<char>,
    TomlSpec,
> {
    match v {
        Some(x) => t.insert(field, x),
        None => t.remove(field),
    }
}

/// `m` with joint `index` changed by `f`.
pub open spec fn edit_joint(
    m: Map<Seq<char>, TomlSpec>,
    index: int,
    f: spec_fn(Map<Seq<char>, TomlSpec>) -> Map<Seq<char>, TomlSpec>,
) -> Map<Seq<char>, TomlSpec> {
    edit_elem_table(m, "jointed_mobs"@, index, f)
}

/// The joint added as number `n` of the list.
pub open spec fn new_joint_spec(n: nat) -> TomlSpec {
    TomlSpec::Table(
        Map::empty().insert("key"@, TomlSpec::Str("joint_"@ + decimal(n))).insert(
            "mob_ref"@,
            TomlSpec::Str(Seq::empty()),
        ).insert("offset_pos"@, vec2_spec(FLOAT_ZERO, FLOAT_MINUS_TEN)).insert(
            "anchor_1_pos"@,
            vec2_spec(FLOAT_ZERO, FLOAT_ZERO),
        ).insert("anchor_2_pos"@, vec2_spec(FLOAT_ZERO, FLOAT_ZERO)).insert(
            "compliance"@,
            TomlSpec::Float(FLOAT_MICRO),
        ),
    )
}

/// The angle limit given to a joint by default.
pub open spec fn angle_limit_spec() -> TomlSpec {
    TomlSpec::Table(
        Map::empty().insert("min"@, TomlSpec::Float(FLOAT_MINUS_FORTY_FIVE)).insert(
            "max"@,
            TomlSpec::Float(FLOAT_FORTY_FIVE),
        ).insert("torque"@, TomlSpec::Float(FLOAT_MILLI)),
    )
}

/// The chain given to a joint by default.
pub open spec fn chain_spec() -> TomlSpec {
    TomlSpec::Table(
        Map::empty().insert("length"@, TomlSpec::Int(3)).insert(
            "pos_offset"@,
            vec2_spec(FLOAT_ZERO, FLOAT_MINUS_FIVE),
        ).insert("anchor_offset"@, vec2_spec(FLOAT_ZERO, FLOAT_ZERO)),
    )
}

/// The random chain settings given to a chain by default.
pub open spec fn random_chain_spec() -> TomlSpec {
    TomlSpec::Table(
        Map::empty().insert("min_length"@, TomlSpec::Int(1)).insert(
            "end_chance"@,
            TomlSpec::Float(FLOAT_FIFTEEN_HUNDREDTHS),
        ),
    )
}

/// The view of an optional value.
pub open spec fn opt_view(v: Option<TomlValue>) -> Option<TomlSpec> {
    match v {
        Some(x) => Some(x@),
        None => None,
    }
}

/// Sets (or with `None` removes) `field` of joint `index`.
fn joint_set(session: &mut EditorSession, index: usize, field: &str, v: Option<TomlValue>)
    ensures
        final(session).original_mob == old(session).original_mob,
        doc_view(final(session).current_mob) == edit_mob(
            doc_view(old(session).current_mob),
            |m: Map<Seq<char>, TomlSpec>|
                edit_joint(
                    m,
                    index as int,
                    |j: Map<Seq<char>, TomlSpec>| set_or_remove(j, field@, opt_view(v)),
                ),
        ),
{
    if let Some(mut mob) = take_mob(session) {
        let ghost orig = mob@;
        if let Some((rest, mut joint)) = take_elem_table(&mut mob, "jointed_mobs", index) {
            match v {
                Some(x) => {
                    joint.insert(field.to_owned(), x);
                },
                None => {
                    joint.remove(field);
                },
            }
            put_elem(&mut mob, "jointed_mobs", rest, index, TomlValue::Table(joint), Ghost(orig));
        }
        put_mob(session, mob);
    }
}

/// Sets (or with `None` removes) `field` of table `parent` of joint `index`.
fn joint_nested_set(
    session: &mut EditorSession,
    index: usize,
    parent: &str,
    field: &str,
    v: Option<TomlValue>,
)
    ensures
        final(session).original_mob == old(session).original_mob,
        doc_view(final(session).current_mob) == edit_mob(
            doc_view(old(session).current_mob),
            |m: Map<Seq<char>, TomlSpec>|
                edit_joint(
                    m,
                    index as int,
                    |j: Map<Seq<char>, TomlSpec>|
                        edit_table_at(
                            j,
                            parent@,
                            |p: Map<Seq<char>, TomlSpec>| set_or_remove(p, field@, opt_view(v)),
                        ),
                ),
        ),
{
    if let Some(mut mob) = take_mob(session) {
        let ghost orig = mob@;
        if let Some((rest, mut joint)) = take_elem_table(&mut mob, "jointed_mobs", index) {
            let ghost j0 = joint@;
            if let Some(mut p) = joint.take_table(parent) {
                match v {
                    Some(x) => {
                        p.insert(field.to_owned(), x);
                    },
                    None => {
                        p.remove(field);
                    },
                }
                joint.insert(parent.to_owned(), TomlValue::Table(p));
            }
            assert(joint@ =~= edit_table_at(
                j0,
                parent@,
                |p: Map<Seq<char>, TomlSpec>| set_or_remove(p, field@, opt_view(v)),
            ));
            put_elem(&mut mob, "jointed_mobs", rest, index, TomlValue::Table(joint), Ghost(orig));
        }
        put_mob(session, mob);
    }
}

/// Sets a field of a jointed mob.
pub fn set_jointed_mob_field(session: &mut EditorSession, index: usize, field: &str, value: TomlValue)
    ensures
        final(session).original_mob == old(session).original_mob,
        doc_view(final(session).current_mob) == edit_mob(
            doc_view(old(session).current_mob),
            |m: Map<Seq<char>, TomlSpec>|
                edit_joint(m, index as int, |j: Map<Seq<char>, TomlSpec>| j.insert(field@, value@)),
        ),
{
    joint_set(session, index, field, Some(value));
}

/// Sets a two-float field `[x, y]` of a jointed mob.
pub fn set_jointed_mob_vec2(session: &mut EditorSession, index: usize, field: &str, x: u64, y: u64)
    ensures
        final(session).original_mob == old(session).original_mob,
        doc_view(final(session).current_mob) == edit_mob(
            doc_view(old(session).current_mob),
            |m: Map<Seq<char>, TomlSpec>|
                edit_joint(
                    m,
                    index as int,
                    |j: Map<Seq<char>, TomlSpec>| j.insert(field@, vec2_spec(x, y)),
                ),
        ),
{
    set_jointed_mob_field(session, index, field, vec2_value(x, y));
}

/// Removes a field of a jointed mob.
pub fn remove_jointed_mob_field(session: &mut EditorSession, index: usize, field: &str)
    ensures
        final(session).original_mob == old(session).original_mob,
        doc_view(final(session).current_mob) == edit_mob(
            doc_view(old(session).current_mob),
            |m: Map<Seq<char>, TomlSpec>|
                edit_joint(m, index as int, |j: Map<Seq<char>, TomlSpec>| j.remove(field@)),
        ),
{
    joint_set(session, index, field, None);
}

/// Sets a field of a table inside a jointed mob (such as `angle_limit_range.min`).
pub fn set_jointed_nested_field(
    session: &mut EditorSession,
    index: usize,
    parent: &str,
    field: &str,
    value: TomlValue,
)
    ensures
        final(session).original_mob == old(session).original_mob,
        doc_view(final(session).current_mob) == edit_mob(
            doc_view(old(session).current_mob),
            |m: Map<Seq<char>, TomlSpec>|
                edit_joint(
                    m,
                    index as int,
                    |j: Map<Seq<char>, TomlSpec>|
                        edit_table_at(
                            j,
                            parent@,
                            |p: Map<Seq<char>, TomlSpec>| p.insert(field@, value@),
                        ),
                ),
        ),
{
    joint_nested_set(session, index, parent, field, Some(value));
}

/// Sets a two-float field of a table inside a jointed mob (such as `chain.pos_offset`).
pub fn set_jointed_nested_vec2(
    session: &mut EditorSession,
    index: usize,
    parent: &str,
    field: &str,
    x: u64,
    y: u64,
)
    ensures
        final(session).original_mob == old(session).original_mob,
        doc_view(final(session).current_mob) == edit_mob(
            doc_view(old(session).current_mob),
            |m: Map<Seq<char>, TomlSpec>|
                edit_joint(
                    m,
                    index as int,
                    |j: Map<Seq<char>, TomlSpec>|
                        edit_table_at(
                            j,
                            parent@,
                            |p: Map<Seq<char>, TomlSpec>| p.insert(field@, vec2_spec(x, y)),
                        ),
                ),
        ),
{
    set_jointed_nested_field(session, index, parent, field, vec2_value(x, y));
}

/// Removes a field of a table inside a jointed mob.
pub fn remove_jointed_nested_field(session: &mut EditorSession, index: usize, parent: &str, field: &str)
    ensures
        final(session).original_mob == old(session).original_mob,
        doc_view(final(session).current_mob) == edit_mob(
            doc_view(old(session).current_mob),
            |m: Map<Seq<char>, TomlSpec>|
                edit_joint(
                    m,
                    index as int,
                    |j: Map<Seq<char>, TomlSpec>|
                        edit_table_at(j, parent@, |p: Map<Seq<char>, TomlSpec>| p.remove(field@)),
                ),
        ),
{
    joint_nested_set(session, index, parent, field, None);
}

/// Sets a field two tables deep inside a jointed mob (such as `chain.random_chain.min_length`).
pub fn set_jointed_deep_nested_field(
    session: &mut EditorSession,
    index: usize,
    parent: &str,
    nested: &str,
    field: &str,
    value: TomlValue,
)
    ensures
        final(session).original_mob == old(session).original_mob,
        doc_view(final(session).current_mob) == edit_mob(
            doc_view(old(session).current_mob),
            |m: Map<Seq<char>, TomlSpec>|
                edit_joint(
                    m,
                    index as int,
                    |j: Map<Seq<char>, TomlSpec>|
                        edit_table_at(
                            j,
                            parent@,
                            |p: Map<Seq<char>, TomlSpec>|
                                edit_table_at(
                                    p,
                                    nested@,
                                    |q: Map<Seq<char>, TomlSpec>| q.insert(field@, value@),
                                ),
                        ),
                ),
        ),
{
    if let Some(mut mob) = take_mob(session) {
        let ghost orig = mob@;
        if let Some((rest, mut joint)) = take_elem_table(&mut mob, "jointed_mobs", index) {
            let ghost j0 = joint@;
            let ghost vv = value@;
            if let Some(mut p) = joint.take_table(parent) {
                let ghost p0 = p@;
                if let Some(mut q) = p.take_table(nested) {
                    q.insert(field.to_owned(), value);
                    p.insert(nested.to_owned(), TomlValue::Table(q));
                }
                assert(p@ =~= edit_table_at(
                    p0,
                    nested@,
                    |q: Map<Seq<char>, TomlSpec>| q.insert(field@, vv),
                ));
                joint.insert(parent.to_owned(), TomlValue::Table(p));
            }
            assert(joint@ =~= edit_table_at(
                j0,
                parent@,
                |p: Map<Seq<char>, TomlSpec>|
                    edit_table_at(p, nested@, |q: Map<Seq<char>, TomlSpec>| q.insert(field@, vv)),
            ));
            put_elem(&mut mob, "jointed_mobs", rest, index, TomlValue::Table(joint), Ghost(orig));
        }
        put_mob(session, mob);
    }
}

/// Deletes jointed mob `index`; an emptied list is removed with its key.
pub fn delete_jointed_mob(session: &mut EditorSession, index: usize)
    ensures
        final(session).original_mob == old(session).original_mob,
        doc_view(final(session).current_mob) == edit_mob(
            doc_view(old(session).current_mob),
            |m: Map<Seq<char>, TomlSpec>| delete_elem_pruned(m, "jointed_mobs"@, index as int),
        ),
{
    if let Some(mut mob) = take_mob(session) {
        delete_elem_and_prune(&mut mob, "jointed_mobs", index);
        put_mob(session, mob);
    }
}

/// The top-level edit of `add_new_jointed_mob`.
pub open spec fn add_joint_spec(m: Map<Seq<char>, TomlSpec>) -> Map<Seq<char>, TomlSpec> {
    let m1 = if m.contains_key("jointed_mobs"@) {
        m
    } else {
        m.insert("jointed_mobs"@, TomlSpec::Array(Seq::empty()))
    };
    match array_at(m1, "jointed_mobs"@) {
        Some(a) => m1.insert("jointed_mobs"@, TomlSpec::Array(a.push(new_joint_spec(a.len())))),
        None => m1,
    }
}

/// The joint added as number `n`.
fn new_joint(n: usize) -> (j: TomlValue)
    ensures
        j@ == new_joint_spec(n as nat),
{
    let mut key = "joint_".to_owned();
    push_decimal(&mut key, n);
    let mut t = TomlTable::new();
    t.insert("key".to_owned(), TomlValue::String(key));
    t.insert("mob_ref".to_owned(), TomlValue::String(String::new()));
    t.insert("offset_pos".to_owned(), vec2_value(FLOAT_ZERO, FLOAT_MINUS_TEN));
    t.insert("anchor_1_pos".to_owned(), vec2_value(FLOAT_ZERO, FLOAT_ZERO));
    t.insert("anchor_2_pos".to_owned(), vec2_value(FLOAT_ZERO, FLOAT_ZERO));
    t.insert("compliance".to_owned(), TomlValue::Float(FLOAT_MICRO));
    TomlValue::Table(t)
}

/// Adds a jointed mob with default settings, keyed `joint_<n>` after the number of joints.
pub fn add_new_jointed_mob(session: &mut EditorSession)
    ensures
        final(session).original_mob == old(session).original_mob,
        doc_view(final(session).current_mob) == edit_mob(
            doc_view(old(session).current_mob),
            |m: Map<Seq<char>, TomlSpec>| add_joint_spec(m),
        ),
{
    if let Some(mut mob) = take_mob(session) {
        let ghost m0 = mob@;
        if !mob.contains_key("jointed_mobs") {
            mob.insert("jointed_mobs".to_owned(), TomlValue::Array(Vec::new()));
            assert(crate::document::seq_view(Seq::<TomlValue>::empty()) =~= Seq::<TomlSpec>::empty());
        }
        let ghost m1 = mob@;
        assert(m1 == (if m0.contains_key("jointed_mobs"@) {
            m0
        } else {
            m0.insert("jointed_mobs"@, TomlSpec::Array(Seq::empty()))
        }));
        if let Some(mut arr) = mob.take_array("jointed_mobs") {
            let ghost whole = crate::document::seq_view(arr@);
            proof {
                crate::document::lemma_seq_view(arr@);
            }
            let j = new_joint(arr.len());
            arr.push(j);
            proof {
                crate::document::lemma_seq_view(arr@);
            }
            assert(crate::document::seq_view(arr@) =~= whole.push(new_joint_spec(whole.len())));
            mob.insert("jointed_mobs".to_owned(), TomlValue::Array(arr));
            assert(mob@ =~= add_joint_spec(m0));
        } else {
            assert(mob@ =~= add_joint_spec(m0));
        }
        put_mob(session, mob);
    }
}

/// Gives jointed mob `index` the default angle limit.
pub fn add_angle_limit_to_jointed_mob(session: &mut EditorSession, index: usize)
    ensures
        final(session).original_mob == old(session).original_mob,
        doc_view(final(session).current_mob) == edit_mob(
            doc_view(old(session).current_mob),
            |m: Map<Seq<char>, TomlSpec>|
                edit_joint(
                    m,
                    index as int,
                    |j: Map<Seq<char>, TomlSpec>| j.insert("angle_limit_range"@, angle_limit_spec()),
                ),
        ),
{
    let mut t = TomlTable::new();
    t.insert("min".to_owned(), TomlValue::Float(FLOAT_MINUS_FORTY_FIVE));
    t.insert("max".to_owned(), TomlValue::Float(FLOAT_FORTY_FIVE));
    t.insert("torque".to_owned(), TomlValue::Float(FLOAT_MILLI));
    set_jointed_mob_field(session, index, "angle_limit_range", TomlValue::Table(t));
}

/// Gives jointed mob `index` the default chain.
pub fn add_chain_to_jointed_mob(session: &mut EditorSession, index: usize)
    ensures
        final(session).original_mob == old(session).original_mob,
        doc_view(final(session).current_mob) == edit_mob(
            doc_view(old(session).current_mob),
            |m: Map<Seq<char>, TomlSpec>|
                edit_joint(
                    m,
                    index as int,
                    |j: Map<Seq<char>, TomlSpec>| j.insert("chain"@, chain_spec()),
                ),
        ),
{
    let mut t = TomlTable::new();
    t.insert("length".to_owned(), TomlValue::Integer(3));
    t.insert("pos_offset".to_owned(), vec2_value(FLOAT_ZERO, FLOAT_MINUS_FIVE));
    t.insert("anchor_offset".to_owned(), vec2_value(FLOAT_ZERO, FLOAT_ZERO));
    set_jointed_mob_field(session, index, "chain", TomlValue::Table(t));
}

/// Gives the chain of jointed mob `index` the default random chain settings.
pub fn add_random_chain_to_jointed_mob(session: &mut EditorSession, index: usize)
    ensures
        final(session).original_mob == old(session).original_mob,
        doc_view(final(session).current_mob) == edit_mob(
            doc_view(old(session).current_mob),
            |m: Map<Seq<char>, TomlSpec>|
                edit_joint(
                    m,
                    index as int,
                    |j: Map<Seq<char>, TomlSpec>|
                        edit_table_at(
                            j,
                            "chain"@,
                            |c: Map<Seq<char>, TomlSpec>| c.insert("random_chain"@, random_chain_spec()),
                        ),
                ),
        ),
{
    let mut t = TomlTable::new();
    t.insert("min_length".to_owned(), TomlValue::Integer(1));
    t.insert("end_chance".to_owned(), TomlValue::Float(FLOAT_FIFTEEN_HUNDREDTHS));
    set_jointed_nested_field(session, index, "chain", "random_chain", TomlValue::Table(t));
}

} // verus!
