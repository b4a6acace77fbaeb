//! Properties that hold across the editing operations, stated over the models that their
//! contracts use.

use vstd::prelude::*;

use crate::behavior::{
    apply_node_edit, change_type_spec, is_control_name, kind_name, move_in_array, move_target,
    node_kind, node_type_name, parse_type, swap_items, BehaviorNodeType, NodeEditSpec,
};
use crate::document::TomlSpec;
use crate::session::{
    array_at, delete_elem_pruned, edit_mob, push_elem_spec, set_with_default_spec, table_at,
};
use crate::sections::{override_value, selection_after_delete_spec};
use crate::spawners::{
    candidate_name, first_free_name, name_free, remove_spawner_field_spec, rename_spawner_spec,
};

verus! {

/// Naming a node kind and reading the name back gives the same kind.
pub proof fn law_kind_name_parses_back(t: BehaviorNodeType)
    ensures
        parse_type(kind_name(t)) == Some(t),
{
    reveal_strlit("Forever");
    reveal_strlit("Sequence");
    reveal_strlit("Fallback");
    reveal_strlit("While");
    reveal_strlit("IfThen");
    reveal_strlit("Wait");
    reveal_strlit("Action");
    reveal_strlit("Trigger");
    assert("Forever"@.len() == 7 && "Sequence"@.len() == 8 && "Fallback"@.len() == 8);
    assert("While"@.len() == 5 && "IfThen"@.len() == 6 && "Wait"@.len() == 4);
    assert("Action"@.len() == 6 && "Trigger"@.len() == 7);
    assert("Forever"@[0] != "Trigger"@[0]);
    assert("Sequence"@[0] != "Fallback"@[0]);
    assert("IfThen"@[0] != "Action"@[0]);
}

/// A field that the original document lacks is kept out of the document while it is set to
/// its default value, and set otherwise; a field that the original has is always set.
pub proof fn law_default_stays_out(
    m: Map<Seq<char>, TomlSpec>,
    has_original: bool,
    key: Seq<char>,
    value: TomlSpec,
    default: TomlSpec,
)
    ensures
        !has_original && value == default ==> !set_with_default_spec(
            m,
            has_original,
            key,
            value,
            default,
        ).contains_key(key),
        has_original || value != default ==> set_with_default_spec(
            m,
            has_original,
            key,
            value,
            default,
        ).contains_key(key) && set_with_default_spec(m, has_original, key, value, default)[key]
            == value,
{
}

/// Reading a key of a table after writing it gives the value written, the other keys keep their
/// values, and a removed key is gone.
pub proof fn law_table_read_after_write(
    m: Map<Seq<char>, TomlSpec>,
    key: Seq<char>,
    other: Seq<char>,
    v: TomlSpec,
)
    requires
        key != other,
    ensures
        m.insert(key, v).contains_key(key) && m.insert(key, v)[key] == v,
        m.insert(key, v).contains_key(other) == m.contains_key(other),
        m.contains_key(other) ==> m.insert(key, v)[other] == m[other],
        !m.remove(key).contains_key(key),
        m.remove(key).contains_key(other) == m.contains_key(other),
{
}

/// Resetting a top-level field after changing it leaves the same document as resetting it
/// alone.
pub proof fn law_reset_after_change(doc: Option<TomlSpec>, key: Seq<char>, v: TomlSpec)
    ensures
        edit_mob(
            edit_mob(doc, |m: Map<Seq<char>, TomlSpec>| m.insert(key, v)),
            |m: Map<Seq<char>, TomlSpec>| m.remove(key),
        ) == edit_mob(doc, |m: Map<Seq<char>, TomlSpec>| m.remove(key)),
{
    match doc {
        Some(TomlSpec::Table(m)) => {
            assert(m.insert(key, v).remove(key) =~= m.remove(key));
        },
        _ => {},
    }
}

/// Deleting an item of a list never leaves the list empty: an emptied list goes away with its
/// key.
pub proof fn law_delete_leaves_no_empty_list(m: Map<Seq<char>, TomlSpec>, key: Seq<char>, index: int)
    ensures
        array_at(delete_elem_pruned(m, key, index), key) matches Some(a) ==> a.len() > 0,
{
}

/// Adding an item to a list and deleting that item again restores the table, unless the list
/// was there and empty (the deletion then removes it with its key).
pub proof fn law_add_then_delete_restores(m: Map<Seq<char>, TomlSpec>, key: Seq<char>, v: TomlSpec)
    requires
        !m.contains_key(key) || (array_at(m, key) matches Some(a) && a.len() > 0),
    ensures
        delete_elem_pruned(
            push_elem_spec(m, key, v),
            key,
            match array_at(m, key) {
                Some(a) => a.len() as int,
                None => 0,
            },
        ) == m,
{
    if m.contains_key(key) {
        let a = array_at(m, key).unwrap();
        assert(a.push(v).remove(a.len() as int) =~= a);
        assert(m.insert(key, TomlSpec::Array(a)) =~= m);
    } else {
        assert(seq![v].remove(0) =~= Seq::<TomlSpec>::empty());
        assert(m.insert(key, TomlSpec::Array(seq![v])).remove(key) =~= m);
    }
}

/// Renaming a spawner to a name that is taken changes nothing.
pub proof fn law_rename_never_overwrites(
    m: Map<Seq<char>, TomlSpec>,
    section: Seq<char>,
    old_name: Seq<char>,
    new_name: Seq<char>,
)
    requires
        table_at(m, section) matches Some(sec) && table_at(sec, "spawners"@) matches Some(sp)
            && sp.contains_key(new_name),
    ensures
        rename_spawner_spec(m, section, old_name, new_name) == m,
{
}

/// Renaming a spawner and renaming it back restores the document.
pub proof fn law_rename_back_restores(
    m: Map<Seq<char>, TomlSpec>,
    section: Seq<char>,
    old_name: Seq<char>,
    new_name: Seq<char>,
)
    requires
        table_at(m, section) matches Some(sec) && table_at(sec, "spawners"@) matches Some(sp)
            && sp.contains_key(old_name) && !sp.contains_key(new_name),
    ensures
        rename_spawner_spec(rename_spawner_spec(m, section, old_name, new_name), section, new_name, old_name)
            == m,
{
    let sec = table_at(m, section).unwrap();
    let sp = table_at(sec, "spawners"@).unwrap();
    let sp1 = sp.remove(old_name).insert(new_name, sp[old_name]);
    let sec1 = sec.insert("spawners"@, TomlSpec::Table(sp1));
    let m1 = m.insert(section, TomlSpec::Table(sec1));
    assert(rename_spawner_spec(m, section, old_name, new_name) == m1);
    assert(table_at(m1, section) == Some(sec1));
    assert(table_at(sec1, "spawners"@) == Some(sp1));
    assert(sp1.remove(new_name).insert(old_name, sp1[new_name]) =~= sp);
    assert(sec1.insert("spawners"@, TomlSpec::Table(sp)) =~= sec);
    assert(m1.insert(section, TomlSpec::Table(sec)) =~= m);
}

proof fn lemma_first_free_name(existing: Option<Map<Seq<char>, TomlSpec>>, prefix: Seq<char>, i: int)
    ensures
        name_free(existing, first_free_name(existing, prefix, i)) || first_free_name(
            existing,
            prefix,
            i,
        ) == prefix + "_new"@,
    decreases 104 - i,
{
    if i < 104 && !name_free(existing, candidate_name(prefix, i)) {
        lemma_first_free_name(existing, prefix, i + 1);
    }
}

/// A generated spawner name is not taken among the existing spawners, unless every name tried
/// is taken and the last resort `<prefix>_new` is given.
pub proof fn law_generated_name_is_free(existing: Option<Map<Seq<char>, TomlSpec>>, prefix: Seq<char>)
    ensures
        name_free(existing, first_free_name(existing, prefix, 0)) || first_free_name(
            existing,
            prefix,
            0,
        ) == prefix + "_new"@,
{
    lemma_first_free_name(existing, prefix, 0);
}

/// Removing a spawner field never leaves an empty table on the path it edits: the section, its
/// spawners table and the spawner are each either gone or non-empty afterwards.
pub proof fn law_remove_spawner_field_prunes(
    m: Map<Seq<char>, TomlSpec>,
    section: Seq<char>,
    name: Seq<char>,
    field: Seq<char>,
)
    ensures
        ({
            let r = remove_spawner_field_spec(m, section, name, field);
            table_at(r, section) matches Some(sec) ==> {
                &&& sec != Map::<Seq<char>, TomlSpec>::empty()
                &&& table_at(sec, "spawners"@) matches Some(sp) ==> {
                    &&& sp != Map::<Seq<char>, TomlSpec>::empty()
                    &&& table_at(sp, name) matches Some(s) ==> s != Map::<
                        Seq<char>,
                        TomlSpec,
                    >::empty()
                }
            }
        }),
{
}

/// The spawner table `name` of section `section`, when the path leads to one.
pub open spec fn spawner_at(m: Map<Seq<char>, TomlSpec>, section: Seq<char>, name: Seq<char>) -> Option<
    Map<Seq<char>, TomlSpec>,
> {
    match table_at(m, section) {
        Some(sec) => match table_at(sec, "spawners"@) {
            Some(sp) => table_at(sp, name),
            None => None,
        },
        None => None,
    }
}

/// Removing one field of a spawner that has other fields keeps that spawner, with exactly the
/// named field gone and every other field as it was; the other spawners, the rest of the
/// section and the other sections are untouched.
pub proof fn law_remove_spawner_field_keeps_rest(
    m: Map<Seq<char>, TomlSpec>,
    section: Seq<char>,
    name: Seq<char>,
    field: Seq<char>,
)
    requires
        spawner_at(m, section, name) matches Some(s) && s.remove(field) != Map::<
            Seq<char>,
            TomlSpec,
        >::empty(),
    ensures
        ({
            let r = remove_spawner_field_spec(m, section, name, field);
            let sec = table_at(m, section).unwrap();
            let sp = table_at(sec, "spawners"@).unwrap();
            let s = sp[name]->Table_0;
            let sec_r = table_at(r, section).unwrap();
            let sp_r = table_at(sec_r, "spawners"@).unwrap();
            &&& spawner_at(r, section, name) == Some(s.remove(field))
            &&& !s.remove(field).contains_key(field)
            &&& forall|k: Seq<char>| k != field && s.contains_key(k) ==> #[trigger] s.remove(field)[k] == s[k]
            &&& sp_r.remove(name) == sp.remove(name)
            &&& sec_r.remove("spawners"@) == sec.remove("spawners"@)
            &&& r.remove(section) == m.remove(section)
        }),
{
    let sec = table_at(m, section).unwrap();
    let sp = table_at(sec, "spawners"@).unwrap();
    let s = table_at(sp, name).unwrap();
    let s1 = s.remove(field);
    let sp1 = sp.insert(name, TomlSpec::Table(s1));
    assert(sp1 != Map::<Seq<char>, TomlSpec>::empty()) by {
        assert(sp1.contains_key(name));
    }
    let sec1 = sec.insert("spawners"@, TomlSpec::Table(sp1));
    assert(sec1 != Map::<Seq<char>, TomlSpec>::empty()) by {
        assert(sec1.contains_key("spawners"@));
    }
    let r = m.insert(section, TomlSpec::Table(sec1));
    assert(remove_spawner_field_spec(m, section, name, field) == r);
    assert(table_at(r, section) == Some(sec1));
    assert(table_at(sec1, "spawners"@) == Some(sp1));
    assert(table_at(sp1, name) == Some(s1));
    assert(sp1.remove(name) =~= sp.remove(name));
    assert(sec1.remove("spawners"@) =~= sec.remove("spawners"@));
    assert(r.remove(section) =~= m.remove(section));
}

/// Overriding copies the base value whenever the base has the key, whether or not an empty
/// list was asked for; the empty list is given only where the base lacks the key, and nothing
/// is given where it lacks the key and none was asked for.
pub proof fn law_override_copies_base(display: Map<Seq<char>, TomlSpec>, key: Seq<char>, create_empty: bool)
    ensures
        display.contains_key(key) ==> override_value(display, key, create_empty) == Some(display[key]),
        !display.contains_key(key) && create_empty ==> override_value(display, key, create_empty)
            == Some(TomlSpec::Array(Seq::empty())),
        !display.contains_key(key) && !create_empty ==> override_value(display, key, create_empty) is None,
{
}

/// Changing a node to a kind leaves a node of that kind, and changing it to the same kind
/// again changes nothing.
pub proof fn law_change_type_idempotent(n: Map<Seq<char>, TomlSpec>, t: BehaviorNodeType)
    ensures
        node_kind(change_type_spec(n, t)) == Some(t),
        change_type_spec(change_type_spec(n, t), t) == change_type_spec(n, t),
{
    law_kind_name_parses_back(t);
    reveal_strlit("type");
    reveal_strlit("seconds");
    reveal_strlit("name");
    reveal_strlit("behaviors");
    reveal_strlit("trigger_type");
    reveal_strlit("child");
    reveal_strlit("condition");
    reveal_strlit("then_child");
    reveal_strlit("else_child");
    reveal_strlit("children");
    assert("type"@.len() == 4 && "name"@.len() == 4 && "seconds"@.len() == 7);
    assert("behaviors"@.len() == 9 && "trigger_type"@.len() == 12 && "child"@.len() == 5);
    assert("condition"@.len() == 9 && "then_child"@.len() == 10 && "else_child"@.len() == 10);
    assert("children"@.len() == 8);
    assert("type"@[0] != "name"@[0]);
    let r = change_type_spec(n, t);
    if node_kind(n) != Some(t) {
        assert(r.contains_key("type"@) && r["type"@] == TomlSpec::Str(kind_name(t)));
        assert(node_type_name(r) == Some(kind_name(t)));
    }
}

/// Moving an item of a list one way and then moving it back restores the node (for positions
/// that fit the 32-bit arithmetic of a move).
pub proof fn law_move_back_restores(
    n: Map<Seq<char>, TomlSpec>,
    key: Seq<char>,
    index: usize,
    direction: i32,
)
    requires
        array_at(n, key) matches Some(a) && index < a.len() && 0 <= index + direction < a.len(),
        index <= i32::MAX,
        index + direction <= i32::MAX,
    ensures
        move_in_array(
            move_in_array(n, key, index, direction),
            key,
            (index + direction) as usize,
            (-direction) as i32,
        ) == n,
{
    let a = array_at(n, key).unwrap();
    let j = index + direction;
    assert(move_target(index, direction) == j);
    assert(move_target(j as usize, (-direction) as i32) == index);
    let a1 = swap_items(a, index as int, j);
    let n1 = n.insert(key, TomlSpec::Array(a1));
    assert(move_in_array(n, key, index, direction) == n1);
    assert(array_at(n1, key) == Some(a1));
    assert(swap_items(a1, j, index as int) =~= a);
    assert(n1.insert(key, TomlSpec::Array(a)) =~= n);
}

/// Adding a child to a control node and deleting that child again restores the node, when the
/// node has its list of children.
pub proof fn law_add_child_then_delete_restores(n: Map<Seq<char>, TomlSpec>, count: usize)
    requires
        node_type_name(n) matches Some(t) && is_control_name(t),
        array_at(n, "children"@) matches Some(a) && a.len() == count,
    ensures
        apply_node_edit(apply_node_edit(n, NodeEditSpec::AddChild), NodeEditSpec::DeleteChild(count))
            == n,
{
    let a = array_at(n, "children"@).unwrap();
    reveal_strlit("type");
    reveal_strlit("children");
    assert("type"@.len() == 4 && "children"@.len() == 8);
    assert(a.push(crate::behavior::action_leaf("New Action"@)).remove(a.len() as int) =~= a);
    assert(n.insert("children"@, TomlSpec::Array(a)) =~= n);
}

/// After an item of a list is deleted, the adjusted selection still designates the item that
/// was selected, unless that item was the one deleted.
pub proof fn law_selection_follows_delete<T>(items: Seq<T>, selected: usize, deleted: usize)
    requires
        selected < items.len(),
        deleted < items.len(),
    ensures
        selected == deleted ==> selection_after_delete_spec(Some(selected), deleted) is None,
        selected != deleted ==> (selection_after_delete_spec(Some(selected), deleted) matches Some(
            t,
        ) && t < items.len() - 1 && items.remove(deleted as int)[t as int] == items[selected as int]),
{
}

} // verus!
