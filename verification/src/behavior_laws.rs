//! Properties of the behavior tree edits over a whole document: edits made one after the other
//! at the same node, and edits that undo each other.

use vstd::prelude::*;

use crate::behavior::{
    action_table, change_type_spec, is_control, kind_name,
    action_leaf, apply_node_edit, behavior_edited, behavior_node, child_of, child_slot, edit_at,
    edit_fn, is_control_name, lemma_with_own_child, move_target, node_at, node_kind,
    node_type_name, replace_at, swap_items, with_child, BehaviorNodeType, ListOpSpec,
    NodeEditSpec, Slot,
};
use crate::document::TomlSpec;
use crate::laws::{law_change_type_idempotent, law_move_back_restores};
use crate::session::{array_at, elem_table, mob_map, with_elem, FLOAT_ONE};

verus! {

/// Replacing a child keeps the slot it is kept in, can be read back, and a second replacement
/// overrides the first.
proof fn lemma_with_child_facts(n: Map<Seq<char>, TomlSpec>, i: int, c: TomlSpec, d: TomlSpec)
    requires
        child_of(n, i) is Some,
    ensures
        child_slot(with_child(n, i, c), i) == child_slot(n, i),
        child_of(with_child(n, i, c), i) == Some(c),
        with_child(with_child(n, i, c), i, d) == with_child(n, i, d),
{
    reveal_strlit("type");
    reveal_strlit("children");
    reveal_strlit("condition");
    reveal_strlit("child");
    reveal_strlit("then_child");
    reveal_strlit("else_child");
    assert("type"@.len() == 4 && "children"@.len() == 8 && "condition"@.len() == 9);
    assert("child"@.len() == 5 && "then_child"@.len() == 10 && "else_child"@.len() == 10);
    match child_slot(n, i) {
        Some(Slot::Children) => {
            let a = array_at(n, "children"@).unwrap();
            let n1 = with_child(n, i, c);
            assert(n1 == n.insert("children"@, TomlSpec::Array(a.update(i, c))));
            assert(node_type_name(n1) == node_type_name(n));
            assert(array_at(n1, "children"@) == Some(a.update(i, c)));
            assert(a.update(i, c).update(i, d) =~= a.update(i, d));
            assert(n1.insert("children"@, TomlSpec::Array(a.update(i, c).update(i, d))) =~= n.insert(
                "children"@,
                TomlSpec::Array(a.update(i, d)),
            ));
        },
        Some(Slot::Field(k)) => {
            assert(k != "type"@);
            assert(node_type_name(n.insert(k, c)) == node_type_name(n));
            assert(n.insert(k, c).insert(k, d) =~= n.insert(k, d));
        },
        None => {},
    }
}

/// After replacing the node at `path`, the node found there is the new one.
proof fn lemma_node_at_replaced(v: TomlSpec, path: Seq<usize>, y: TomlSpec)
    requires
        node_at(v, path) is Some,
    ensures
        node_at(replace_at(v, path, y), path) == Some(y),
    decreases path.len(),
{
    if path.len() > 0 {
        let n = v->Table_0;
        let c = child_of(n, path[0] as int).unwrap();
        let r = replace_at(c, path.drop_first(), y);
        lemma_with_child_facts(n, path[0] as int, r, r);
        lemma_node_at_replaced(c, path.drop_first(), y);
    }
}

/// Replacing the node at `path` twice is replacing it once with the second node.
proof fn lemma_replace_twice(v: TomlSpec, path: Seq<usize>, y: TomlSpec, z: TomlSpec)
    requires
        node_at(v, path) is Some,
    ensures
        replace_at(replace_at(v, path, y), path, z) == replace_at(v, path, z),
    decreases path.len(),
{
    if path.len() > 0 {
        let n = v->Table_0;
        let i = path[0] as int;
        let c = child_of(n, i).unwrap();
        let r1 = replace_at(c, path.drop_first(), y);
        lemma_with_child_facts(n, i, r1, replace_at(r1, path.drop_first(), z));
        lemma_replace_twice(c, path.drop_first(), y, z);
    }
}

/// Replacing the node at `path` by itself changes nothing.
proof fn lemma_replace_own(v: TomlSpec, path: Seq<usize>)
    requires
        node_at(v, path) is Some,
    ensures
        replace_at(v, path, node_at(v, path).unwrap()) == v,
    decreases path.len(),
{
    if path.len() > 0 {
        let n = v->Table_0;
        let i = path[0] as int;
        let c = child_of(n, i).unwrap();
        lemma_replace_own(c, path.drop_first());
        lemma_with_own_child(n, i);
    }
}

/// An edit that leaves the node at `path` as it is leaves the document as it is.
proof fn lemma_edit_noop(doc: Option<TomlSpec>, path: Seq<usize>, e: NodeEditSpec)
    requires
        behavior_node(doc, path) matches Some(n) ==> apply_node_edit(n, e) == n,
    ensures
        behavior_edited(doc, path, e) == doc,
{
    match doc {
        Some(TomlSpec::Table(m)) => {
            if m.contains_key("behavior"@) {
                let v = m["behavior"@];
                match node_at(v, path) {
                    Some(TomlSpec::Table(n)) => {
                        lemma_replace_own(v, path);
                    },
                    _ => {},
                }
                assert(edit_at(v, path, edit_fn(e)) == v);
                assert(m.insert("behavior"@, v) =~= m);
            }
        },
        _ => {},
    }
}

/// Two edits at the same node, the second undoing the first, leave the document as it was.
proof fn lemma_edit_undone(doc: Option<TomlSpec>, path: Seq<usize>, e1: NodeEditSpec, e2: NodeEditSpec)
    requires
        behavior_node(doc, path) matches Some(n) && apply_node_edit(apply_node_edit(n, e1), e2) == n,
    ensures
        behavior_edited(behavior_edited(doc, path, e1), path, e2) == doc,
{
    let m = mob_map(doc).unwrap();
    let v = m["behavior"@];
    let n = behavior_node(doc, path).unwrap();
    let n1 = apply_node_edit(n, e1);
    let v1 = replace_at(v, path, TomlSpec::Table(n1));
    assert(edit_at(v, path, edit_fn(e1)) == v1);
    let m1 = m.insert("behavior"@, v1);
    assert(behavior_edited(doc, path, e1) == Some(TomlSpec::Table(m1)));
    lemma_node_at_replaced(v, path, TomlSpec::Table(n1));
    assert(m1["behavior"@] == v1);
    assert(edit_at(v1, path, edit_fn(e2)) == replace_at(v1, path, TomlSpec::Table(n)));
    lemma_replace_twice(v, path, TomlSpec::Table(n1), TomlSpec::Table(n));
    lemma_replace_own(v, path);
    assert(m1.insert("behavior"@, v) =~= m);
}

/// Two edits at the same node, the second changing nothing after the first, give the document
/// of the first alone.
proof fn lemma_edit_settled(doc: Option<TomlSpec>, path: Seq<usize>, e1: NodeEditSpec, e2: NodeEditSpec)
    requires
        behavior_node(doc, path) matches Some(n) ==> apply_node_edit(apply_node_edit(n, e1), e2)
            == apply_node_edit(n, e1),
    ensures
        behavior_edited(behavior_edited(doc, path, e1), path, e2) == behavior_edited(doc, path, e1),
{
    match behavior_node(doc, path) {
        Some(n) => {
            let m = mob_map(doc).unwrap();
            let v = m["behavior"@];
            let n1 = apply_node_edit(n, e1);
            let v1 = replace_at(v, path, TomlSpec::Table(n1));
            assert(edit_at(v, path, edit_fn(e1)) == v1);
            let m1 = m.insert("behavior"@, v1);
            assert(behavior_edited(doc, path, e1) == Some(TomlSpec::Table(m1)));
            lemma_node_at_replaced(v, path, TomlSpec::Table(n1));
            assert(m1["behavior"@] == v1);
            lemma_replace_own(v1, path);
            assert(edit_at(v1, path, edit_fn(e2)) == v1);
            assert(m1.insert("behavior"@, v1) =~= m1);
        },
        None => {
            lemma_edit_noop(doc, path, e1);
            lemma_edit_noop(doc, path, e2);
        },
    }
}

/// After an edit of the node at `path`, the node there is the edited one.
proof fn lemma_node_after_edit(doc: Option<TomlSpec>, path: Seq<usize>, e: NodeEditSpec)
    ensures
        match behavior_node(doc, path) {
            Some(n) => behavior_node(behavior_edited(doc, path, e), path) == Some(apply_node_edit(n, e)),
            None => behavior_edited(doc, path, e) == doc,
        },
{
    match behavior_node(doc, path) {
        Some(n) => {
            let m = mob_map(doc).unwrap();
            let v = m["behavior"@];
            let v1 = replace_at(v, path, TomlSpec::Table(apply_node_edit(n, e)));
            assert(edit_at(v, path, edit_fn(e)) == v1);
            lemma_node_at_replaced(v, path, TomlSpec::Table(apply_node_edit(n, e)));
            assert(m.insert("behavior"@, v1)["behavior"@] == v1);
        },
        None => {
            lemma_edit_noop(doc, path, e);
        },
    }
}

proof fn lemma_type_key_distinct()
    ensures
        "type"@ != "children"@,
        "type"@ != "behaviors"@,
        "type"@ != "else_child"@,
{
    reveal_strlit("type");
    reveal_strlit("children");
    reveal_strlit("behaviors");
    reveal_strlit("else_child");
    assert("type"@.len() == 4 && "children"@.len() == 8 && "behaviors"@.len() == 9);
    assert("else_child"@.len() == 10);
}

/// Whether a move of item `index` by `direction` stays inside the list `a`, with both positions
/// within the 32-bit arithmetic of a move.
pub open spec fn move_inside(a: Seq<TomlSpec>, index: usize, direction: i32) -> bool {
    index < a.len() && 0 <= index + direction < a.len() && index <= i32::MAX && index + direction
        <= i32::MAX
}

/// The `children` list of the node at `path`, when it is a control node that has one.
pub open spec fn control_children(doc: Option<TomlSpec>, path: Seq<usize>) -> Option<Seq<TomlSpec>> {
    match behavior_node(doc, path) {
        Some(n) => match node_type_name(n) {
            Some(t) => if is_control_name(t) {
                array_at(n, "children"@)
            } else {
                None
            },
            None => None,
        },
        None => None,
    }
}

/// Moving a child of a control node one way swaps it with its neighbour in the `children` list,
/// and moving it back from its new place restores the document (for positions that fit the
/// 32-bit arithmetic of a move).
pub proof fn law_move_node_back_restores(
    doc: Option<TomlSpec>,
    parent: Seq<usize>,
    index: usize,
    direction: i32,
)
    requires
        control_children(doc, parent) matches Some(a) && move_inside(a, index, direction),
    ensures
        ({
            let n = behavior_node(doc, parent).unwrap();
            let a = array_at(n, "children"@).unwrap();
            behavior_node(behavior_edited(doc, parent, NodeEditSpec::MoveChild(index, direction)), parent)
                == Some(n.insert("children"@, TomlSpec::Array(swap_items(a, index as int, index + direction))))
        }),
        behavior_edited(
            behavior_edited(doc, parent, NodeEditSpec::MoveChild(index, direction)),
            parent,
            NodeEditSpec::MoveChild((index + direction) as usize, (-direction) as i32),
        ) == doc,
{
    let n = behavior_node(doc, parent).unwrap();
    let a = array_at(n, "children"@).unwrap();
    lemma_type_key_distinct();
    law_move_back_restores(n, "children"@, index, direction);
    let n1 = apply_node_edit(n, NodeEditSpec::MoveChild(index, direction));
    assert(move_target(index, direction) == index + direction);
    assert(n1 == n.insert("children"@, TomlSpec::Array(swap_items(a, index as int, index + direction))));
    assert(node_type_name(n1) == node_type_name(n));
    lemma_node_after_edit(doc, parent, NodeEditSpec::MoveChild(index, direction));
    lemma_edit_undone(
        doc,
        parent,
        NodeEditSpec::MoveChild(index, direction),
        NodeEditSpec::MoveChild((index + direction) as usize, (-direction) as i32),
    );
}

/// Whether the node at `path` is a table without the key `key`.
pub open spec fn node_lacks(doc: Option<TomlSpec>, path: Seq<usize>, key: Seq<char>) -> bool {
    match behavior_node(doc, path) {
        Some(n) => !n.contains_key(key),
        None => false,
    }
}

/// The `behaviors` list of the node at `path`, when the node is a table that has one.
pub open spec fn behaviors_at(doc: Option<TomlSpec>, path: Seq<usize>) -> Option<Seq<TomlSpec>> {
    match behavior_node(doc, path) {
        Some(n) => array_at(n, "behaviors"@),
        None => None,
    }
}

/// Adding an else branch to a node that has none and removing it again restores the document;
/// after a removal the node has no else branch.
pub proof fn law_else_branch_add_then_remove(doc: Option<TomlSpec>, path: Seq<usize>)
    ensures
        node_lacks(doc, path, "else_child"@) ==> behavior_edited(
            behavior_edited(doc, path, NodeEditSpec::SetField("else_child"@, action_leaf("Else"@))),
            path,
            NodeEditSpec::RemoveField("else_child"@),
        ) == doc,
        behavior_node(behavior_edited(doc, path, NodeEditSpec::RemoveField("else_child"@)), path) is Some
            ==> node_lacks(
            behavior_edited(doc, path, NodeEditSpec::RemoveField("else_child"@)),
            path,
            "else_child"@,
        ),
{
    lemma_node_after_edit(doc, path, NodeEditSpec::RemoveField("else_child"@));
    if node_lacks(doc, path, "else_child"@) {
        let n = behavior_node(doc, path).unwrap();
        assert(n.insert("else_child"@, action_leaf("Else"@)).remove("else_child"@) =~= n);
        lemma_edit_undone(
            doc,
            path,
            NodeEditSpec::SetField("else_child"@, action_leaf("Else"@)),
            NodeEditSpec::RemoveField("else_child"@),
        );
    }
}

/// Adding a behavior to an Action node and deleting it (the last one) restores the document;
/// deleting at a position past the end of the list (or where there is no list) changes nothing.
pub proof fn law_action_add_then_delete(doc: Option<TomlSpec>, path: Seq<usize>, count: usize, index: usize)
    ensures
        behaviors_at(doc, path) matches Some(a) && a.len() == count ==> behavior_edited(
            behavior_edited(doc, path, NodeEditSpec::Behaviors(ListOpSpec::Add)),
            path,
            NodeEditSpec::Behaviors(ListOpSpec::Delete(count)),
        ) == doc,
        !(behaviors_at(doc, path) matches Some(a) && index < a.len()) ==> behavior_edited(
            doc,
            path,
            NodeEditSpec::Behaviors(ListOpSpec::Delete(index)),
        ) == doc,
{
    match behaviors_at(doc, path) {
        Some(a) => {
            let n = behavior_node(doc, path).unwrap();
            if a.len() == count {
                let b = crate::behavior::move_down();
                assert(a.push(b).remove(a.len() as int) =~= a);
                let n1 = n.insert("behaviors"@, TomlSpec::Array(a.push(b)));
                assert(apply_node_edit(n, NodeEditSpec::Behaviors(ListOpSpec::Add)) == n1);
                assert(array_at(n1, "behaviors"@) == Some(a.push(b)));
                assert(n1.insert("behaviors"@, TomlSpec::Array(a)) =~= n);
                assert(apply_node_edit(n1, NodeEditSpec::Behaviors(ListOpSpec::Delete(count))) == n);
                lemma_edit_undone(
                    doc,
                    path,
                    NodeEditSpec::Behaviors(ListOpSpec::Add),
                    NodeEditSpec::Behaviors(ListOpSpec::Delete(count)),
                );
            }
        },
        None => {},
    }
    if !(behaviors_at(doc, path) matches Some(a) && index < a.len()) {
        lemma_edit_noop(doc, path, NodeEditSpec::Behaviors(ListOpSpec::Delete(index)));
    }
}

/// Moving a behavior of an Action node one way swaps it with its neighbour, and moving it back
/// restores the document (for positions that fit the 32-bit arithmetic of a move); a move
/// whose target is outside the list changes nothing.
pub proof fn law_action_move_back_restores(
    doc: Option<TomlSpec>,
    path: Seq<usize>,
    index: usize,
    direction: i32,
)
    ensures
        behaviors_at(doc, path) matches Some(a) && move_inside(a, index, direction) ==> {
            &&& behaviors_at(
                behavior_edited(doc, path, NodeEditSpec::Behaviors(ListOpSpec::Move(index, direction))),
                path,
            ) == Some(swap_items(behaviors_at(doc, path).unwrap(), index as int, index + direction))
            &&& behavior_edited(
                behavior_edited(doc, path, NodeEditSpec::Behaviors(ListOpSpec::Move(index, direction))),
                path,
                NodeEditSpec::Behaviors(ListOpSpec::Move((index + direction) as usize, (-direction) as i32)),
            ) == doc
        },
        !(behaviors_at(doc, path) matches Some(a) && move_target(index, direction) < a.len())
            ==> behavior_edited(doc, path, NodeEditSpec::Behaviors(ListOpSpec::Move(index, direction)))
            == doc,
{
    match behaviors_at(doc, path) {
        Some(a) => {
            if move_inside(a, index, direction) {
                let n = behavior_node(doc, path).unwrap();
                law_move_back_restores(n, "behaviors"@, index, direction);
                assert(move_target(index, direction) == index + direction);
                lemma_node_after_edit(doc, path, NodeEditSpec::Behaviors(ListOpSpec::Move(index, direction)));
                lemma_edit_undone(
                    doc,
                    path,
                    NodeEditSpec::Behaviors(ListOpSpec::Move(index, direction)),
                    NodeEditSpec::Behaviors(
                        ListOpSpec::Move((index + direction) as usize, (-direction) as i32),
                    ),
                );
            }
        },
        None => {},
    }
    if !(behaviors_at(doc, path) matches Some(a) && move_target(index, direction) < a.len()) {
        lemma_edit_noop(doc, path, NodeEditSpec::Behaviors(ListOpSpec::Move(index, direction)));
    }
}

/// Setting a parameter that a behavior lacks and removing it again restores the document.
pub proof fn law_param_set_then_remove(
    doc: Option<TomlSpec>,
    path: Seq<usize>,
    index: usize,
    param: Seq<char>,
    v: TomlSpec,
)
    requires
        behavior_node(doc, path) matches Some(n) && elem_table(n, "behaviors"@, index as int) matches Some(
            t,
        ) && !t.contains_key(param),
    ensures
        behavior_edited(
            behavior_edited(doc, path, NodeEditSpec::Behaviors(ListOpSpec::SetParam(index, param, v))),
            path,
            NodeEditSpec::Behaviors(ListOpSpec::RemoveParam(index, param)),
        ) == doc,
{
    let n = behavior_node(doc, path).unwrap();
    let t = elem_table(n, "behaviors"@, index as int).unwrap();
    let a = array_at(n, "behaviors"@).unwrap();
    let i = index as int;
    let n1 = with_elem(n, "behaviors"@, i, TomlSpec::Table(t.insert(param, v)));
    assert(apply_node_edit(n, NodeEditSpec::Behaviors(ListOpSpec::SetParam(index, param, v))) == n1);
    let a1 = a.update(i, TomlSpec::Table(t.insert(param, v)));
    assert(array_at(n1, "behaviors"@) == Some(a1));
    assert(elem_table(n1, "behaviors"@, i) == Some(t.insert(param, v)));
    assert(t.insert(param, v).remove(param) =~= t);
    let n2 = with_elem(n1, "behaviors"@, i, TomlSpec::Table(t));
    assert(apply_node_edit(n1, NodeEditSpec::Behaviors(ListOpSpec::RemoveParam(index, param))) == n2);
    assert(a1.update(i, TomlSpec::Table(t)) =~= a);
    assert(n2 =~= n);
    lemma_edit_undone(
        doc,
        path,
        NodeEditSpec::Behaviors(ListOpSpec::SetParam(index, param, v)),
        NodeEditSpec::Behaviors(ListOpSpec::RemoveParam(index, param)),
    );
}

/// Changing the kind of a node twice gives the document of changing it once, and changing it to
/// the kind it has changes nothing.
pub proof fn law_change_node_type_settles(doc: Option<TomlSpec>, path: Seq<usize>, t: BehaviorNodeType)
    ensures
        behavior_edited(
            behavior_edited(doc, path, NodeEditSpec::ChangeType(t)),
            path,
            NodeEditSpec::ChangeType(t),
        ) == behavior_edited(doc, path, NodeEditSpec::ChangeType(t)),
        (behavior_node(doc, path) matches Some(n) ==> node_kind(n) == Some(t)) ==> behavior_edited(
            doc,
            path,
            NodeEditSpec::ChangeType(t),
        ) == doc,
{
    if let Some(n) = behavior_node(doc, path) {
        law_change_type_idempotent(n, t);
    }
    lemma_edit_settled(doc, path, NodeEditSpec::ChangeType(t), NodeEditSpec::ChangeType(t));
    if behavior_node(doc, path) matches Some(n) ==> node_kind(n) == Some(t) {
        lemma_edit_noop(doc, path, NodeEditSpec::ChangeType(t));
    }
}

/// Whether the nodes `node`'s children `i` and `j` are kept in different places.
pub open spec fn slots_differ(node: Option<TomlSpec>, i: int, j: int) -> bool {
    match node {
        Some(TomlSpec::Table(n)) => child_slot(n, i) != child_slot(n, j),
        _ => false,
    }
}

/// Whether the path `q` leaves `path` at step `k`: the two agree before it and take children of
/// that node that are kept in different places. The node at `q` is then outside the subtree
/// at `path`, and not one of its ancestors.
pub open spec fn branches_off(v: TomlSpec, path: Seq<usize>, q: Seq<usize>, k: int) -> bool {
    &&& 0 <= k < path.len()
    &&& k < q.len()
    &&& q.subrange(0, k) == path.subrange(0, k)
    &&& slots_differ(node_at(v, path.subrange(0, k)), path[k] as int, q[k] as int)
}

/// Replacing child `i` leaves a child kept elsewhere as it is.
proof fn lemma_with_child_other(n: Map<Seq<char>, TomlSpec>, i: int, j: int, c: TomlSpec)
    requires
        child_of(n, i) is Some,
        child_slot(n, i) != child_slot(n, j),
    ensures
        child_of(with_child(n, i, c), j) == child_of(n, j),
{
    reveal_strlit("type");
    reveal_strlit("children");
    reveal_strlit("condition");
    reveal_strlit("child");
    reveal_strlit("then_child");
    reveal_strlit("else_child");
    assert("type"@.len() == 4 && "children"@.len() == 8 && "condition"@.len() == 9);
    assert("child"@.len() == 5 && "then_child"@.len() == 10 && "else_child"@.len() == 10);
    let n1 = with_child(n, i, c);
    match child_slot(n, i) {
        Some(Slot::Children) => {
            let a = array_at(n, "children"@).unwrap();
            assert(n1 == n.insert("children"@, TomlSpec::Array(a.update(i, c))));
            assert(node_type_name(n1) == node_type_name(n));
            assert(child_slot(n1, j) == child_slot(n, j));
        },
        Some(Slot::Field(k)) => {
            assert(k != "type"@ && k != "children"@);
            assert(n1 == n.insert(k, c));
            assert(node_type_name(n1) == node_type_name(n));
            assert(child_slot(n1, j) == child_slot(n, j));
            assert(array_at(n1, "children"@) == array_at(n, "children"@));
        },
        None => {},
    }
}

/// Replacing the node at `path` leaves a node at a path that branches off it as it is.
proof fn lemma_replace_elsewhere(v: TomlSpec, path: Seq<usize>, q: Seq<usize>, k: int, y: TomlSpec)
    requires
        node_at(v, path) is Some,
        branches_off(v, path, q, k),
    ensures
        node_at(replace_at(v, path, y), q) == node_at(v, q),
    decreases k,
{
    assert(path.subrange(0, 0) =~= Seq::<usize>::empty());
    let n = v->Table_0;
    let i = path[0] as int;
    let c = child_of(n, i).unwrap();
    let r = replace_at(c, path.drop_first(), y);
    if k == 0 {
        lemma_with_child_other(n, i, q[0] as int, r);
    } else {
        assert(q.subrange(0, k)[0] == path.subrange(0, k)[0]);
        assert(q[0] == path[0]);
        let s = path.subrange(0, k);
        assert(s.drop_first() =~= path.drop_first().subrange(0, k - 1));
        assert(q.drop_first().subrange(0, k - 1) =~= q.subrange(0, k).drop_first());
        assert(node_at(v, s) == node_at(c, s.drop_first()));
        assert(branches_off(c, path.drop_first(), q.drop_first(), k - 1));
        lemma_replace_elsewhere(c, path.drop_first(), q.drop_first(), k - 1, y);
        lemma_with_child_facts(n, i, r, r);
    }
}

/// The behavior tree of a document that is a table with one.
pub open spec fn tree_of(doc: Option<TomlSpec>) -> TomlSpec {
    mob_map(doc).unwrap()["behavior"@]
}

/// An edit of a behavior node changes nothing but the tree at the `behavior` field; within the
/// tree, every node at a path that branches off the edited one (neither inside its subtree nor
/// one of its ancestors) stays as it is.
pub proof fn law_edit_stays_in_subtree(
    doc: Option<TomlSpec>,
    path: Seq<usize>,
    e: NodeEditSpec,
    q: Seq<usize>,
    k: int,
)
    ensures
        mob_map(doc) is None ==> behavior_edited(doc, path, e) == doc,
        mob_map(doc) matches Some(m) ==> (mob_map(behavior_edited(doc, path, e)) matches Some(m2)
            && m2.remove("behavior"@) == m.remove("behavior"@) && m2.contains_key("behavior"@)
            == m.contains_key("behavior"@)),
        (mob_map(doc) matches Some(m) && m.contains_key("behavior"@)) && branches_off(
            tree_of(doc),
            path,
            q,
            k,
        ) ==> node_at(tree_of(behavior_edited(doc, path, e)), q) == node_at(tree_of(doc), q),
{
    lemma_node_after_edit(doc, path, e);
    match mob_map(doc) {
        Some(m) => {
            match behavior_node(doc, path) {
                Some(n) => {
                    let v = m["behavior"@];
                    let v1 = replace_at(v, path, TomlSpec::Table(apply_node_edit(n, e)));
                    assert(edit_at(v, path, edit_fn(e)) == v1);
                    let m2 = m.insert("behavior"@, v1);
                    assert(behavior_edited(doc, path, e) == Some(TomlSpec::Table(m2)));
                    assert(m2.remove("behavior"@) =~= m.remove("behavior"@));
                    assert(m2["behavior"@] == v1);
                    if branches_off(v, path, q, k) {
                        lemma_replace_elsewhere(v, path, q, k, TomlSpec::Table(apply_node_edit(n, e)));
                    }
                },
                None => {},
            }
        },
        None => {},
    }
}

/// Whether `r` is `n` but for the key `k`: every other key is present in both or in neither, with
/// the same value.
pub open spec fn same_except(r: Map<Seq<char>, TomlSpec>, n: Map<Seq<char>, TomlSpec>, k: Seq<char>) -> bool {
    forall|k2: Seq<char>|
        k2 != k ==> (#[trigger] r.contains_key(k2) == n.contains_key(k2) && (n.contains_key(k2)
            ==> r[k2] == n[k2]))
}

/// The keys and names that node edits use are distinct.
proof fn lemma_node_keys_distinct()
    ensures
        "type"@ != "name"@,
        "type"@ != "seconds"@,
        "type"@ != "behaviors"@,
        "type"@ != "trigger_type"@,
        "type"@ != "child"@,
        "type"@ != "condition"@,
        "type"@ != "then_child"@,
        "type"@ != "else_child"@,
        "type"@ != "children"@,
        "name"@ != "behaviors"@,
        "condition"@ != "then_child"@,
        "condition"@ != "else_child"@,
        "then_child"@ != "else_child"@,
        "child"@ != "condition"@,
        "children"@ != "else_child"@,
        "children"@ != "condition"@,
        "IfThen"@ != "While"@,
        "IfThen"@ != "Forever"@,
        "IfThen"@ != "Sequence"@,
        "IfThen"@ != "Fallback"@,
        "While"@ != "Forever"@,
        "While"@ != "Sequence"@,
        "While"@ != "Fallback"@,
{
    reveal_strlit("type");
    reveal_strlit("name");
    reveal_strlit("seconds");
    reveal_strlit("behaviors");
    reveal_strlit("trigger_type");
    reveal_strlit("child");
    reveal_strlit("condition");
    reveal_strlit("then_child");
    reveal_strlit("else_child");
    reveal_strlit("children");
    reveal_strlit("IfThen");
    reveal_strlit("While");
    reveal_strlit("Forever");
    reveal_strlit("Sequence");
    reveal_strlit("Fallback");
    assert("type"@.len() == 4 && "name"@.len() == 4 && "seconds"@.len() == 7);
    assert("behaviors"@.len() == 9 && "trigger_type"@.len() == 12 && "child"@.len() == 5);
    assert("condition"@.len() == 9 && "then_child"@.len() == 10 && "else_child"@.len() == 10);
    assert("children"@.len() == 8 && "IfThen"@.len() == 6 && "While"@.len() == 5);
    assert("Forever"@.len() == 7 && "Sequence"@.len() == 8 && "Fallback"@.len() == 8);
    assert("type"@[0] != "name"@[0]);
    assert("behaviors"@[0] != "condition"@[0]);
    assert("then_child"@[0] != "else_child"@[0]);
}

/// Deleting a child of a node removes exactly what holds that child: element `i` of the
/// `children` list of a control node (when it is there), the `condition` of a While node for
/// child 0, the `else_child` of an IfThen node for child 2. Every other key of the node stays as
/// it was, and any other child (the child of a While node, the condition and then branch of an
/// IfThen node, children of other nodes) is not deleted at all.
pub proof fn law_delete_child_removes_only_it(n: Map<Seq<char>, TomlSpec>, i: usize)
    ensures
        ({
            let r = apply_node_edit(n, NodeEditSpec::DeleteChild(i));
            &&& node_type_name(n) == Some("IfThen"@) && i == 2 ==> !r.contains_key("else_child"@)
                && same_except(r, n, "else_child"@)
            &&& node_type_name(n) == Some("IfThen"@) && i != 2 ==> r == n
            &&& node_type_name(n) == Some("While"@) && i == 0 ==> !r.contains_key("condition"@)
                && same_except(r, n, "condition"@)
            &&& node_type_name(n) == Some("While"@) && i != 0 ==> r == n
            &&& (node_type_name(n) matches Some(t) && is_control_name(t)) ==> match array_at(
                n,
                "children"@,
            ) {
                Some(a) => if i < a.len() {
                    r.contains_key("children"@) && r["children"@] == TomlSpec::Array(a.remove(i as int))
                        && same_except(r, n, "children"@)
                } else {
                    r == n
                },
                None => r == n,
            }
            &&& (node_type_name(n) is None || (node_type_name(n) matches Some(t) && !is_control_name(t)
                && t != "IfThen"@ && t != "While"@)) ==> r == n
        }),
{
    lemma_node_keys_distinct();
}

/// The behavior that changing a behavior's action to `a` leaves: its `action` is `a`, and its
/// only other keys are the default parameters of that action: `x` and `y` of zero for
/// `MoveTo`, `seconds` of one for `DoForTime`, none for any other action.
pub proof fn law_changed_action_parameters(a: Seq<char>)
    ensures
        ({
            let b = action_table(a);
            &&& b.contains_key("action"@) && b["action"@] == TomlSpec::Str(a)
            &&& a == "MoveTo"@ ==> b.dom() == set!["action"@, "x"@, "y"@] && b["x"@] == TomlSpec::Float(0)
                && b["y"@] == TomlSpec::Float(0)
            &&& a == "DoForTime"@ ==> b.dom() == set!["action"@, "seconds"@] && b["seconds"@]
                == TomlSpec::Float(FLOAT_ONE)
            &&& a != "MoveTo"@ && a != "DoForTime"@ ==> b.dom() == set!["action"@]
        }),
{
    reveal_strlit("action");
    reveal_strlit("x");
    reveal_strlit("y");
    reveal_strlit("seconds");
    reveal_strlit("MoveTo");
    reveal_strlit("DoForTime");
    assert("action"@.len() == 6 && "x"@.len() == 1 && "y"@.len() == 1 && "seconds"@.len() == 7);
    assert("x"@[0] != "y"@[0]);
    assert("MoveTo"@.len() == 6 && "DoForTime"@.len() == 9);
    let b = action_table(a);
    if a == "MoveTo"@ {
        assert(b.dom() =~= set!["action"@, "x"@, "y"@]);
    } else if a == "DoForTime"@ {
        assert(b.dom() =~= set!["action"@, "seconds"@]);
    } else {
        assert(b.dom() =~= set!["action"@]);
    }
}

/// The one-second Wait node that a new condition holds.
pub open spec fn one_second_wait() -> TomlSpec {
    TomlSpec::Table(
        Map::empty().insert("type"@, TomlSpec::Str("Wait"@)).insert("seconds"@, TomlSpec::Float(FLOAT_ONE)),
    )
}

/// An Action node named `name` with an empty list of behaviors.
pub open spec fn empty_action(name: Seq<char>) -> TomlSpec {
    TomlSpec::Table(
        Map::empty().insert("type"@, TomlSpec::Str("Action"@)).insert("name"@, TomlSpec::Str(name)).insert(
            "behaviors"@,
            TomlSpec::Array(Seq::empty()),
        ),
    )
}

/// A node changed to another kind names that kind in its `type` and has the fields the kind
/// needs: a Wait node waits one second; an Action node is named `New Action` with no
/// behaviors; a Trigger node has an empty trigger type; a While node has an Action child named
/// `Child`; an IfThen node has a one-second Wait as condition and an Action named `Then` as its
/// then branch; a leaf turned into a control node has an empty list of children. A node already
/// of that kind stays as it is.
pub proof fn law_changed_type_fields(n: Map<Seq<char>, TomlSpec>, t: BehaviorNodeType)
    ensures
        ({
            let r = change_type_spec(n, t);
            let changed = node_kind(n) != Some(t);
            let was_control = match node_kind(n) {
                Some(o) => is_control(o),
                None => false,
            };
            &&& !changed ==> r == n
            &&& changed ==> r.contains_key("type"@) && r["type"@] == TomlSpec::Str(kind_name(t))
            &&& changed && t == BehaviorNodeType::Wait ==> r.contains_key("seconds"@) && r["seconds"@]
                == TomlSpec::Float(FLOAT_ONE)
            &&& changed && t == BehaviorNodeType::Action ==> r.contains_key("name"@) && r["name"@]
                == TomlSpec::Str("New Action"@) && r.contains_key("behaviors"@) && r["behaviors"@]
                == TomlSpec::Array(Seq::empty())
            &&& changed && t == BehaviorNodeType::Trigger ==> r.contains_key("trigger_type"@)
                && r["trigger_type"@] == TomlSpec::Str(Seq::empty())
            &&& changed && t == BehaviorNodeType::While ==> r.contains_key("child"@) && r["child"@]
                == empty_action("Child"@)
            &&& changed && t == BehaviorNodeType::IfThen ==> r.contains_key("condition"@)
                && r["condition"@] == one_second_wait() && r.contains_key("then_child"@)
                && r["then_child"@] == empty_action("Then"@)
            &&& changed && is_control(t) && !was_control ==> r.contains_key("children"@)
                && r["children"@] == TomlSpec::Array(Seq::empty())
        }),
{
    lemma_node_keys_distinct();
}

/// Changing the node at `path` to another kind leaves there a node with the fields of that kind
/// (see `law_changed_type_fields`); for IfThen, a one-second Wait as condition and an Action
/// named `Then` as then branch.
pub proof fn law_change_to_if_then_at(doc: Option<TomlSpec>, path: Seq<usize>)
    ensures
        (behavior_node(doc, path) matches Some(n) && node_kind(n) != Some(BehaviorNodeType::IfThen))
            ==> ({
            let r = behavior_node(
                behavior_edited(doc, path, NodeEditSpec::ChangeType(BehaviorNodeType::IfThen)),
                path,
            );
            &&& r is Some
            &&& r.unwrap().contains_key("condition"@) && r.unwrap()["condition"@] == one_second_wait()
            &&& r.unwrap().contains_key("then_child"@) && r.unwrap()["then_child"@] == empty_action(
                "Then"@,
            )
        }),
{
    lemma_node_after_edit(doc, path, NodeEditSpec::ChangeType(BehaviorNodeType::IfThen));
    if let Some(n) = behavior_node(doc, path) {
        law_changed_type_fields(n, BehaviorNodeType::IfThen);
    }
}

} // verus!
