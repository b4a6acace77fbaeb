//! The behavior tree of a mob: node kinds, paths into the tree, and the edits made on it.
//!
//! A node is a table with a string field `type`.  Control nodes (`Forever`, `Sequence`,
//! `Fallback`) keep their children in the array `children`; a `While` node keeps child 0 in
//! `condition` and any other in `child`; an `IfThen` node keeps children 0, 1 and 2 in
//! `condition`, `then_child` and `else_child`.  A path is the list of child positions that
//! leads from the root (the top-level `behavior` field) to a node.

use vstd::prelude::*;

use crate::document::{seq_view, str_eq, lemma_seq_view, TomlSpec, TomlTable, TomlValue};
use crate::session::{
    array_at, doc_view, edit_elem_table, edit_mob, elem_table, elem_value, mob_map, put_elem,
    put_mob, take_elem_table, take_elem_value, take_mob, with_elem, EditorSession, FLOAT_ONE,
};

verus! {

broadcast use lemma_seq_view;

/// The kinds of behavior tree node.
#[derive(PartialEq, Eq, Structural, Clone, Copy, Debug)]
pub enum BehaviorNodeType {
    Forever,
    Sequence,
    Fallback,
    While,
    IfThen,
    Wait,
    Action,
    Trigger,
}

/// The name of a node kind, as written in the `type` field.
pub open spec fn kind_name(t: BehaviorNodeType) -> Seq<char> {
    match t {
        BehaviorNodeType::Forever => "Forever"@,
        BehaviorNodeType::Sequence => "Sequence"@,
        BehaviorNodeType::Fallback => "Fallback"@,
        BehaviorNodeType::While => "While"@,
        BehaviorNodeType::IfThen => "IfThen"@,
        BehaviorNodeType::Wait => "Wait"@,
        BehaviorNodeType::Action => "Action"@,
        BehaviorNodeType::Trigger => "Trigger"@,
    }
}

/// The node kind that a name stands for.
pub open spec fn parse_type(s: Seq<char>) -> Option<BehaviorNodeType> {
    if s == "Forever"@ {
        Some(BehaviorNodeType::Forever)
    } else if s == "Sequence"@ {
        Some(BehaviorNodeType::Sequence)
    } else if s == "Fallback"@ {
        Some(BehaviorNodeType::Fallback)
    } else if s == "While"@ {
        Some(BehaviorNodeType::While)
    } else if s == "IfThen"@ {
        Some(BehaviorNodeType::IfThen)
    } else if s == "Wait"@ {
        Some(BehaviorNodeType::Wait)
    } else if s == "Action"@ {
        Some(BehaviorNodeType::Action)
    } else if s == "Trigger"@ {
        Some(BehaviorNodeType::Trigger)
    } else {
        None
    }
}

/// Whether a node kind keeps its children in a `children` array.
pub open spec fn is_control(t: BehaviorNodeType) -> bool {
    t == BehaviorNodeType::Forever || t == BehaviorNodeType::Sequence || t
        == BehaviorNodeType::Fallback
}

impl BehaviorNodeType {
    /// All node kinds, in the order that the editor offers them.
    pub fn all() -> (r: Vec<BehaviorNodeType>)
        ensures
            r@ == seq![
                BehaviorNodeType::Forever,
                BehaviorNodeType::Sequence,
                BehaviorNodeType::Fallback,
                BehaviorNodeType::While,
                BehaviorNodeType::IfThen,
                BehaviorNodeType::Wait,
                BehaviorNodeType::Action,
                BehaviorNodeType::Trigger,
            ],
    {
        let mut r = Vec::new();
        r.push(BehaviorNodeType::Forever);
        r.push(BehaviorNodeType::Sequence);
        r.push(BehaviorNodeType::Fallback);
        r.push(BehaviorNodeType::While);
        r.push(BehaviorNodeType::IfThen);
        r.push(BehaviorNodeType::Wait);
        r.push(BehaviorNodeType::Action);
        r.push(BehaviorNodeType::Trigger);
        assert(r@ =~= seq![
            BehaviorNodeType::Forever,
            BehaviorNodeType::Sequence,
            BehaviorNodeType::Fallback,
            BehaviorNodeType::While,
            BehaviorNodeType::IfThen,
            BehaviorNodeType::Wait,
            BehaviorNodeType::Action,
            BehaviorNodeType::Trigger,
        ]);
        r
    }

    /// The name of the kind.
    pub fn as_str(&self) -> (s: &'static str)
        ensures
            s@ == kind_name(*self),
    {
        match self {
            BehaviorNodeType::Forever => "Forever",
            BehaviorNodeType::Sequence => "Sequence",
            BehaviorNodeType::Fallback => "Fallback",
            BehaviorNodeType::While => "While",
            BehaviorNodeType::IfThen => "IfThen",
            BehaviorNodeType::Wait => "Wait",
            BehaviorNodeType::Action => "Action",
            BehaviorNodeType::Trigger => "Trigger",
        }
    }

    /// The kind named `s`, if any.
    pub fn parse(s: &str) -> (r: Option<BehaviorNodeType>)
        ensures
            r == parse_type(s@),
    {
        if str_eq(s, "Forever") {
            Some(BehaviorNodeType::Forever)
        } else if str_eq(s, "Sequence") {
            Some(BehaviorNodeType::Sequence)
        } else if str_eq(s, "Fallback") {
            Some(BehaviorNodeType::Fallback)
        } else if str_eq(s, "While") {
            Some(BehaviorNodeType::While)
        } else if str_eq(s, "IfThen") {
            Some(BehaviorNodeType::IfThen)
        } else if str_eq(s, "Wait") {
            Some(BehaviorNodeType::Wait)
        } else if str_eq(s, "Action") {
            Some(BehaviorNodeType::Action)
        } else if str_eq(s, "Trigger") {
            Some(BehaviorNodeType::Trigger)
        } else {
            None
        }
    }

    /// Whether the kind keeps its children in a `children` array.
    pub fn is_control_node(&self) -> (r: bool)
        ensures
            r == is_control(*self),
    {
        match self {
            BehaviorNodeType::Forever | BehaviorNodeType::Sequence | BehaviorNodeType::Fallback => true,
            _ => false,
        }
    }
}

/// The `type` name of a node, when it has a string there.
pub open spec fn node_type_name(n: Map<Seq<char>, TomlSpec>) -> Option<Seq<char>> {
    if n.contains_key("type"@) && n["type"@] is Str {
        Some(n["type"@]->Str_0)
    } else {
        None
    }
}

/// Whether a `type` name is that of a control node.
pub open spec fn is_control_name(s: Seq<char>) -> bool {
    s == "Forever"@ || s == "Sequence"@ || s == "Fallback"@
}

/// Where child `index` of a node is kept.
pub enum Slot {
    /// At position `index` of the `children` array.
    Children,
    /// Under a field of the node.
    Field(Seq<char>),
}

/// Where child `index` of node `n` is kept, if the node can have such a child.
pub open spec fn child_slot(n: Map<Seq<char>, TomlSpec>, index: int) -> Option<Slot> {
    match node_type_name(n) {
        Some(t) => if is_control_name(t) {
            Some(Slot::Children)
        } else if t == "While"@ {
            Some(Slot::Field(if index == 0 { "condition"@ } else { "child"@ }))
        } else if t == "IfThen"@ {
            if index == 0 {
                Some(Slot::Field("condition"@))
            } else if index == 1 {
                Some(Slot::Field("then_child"@))
            } else if index == 2 {
                Some(Slot::Field("else_child"@))
            } else {
                None
            }
        } else {
            None
        },
        None => None,
    }
}

/// Child `index` of node `n`, if it has one.
pub open spec fn child_of(n: Map<Seq<char>, TomlSpec>, index: int) -> Option<TomlSpec> {
    match child_slot(n, index) {
        Some(Slot::Children) => elem_value(n, "children"@, index),
        Some(Slot::Field(k)) => if n.contains_key(k) {
            Some(n[k])
        } else {
            None
        },
        None => None,
    }
}

/// Node `n` with child `index` replaced by `c`.
pub open spec fn with_child(n: Map<Seq<char>, TomlSpec>, index: int, c: TomlSpec) -> Map<
    Seq<char>,
    TomlSpec,
> {
    match child_slot(n, index) {
        Some(Slot::Children) => with_elem(n, "children"@, index, c),
        Some(Slot::Field(k)) => n.insert(k, c),
        None => n,
    }
}

/// The node that `path` leads to from `v`.
pub open spec fn node_at(v: TomlSpec, path: Seq<usize>) -> Option<TomlSpec>
    decreases path.len(),
{
    if path.len() == 0 {
        Some(v)
    } else {
        match v {
            TomlSpec::Table(n) => match child_of(n, path[0] as int) {
                Some(c) => node_at(c, path.drop_first()),
                None => None,
            },
            _ => None,
        }
    }
}

/// `v` with the node that `path` leads to replaced by `new_node` (unchanged if there is none).
pub open spec fn replace_at(v: TomlSpec, path: Seq<usize>, new_node: TomlSpec) -> TomlSpec
    decreases path.len(),
{
    if path.len() == 0 {
        new_node
    } else {
        match v {
            TomlSpec::Table(n) => match child_of(n, path[0] as int) {
                Some(c) => TomlSpec::Table(
                    with_child(n, path[0] as int, replace_at(c, path.drop_first(), new_node)),
                ),
                None => v,
            },
            _ => v,
        }
    }
}

/// `v` with the table node that `path` leads to changed by `f`; unchanged if the path leads to
/// no table.
pub open spec fn edit_at(
    v: TomlSpec,
    path: Seq<usize>,
    f: spec_fn(Map<Seq<char>, TomlSpec>) -> Map<Seq<char>, TomlSpec>,
) -> TomlSpec {
    match node_at(v, path) {
        Some(TomlSpec::Table(n)) => replace_at(v, path, TomlSpec::Table(f(n))),
        _ => v,
    }
}

/// The top-level table `m` with the behavior node at `path` changed by `f`.
pub open spec fn edit_behavior(
    m: Map<Seq<char>, TomlSpec>,
    path: Seq<usize>,
    f: spec_fn(Map<Seq<char>, TomlSpec>) -> Map<Seq<char>, TomlSpec>,
) -> Map<Seq<char>, TomlSpec> {
    if m.contains_key("behavior"@) {
        m.insert("behavior"@, edit_at(m["behavior"@], path, f))
    } else {
        m
    }
}

/// The behavior node at `path` of a document, when it is a table.
pub open spec fn behavior_node(doc: Option<TomlSpec>, path: Seq<usize>) -> Option<
    Map<Seq<char>, TomlSpec>,
> {
    match mob_map(doc) {
        Some(m) => if m.contains_key("behavior"@) {
            match node_at(m["behavior"@], path) {
                Some(TomlSpec::Table(n)) => Some(n),
                _ => None,
            }
        } else {
            None
        },
        None => None,
    }
}

/// Replacing a child by itself changes nothing.
pub(crate) proof fn lemma_with_own_child(n: Map<Seq<char>, TomlSpec>, index: int)
    requires
        child_of(n, index) is Some,
    ensures
        with_child(n, index, child_of(n, index).unwrap()) == n,
{
    match child_slot(n, index) {
        Some(Slot::Children) => {
            let a = array_at(n, "children"@).unwrap();
            assert(a.update(index, a[index]) =~= a);
            assert(with_child(n, index, child_of(n, index).unwrap()) =~= n);
        },
        Some(Slot::Field(k)) => {
            assert(n.insert(k, n[k]) =~= n);
        },
        None => {},
    }
}

/// How an edit at a nonempty path splits into the first step and the rest.
proof fn lemma_edit_at_step(
    n: Map<Seq<char>, TomlSpec>,
    path: Seq<usize>,
    f: spec_fn(Map<Seq<char>, TomlSpec>) -> Map<Seq<char>, TomlSpec>,
)
    requires
        path.len() > 0,
    ensures
        match child_of(n, path[0] as int) {
            Some(c) => edit_at(TomlSpec::Table(n), path, f) == TomlSpec::Table(
                with_child(n, path[0] as int, edit_at(c, path.drop_first(), f)),
            ),
            None => edit_at(TomlSpec::Table(n), path, f) == TomlSpec::Table(n),
        },
{
    match child_of(n, path[0] as int) {
        Some(c) => {
            match node_at(c, path.drop_first()) {
                Some(TomlSpec::Table(x)) => {},
                _ => {
                    lemma_with_own_child(n, path[0] as int);
                },
            }
        },
        None => {},
    }
}

/// Where a child is kept, as the executable code names it.
enum SlotName {
    Children,
    Field(&'static str),
}

/// The spec slot that a slot name stands for.
spec fn slot_of(s: Option<SlotName>) -> Option<Slot> {
    match s {
        Some(SlotName::Children) => Some(Slot::Children),
        Some(SlotName::Field(k)) => Some(Slot::Field(k@)),
        None => None,
    }
}

/// The `type` name of a node, when it has a string there.
fn node_type_str(t: &TomlTable) -> (r: Option<&String>)
    ensures
        match r {
            Some(s) => node_type_name(t@) == Some(s@),
            None => node_type_name(t@) is None,
        },
{
    match t.get("type") {
        Some(TomlValue::String(s)) => Some(s),
        _ => None,
    }
}

/// Whether a name is that of a control node.
fn is_control_str(s: &str) -> (r: bool)
    ensures
        r == is_control_name(s@),
{
    str_eq(s, "Forever") || str_eq(s, "Sequence") || str_eq(s, "Fallback")
}

/// Where child `index` of node `t` is kept.
fn child_slot_exec(t: &TomlTable, index: usize) -> (r: Option<SlotName>)
    ensures
        slot_of(r) == child_slot(t@, index as int),
{
    match node_type_str(t) {
        Some(s) => {
            if is_control_str(s.as_str()) {
                Some(SlotName::Children)
            } else if str_eq(s.as_str(), "While") {
                if index == 0 {
                    Some(SlotName::Field("condition"))
                } else {
                    Some(SlotName::Field("child"))
                }
            } else if str_eq(s.as_str(), "IfThen") {
                if index == 0 {
                    Some(SlotName::Field("condition"))
                } else if index == 1 {
                    Some(SlotName::Field("then_child"))
                } else if index == 2 {
                    Some(SlotName::Field("else_child"))
                } else {
                    None
                }
            } else {
                None
            }
        },
        None => None,
    }
}

/// The node that `path[depth..]` leads to from `v`.
fn node_at_ref<'a>(v: &'a TomlValue, path: &[usize], depth: usize) -> (r: Option<&'a TomlValue>)
    requires
        depth <= path@.len(),
    ensures
        match r {
            Some(x) => node_at(v@, path@.subrange(depth as int, path@.len() as int)) == Some(x@),
            None => node_at(v@, path@.subrange(depth as int, path@.len() as int)) is None,
        },
    decreases path@.len() - depth,
{
    let ghost p = path@.subrange(depth as int, path@.len() as int);
    if depth == path.len() {
        return Some(v);
    }
    assert(p[0] == path@[depth as int]);
    assert(p.drop_first() =~= path@.subrange(depth + 1, path@.len() as int));
    match v {
        TomlValue::Table(t) => {
            let index = path[depth];
            match child_slot_exec(t, index) {
                Some(SlotName::Children) => match t.get("children") {
                    Some(TomlValue::Array(items)) => {
                        if index < items.len() {
                            assert(child_slot(t@, index as int) == Some(Slot::Children));
                            assert(t@["children"@] == TomlSpec::Array(seq_view(items@)));
                            assert(array_at(t@, "children"@) == Some(seq_view(items@)));
                            assert(seq_view(items@)[index as int] == items@[index as int]@);
                            assert(elem_value(t@, "children"@, index as int) == Some(items@[index as int]@));
                            assert(child_of(t@, index as int) == Some(items@[index as int]@));
                            node_at_ref(&items[index], path, depth + 1)
                        } else {
                            None
                        }
                    },
                    _ => None,
                },
                Some(SlotName::Field(k)) => match t.get(k) {
                    Some(c) => {
                        assert(child_of(t@, index as int) == Some(c@));
                        node_at_ref(c, path, depth + 1)
                    },
                    None => None,
                },
                None => None,
            }
        },
        _ => None,
    }
}

/// The number of children of the control node at `path`; zero for any other node or path.
pub open spec fn children_count_spec(doc: Option<TomlSpec>, path: Seq<usize>) -> nat {
    match behavior_node(doc, path) {
        Some(n) => match node_type_name(n) {
            Some(t) => if is_control_name(t) {
                match array_at(n, "children"@) {
                    Some(a) => a.len(),
                    None => 0,
                }
            } else {
                0
            },
            None => 0,
        },
        None => 0,
    }
}

/// The number of children of the control node at `path` of the behavior tree.
pub fn get_children_count(session: &EditorSession, path: &[usize]) -> (n: usize)
    ensures
        n == children_count_spec(doc_view(session.current_mob), path@),
{
    assert(path@.subrange(0, path@.len() as int) =~= path@);
    let mob = match &session.current_mob {
        Some(TomlValue::Table(t)) => t,
        _ => return 0,
    };
    let behavior = match mob.get("behavior") {
        Some(b) => b,
        None => return 0,
    };
    let r = node_at_ref(behavior, path, 0);
    assert(behavior_node(doc_view(session.current_mob), path@) == match r {
        Some(TomlValue::Table(t)) => Some(t@),
        _ => None::<Map<Seq<char>, TomlSpec>>,
    });
    match r {
        Some(TomlValue::Table(t)) => match node_type_str(t) {
            Some(s) => {
                if is_control_str(s.as_str()) {
                    match t.get("children") {
                        Some(TomlValue::Array(a)) => {
                            assert(array_at(t@, "children"@) == Some(seq_view(a@)));
                            a.len()
                        },
                        _ => 0,
                    }
                } else {
                    0
                }
            },
            None => 0,
        },
        _ => 0,
    }
}

// ---------------------------------------------------------------------------------------------
// Edits made on a node
// ---------------------------------------------------------------------------------------------

/// An Action node named `name` with no behaviors.
pub open spec fn action_leaf(name: Seq<char>) -> TomlSpec {
    TomlSpec::Table(
        Map::empty().insert("type"@, TomlSpec::Str("Action"@)).insert("name"@, TomlSpec::Str(name)).insert(
            "behaviors"@,
            TomlSpec::Array(Seq::empty()),
        ),
    )
}

/// A Wait node of one second.
pub open spec fn wait_leaf() -> TomlSpec {
    TomlSpec::Table(
        Map::empty().insert("type"@, TomlSpec::Str("Wait"@)).insert(
            "seconds"@,
            TomlSpec::Float(FLOAT_ONE),
        ),
    )
}

/// The behavior `{ action = <action> }` with the default parameters of that action.
pub open spec fn action_table(action: Seq<char>) -> Map<Seq<char>, TomlSpec> {
    let b = Map::empty().insert("action"@, TomlSpec::Str(action));
    if action == "MoveTo"@ {
        b.insert("x"@, TomlSpec::Float(0)).insert("y"@, TomlSpec::Float(0))
    } else if action == "DoForTime"@ {
        b.insert("seconds"@, TomlSpec::Float(FLOAT_ONE))
    } else {
        b
    }
}

/// The behavior added by default.
pub open spec fn move_down() -> TomlSpec {
    TomlSpec::Table(action_table("MoveDown"@))
}

/// `n` with `v` appended to the array under `key`, or with the array `[v]` there when the key
/// holds no array.
pub open spec fn push_or_create(n: Map<Seq<char>, TomlSpec>, key: Seq<char>, v: TomlSpec) -> Map<
    Seq<char>,
    TomlSpec,
> {
    match array_at(n, key) {
        Some(a) => n.insert(key, TomlSpec::Array(a.push(v))),
        None => n.insert(key, TomlSpec::Array(seq![v])),
    }
}

/// `n` with position `i` of the array under `key` removed, when it is there.
pub open spec fn remove_in_array(n: Map<Seq<char>, TomlSpec>, key: Seq<char>, i: int) -> Map<
    Seq<char>,
    TomlSpec,
> {
    match array_at(n, key) {
        Some(a) => if 0 <= i < a.len() {
            n.insert(key, TomlSpec::Array(a.remove(i)))
        } else {
            n
        },
        None => n,
    }
}

/// The position an item at `index` moves to in direction `direction`, computed as a 32-bit
/// signed sum and read back as an unsigned position (a negative sum reads as a huge one).
pub open spec fn move_target(index: usize, direction: i32) -> int {
    (((index as i32) + direction) as usize) as int
}

/// Whether moving the item at `index` of a list of `len` items stays clear of arithmetic
/// overflow and of swapping with a position outside the list.
pub open spec fn move_safe(index: usize, direction: i32, len: int) -> bool {
    &&& i32::MIN <= (index as i32) + direction <= i32::MAX
    &&& move_target(index, direction) < len ==> index < len
}

/// `a` with the items at `i` and `j` exchanged.
pub open spec fn swap_items(a: Seq<TomlSpec>, i: int, j: int) -> Seq<TomlSpec> {
    a.update(i, a[j]).update(j, a[i])
}

/// `n` with the item at `index` of the array under `key` exchanged with the one it moves to,
/// when that position is inside the array.
pub open spec fn move_in_array(n: Map<Seq<char>, TomlSpec>, key: Seq<char>, index: usize, direction: i32) -> Map<
    Seq<char>,
    TomlSpec,
> {
    match array_at(n, key) {
        Some(a) => if move_target(index, direction) < a.len() {
            n.insert(key, TomlSpec::Array(swap_items(a, index as int, move_target(index, direction))))
        } else {
            n
        },
        None => n,
    }
}

/// An edit of the `behaviors` list of a table.
pub enum ListOpSpec {
    /// Append the default behavior (creating the list when there is none).
    Add,
    /// Remove behavior `i`.
    Delete(usize),
    /// Move behavior `i` one way or the other.
    Move(usize, i32),
    /// Replace behavior `i` by a fresh behavior of the given action.
    ChangeAction(usize, Seq<char>),
    /// Set a parameter of behavior `i`.
    SetParam(usize, Seq<char>, TomlSpec),
    /// Remove a parameter of behavior `i`.
    RemoveParam(usize, Seq<char>),
}

/// The `behaviors` edit `op` applied to table `b`.
pub open spec fn apply_list_op(b: Map<Seq<char>, TomlSpec>, op: ListOpSpec) -> Map<Seq<char>, TomlSpec> {
    match op {
        ListOpSpec::Add => push_or_create(b, "behaviors"@, move_down()),
        ListOpSpec::Delete(i) => remove_in_array(b, "behaviors"@, i as int),
        ListOpSpec::Move(i, d) => move_in_array(b, "behaviors"@, i, d),
        ListOpSpec::ChangeAction(i, a) => edit_elem_table(
            b,
            "behaviors"@,
            i as int,
            |x: Map<Seq<char>, TomlSpec>| action_table(a),
        ),
        ListOpSpec::SetParam(i, p, v) => edit_elem_table(
            b,
            "behaviors"@,
            i as int,
            |x: Map<Seq<char>, TomlSpec>| x.insert(p, v),
        ),
        ListOpSpec::RemoveParam(i, p) => edit_elem_table(
            b,
            "behaviors"@,
            i as int,
            |x: Map<Seq<char>, TomlSpec>| x.remove(p),
        ),
    }
}

/// Whether `op` on table `b` is free of overflow and out-of-range swaps.
pub open spec fn list_op_safe(b: Map<Seq<char>, TomlSpec>, op: ListOpSpec) -> bool {
    match op {
        ListOpSpec::Move(i, d) => match array_at(b, "behaviors"@) {
            Some(a) => move_safe(i, d, a.len() as int),
            None => true,
        },
        _ => true,
    }
}

/// The fields that belong to leaf and special nodes, removed in this order.
pub open spec fn remove_leaf_fields_spec(n: Map<Seq<char>, TomlSpec>) -> Map<Seq<char>, TomlSpec> {
    n.remove("seconds"@).remove("name"@).remove("behaviors"@).remove("trigger_type"@).remove(
        "child"@,
    ).remove("condition"@).remove("then_child"@).remove("else_child"@).remove("children"@)
}

/// `n` with the fields that a node of kind `t` needs.
pub open spec fn add_fields_spec(n: Map<Seq<char>, TomlSpec>, t: BehaviorNodeType) -> Map<
    Seq<char>,
    TomlSpec,
> {
    match t {
        BehaviorNodeType::Wait => n.insert("seconds"@, TomlSpec::Float(FLOAT_ONE)),
        BehaviorNodeType::Action => n.insert("name"@, TomlSpec::Str("New Action"@)).insert(
            "behaviors"@,
            TomlSpec::Array(Seq::empty()),
        ),
        BehaviorNodeType::Trigger => n.insert("trigger_type"@, TomlSpec::Str(Seq::empty())),
        BehaviorNodeType::While => n.insert("child"@, action_leaf("Child"@)),
        BehaviorNodeType::IfThen => n.insert("condition"@, wait_leaf()).insert(
            "then_child"@,
            action_leaf("Then"@),
        ),
        _ => n.insert("children"@, TomlSpec::Array(Seq::empty())),
    }
}

/// The kind of node `n`, when its `type` names one.
pub open spec fn node_kind(n: Map<Seq<char>, TomlSpec>) -> Option<BehaviorNodeType> {
    match node_type_name(n) {
        Some(s) => parse_type(s),
        None => None,
    }
}

/// Node `n` changed to kind `t`: nothing happens when it is of that kind already; between two
/// control kinds the children stay; otherwise the fields of the old kind give way to those of
/// the new one.
pub open spec fn change_type_spec(n: Map<Seq<char>, TomlSpec>, t: BehaviorNodeType) -> Map<
    Seq<char>,
    TomlSpec,
> {
    if node_kind(n) == Some(t) {
        n
    } else {
        let n1 = n.insert("type"@, TomlSpec::Str(kind_name(t)));
        let old_control = match node_kind(n) {
            Some(o) => is_control(o),
            None => false,
        };
        if old_control && is_control(t) {
            n1
        } else if old_control {
            add_fields_spec(n1.remove("children"@), t)
        } else if is_control(t) {
            remove_leaf_fields_spec(n1).insert("children"@, TomlSpec::Array(Seq::empty()))
        } else {
            add_fields_spec(remove_leaf_fields_spec(n1), t)
        }
    }
}

/// An edit of one behavior tree node.
pub enum NodeEditSpec {
    /// Set a field of the node.
    SetField(Seq<char>, TomlSpec),
    /// Remove a field of the node.
    RemoveField(Seq<char>),
    /// Append a new Action child to a control node.
    AddChild,
    /// Remove child `i` (a node is only removed where its parent can do without it).
    DeleteChild(usize),
    /// Move child `i` of a control node one way or the other.
    MoveChild(usize, i32),
    /// Change the kind of the node.
    ChangeType(BehaviorNodeType),
    /// Edit the behaviors of an Action node.
    Behaviors(ListOpSpec),
    /// Edit the nested behaviors of behavior `i` of an Action node.
    Nested(usize, ListOpSpec),
}

/// Node `n` after edit `e`.
pub open spec fn apply_node_edit(n: Map<Seq<char>, TomlSpec>, e: NodeEditSpec) -> Map<Seq<char>, TomlSpec> {
    match e {
        NodeEditSpec::SetField(k, v) => n.insert(k, v),
        NodeEditSpec::RemoveField(k) => n.remove(k),
        NodeEditSpec::AddChild => push_or_create(n, "children"@, action_leaf("New Action"@)),
        NodeEditSpec::DeleteChild(i) => match node_type_name(n) {
            Some(t) => if is_control_name(t) {
                remove_in_array(n, "children"@, i as int)
            } else if t == "While"@ && i == 0 {
                n.remove("condition"@)
            } else if t == "IfThen"@ && i == 2 {
                n.remove("else_child"@)
            } else {
                n
            },
            None => n,
        },
        NodeEditSpec::MoveChild(i, d) => match node_type_name(n) {
            Some(t) => if is_control_name(t) {
                move_in_array(n, "children"@, i, d)
            } else {
                n
            },
            None => n,
        },
        NodeEditSpec::ChangeType(t) => change_type_spec(n, t),
        NodeEditSpec::Behaviors(op) => apply_list_op(n, op),
        NodeEditSpec::Nested(i, op) => edit_elem_table(
            n,
            "behaviors"@,
            i as int,
            |b: Map<Seq<char>, TomlSpec>| apply_list_op(b, op),
        ),
    }
}

/// Whether edit `e` of node `n` is free of overflow and out-of-range swaps.
pub open spec fn node_edit_safe(n: Map<Seq<char>, TomlSpec>, e: NodeEditSpec) -> bool {
    match e {
        NodeEditSpec::MoveChild(i, d) => match node_type_name(n) {
            Some(t) => is_control_name(t) ==> match array_at(n, "children"@) {
                Some(a) => move_safe(i, d, a.len() as int),
                None => true,
            },
            None => true,
        },
        NodeEditSpec::Behaviors(op) => list_op_safe(n, op),
        NodeEditSpec::Nested(i, op) => match elem_table(n, "behaviors"@, i as int) {
            Some(b) => list_op_safe(b, op),
            None => true,
        },
        _ => true,
    }
}

/// Edit `e` as a function of the node it is made on.
pub open spec fn edit_fn(e: NodeEditSpec) -> spec_fn(Map<Seq<char>, TomlSpec>) -> Map<Seq<char>, TomlSpec> {
    |n: Map<Seq<char>, TomlSpec>| apply_node_edit(n, e)
}

/// The document `doc` after edit `e` of the behavior node at `path`.
pub open spec fn behavior_edited(doc: Option<TomlSpec>, path: Seq<usize>, e: NodeEditSpec) -> Option<
    TomlSpec,
> {
    edit_mob(doc, |m: Map<Seq<char>, TomlSpec>| edit_behavior(m, path, edit_fn(e)))
}

/// Whether edit `e` at `path` of `doc` is free of overflow and out-of-range swaps.
pub open spec fn behavior_edit_safe(doc: Option<TomlSpec>, path: Seq<usize>, e: NodeEditSpec) -> bool {
    match behavior_node(doc, path) {
        Some(n) => node_edit_safe(n, e),
        None => true,
    }
}

// ---------------------------------------------------------------------------------------------
// Executing the edits
// ---------------------------------------------------------------------------------------------

/// An edit of the `behaviors` list of a table.
pub enum ListOp {
    Add,
    Delete(usize),
    Move(usize, i32),
    ChangeAction(usize, String),
    SetParam(usize, String, TomlValue),
    RemoveParam(usize, String),
}

impl View for ListOp {
    type V = ListOpSpec;

    open spec fn view(&self) -> ListOpSpec {
        match self {
            ListOp::Add => ListOpSpec::Add,
            ListOp::Delete(i) => ListOpSpec::Delete(*i),
            ListOp::Move(i, d) => ListOpSpec::Move(*i, *d),
            ListOp::ChangeAction(i, a) => ListOpSpec::ChangeAction(*i, a@),
            ListOp::SetParam(i, p, v) => ListOpSpec::SetParam(*i, p@, v@),
            ListOp::RemoveParam(i, p) => ListOpSpec::RemoveParam(*i, p@),
        }
    }
}

/// An edit of one behavior tree node.
pub enum NodeEdit {
    SetField(String, TomlValue),
    RemoveField(String),
    AddChild,
    DeleteChild(usize),
    MoveChild(usize, i32),
    ChangeType(BehaviorNodeType),
    Behaviors(ListOp),
    Nested(usize, ListOp),
}

impl View for NodeEdit {
    type V = NodeEditSpec;

    open spec fn view(&self) -> NodeEditSpec {
        match self {
            NodeEdit::SetField(k, v) => NodeEditSpec::SetField(k@, v@),
            NodeEdit::RemoveField(k) => NodeEditSpec::RemoveField(k@),
            NodeEdit::AddChild => NodeEditSpec::AddChild,
            NodeEdit::DeleteChild(i) => NodeEditSpec::DeleteChild(*i),
            NodeEdit::MoveChild(i, d) => NodeEditSpec::MoveChild(*i, *d),
            NodeEdit::ChangeType(t) => NodeEditSpec::ChangeType(*t),
            NodeEdit::Behaviors(op) => NodeEditSpec::Behaviors(op@),
            NodeEdit::Nested(i, op) => NodeEditSpec::Nested(*i, op@),
        }
    }
}

/// An Action node named `name` with no behaviors.
fn new_action_leaf(name: &str) -> (v: TomlValue)
    ensures
        v@ == action_leaf(name@),
{
    let mut t = TomlTable::new();
    t.insert("type".to_owned(), TomlValue::String("Action".to_owned()));
    t.insert("name".to_owned(), TomlValue::String(name.to_owned()));
    t.insert("behaviors".to_owned(), TomlValue::Array(Vec::new()));
    assert(seq_view(Seq::<TomlValue>::empty()) =~= Seq::<TomlSpec>::empty());
    TomlValue::Table(t)
}

/// A Wait node of one second.
fn new_wait_leaf() -> (v: TomlValue)
    ensures
        v@ == wait_leaf(),
{
    let mut t = TomlTable::new();
    t.insert("type".to_owned(), TomlValue::String("Wait".to_owned()));
    t.insert("seconds".to_owned(), TomlValue::Float(FLOAT_ONE));
    TomlValue::Table(t)
}

/// The behavior `{ action = <action> }` with the default parameters of that action.
fn new_action_table(action: &str) -> (t: TomlTable)
    ensures
        t@ == action_table(action@),
{
    let mut t = TomlTable::new();
    t.insert("action".to_owned(), TomlValue::String(action.to_owned()));
    if str_eq(action, "MoveTo") {
        t.insert("x".to_owned(), TomlValue::Float(0));
        t.insert("y".to_owned(), TomlValue::Float(0));
    } else if str_eq(action, "DoForTime") {
        t.insert("seconds".to_owned(), TomlValue::Float(FLOAT_ONE));
    }
    t
}

/// Appends `v` to the array under `key`, or puts the array `[v]` there when it holds none.
fn push_or_create_exec(n: &mut TomlTable, key: &str, v: TomlValue)
    ensures
        final(n)@ == push_or_create(old(n)@, key@, v@),
{
    let ghost n0 = n@;
    let ghost vv = v@;
    match n.take_array(key) {
        Some(mut arr) => {
            let ghost a0 = seq_view(arr@);
            arr.push(v);
            assert(seq_view(arr@) =~= a0.push(vv));
            n.insert(key.to_owned(), TomlValue::Array(arr));
            assert(n@ =~= push_or_create(n0, key@, vv));
        },
        None => {
            let mut arr: Vec<TomlValue> = Vec::new();
            arr.push(v);
            assert(seq_view(arr@) =~= seq![vv]);
            n.insert(key.to_owned(), TomlValue::Array(arr));
        },
    }
}

/// Removes position `i` of the array under `key`, when it is there.
fn remove_in_array_exec(n: &mut TomlTable, key: &str, i: usize)
    ensures
        final(n)@ == remove_in_array(old(n)@, key@, i as int),
{
    let ghost n0 = n@;
    if let Some(mut arr) = n.take_array(key) {
        let ghost a0 = seq_view(arr@);
        if i < arr.len() {
            arr.remove(i);
            assert(seq_view(arr@) =~= a0.remove(i as int));
        }
        n.insert(key.to_owned(), TomlValue::Array(arr));
        assert(n@ =~= remove_in_array(n0, key@, i as int));
    }
}

/// Exchanges the items at `i` and `j`.
fn swap_exec(arr: &mut Vec<TomlValue>, i: usize, j: usize)
    requires
        i < old(arr)@.len(),
        j < old(arr)@.len(),
    ensures
        seq_view(final(arr)@) == swap_items(seq_view(old(arr)@), i as int, j as int),
{
    let ghost a0 = seq_view(arr@);
    if i != j {
        let lo = if i < j { i } else { j };
        let hi = if i < j { j } else { i };
        let x_hi = arr.remove(hi);
        let x_lo = arr.remove(lo);
        arr.insert(lo, x_hi);
        arr.insert(hi, x_lo);
    }
    assert(seq_view(arr@) =~= swap_items(a0, i as int, j as int));
}

/// Moves the item at `index` of the array under `key` in direction `direction`.
fn move_in_array_exec(n: &mut TomlTable, key: &str, index: usize, direction: i32)
    requires
        match array_at(old(n)@, key@) {
            Some(a) => move_safe(index, direction, a.len() as int),
            None => true,
        },
    ensures
        final(n)@ == move_in_array(old(n)@, key@, index, direction),
{
    let ghost n0 = n@;
    if let Some(mut arr) = n.take_array(key) {
        let new_index = (index as i32 + direction) as usize;
        assert(new_index == move_target(index, direction));
        if new_index < arr.len() {
            swap_exec(&mut arr, index, new_index);
        }
        n.insert(key.to_owned(), TomlValue::Array(arr));
        assert(n@ =~= move_in_array(n0, key@, index, direction));
    }
}

/// Applies `f` to the table at position `i` of the `behaviors` array, by way of `op`.
fn apply_list_op_exec(b: &mut TomlTable, op: ListOp)
    requires
        list_op_safe(old(b)@, op@),
    ensures
        final(b)@ == apply_list_op(old(b)@, op@),
{
    let ghost opv = op@;
    match op {
        ListOp::Add => {
            let t = new_action_table("MoveDown");
            push_or_create_exec(b, "behaviors", TomlValue::Table(t));
        },
        ListOp::Delete(i) => {
            remove_in_array_exec(b, "behaviors", i);
        },
        ListOp::Move(i, d) => {
            move_in_array_exec(b, "behaviors", i, d);
        },
        ListOp::ChangeAction(i, a) => {
            let ghost orig = b@;
            if let Some((rest, _old)) = take_elem_table(b, "behaviors", i) {
                let t = new_action_table(a.as_str());
                put_elem(b, "behaviors", rest, i, TomlValue::Table(t), Ghost(orig));
            }
        },
        ListOp::SetParam(i, p, v) => {
            let ghost orig = b@;
            if let Some((rest, mut x)) = take_elem_table(b, "behaviors", i) {
                x.insert(p, v);
                put_elem(b, "behaviors", rest, i, TomlValue::Table(x), Ghost(orig));
            }
        },
        ListOp::RemoveParam(i, p) => {
            let ghost orig = b@;
            if let Some((rest, mut x)) = take_elem_table(b, "behaviors", i) {
                x.remove(p.as_str());
                put_elem(b, "behaviors", rest, i, TomlValue::Table(x), Ghost(orig));
            }
        },
    }
}

/// Removes the fields that belong to leaf and special nodes.
fn remove_leaf_fields(table: &mut TomlTable)
    ensures
        final(table)@ == remove_leaf_fields_spec(old(table)@),
{
    table.remove("seconds");
    table.remove("name");
    table.remove("behaviors");
    table.remove("trigger_type");
    table.remove("child");
    table.remove("condition");
    table.remove("then_child");
    table.remove("else_child");
    table.remove("children");
}

/// Adds the fields that a node of kind `node_type` needs.
fn add_fields_for_node_type(table: &mut TomlTable, node_type: BehaviorNodeType)
    ensures
        final(table)@ == add_fields_spec(old(table)@, node_type),
{
    assert(seq_view(Seq::<TomlValue>::empty()) =~= Seq::<TomlSpec>::empty());
    match node_type {
        BehaviorNodeType::Wait => {
            table.insert("seconds".to_owned(), TomlValue::Float(FLOAT_ONE));
        },
        BehaviorNodeType::Action => {
            table.insert("name".to_owned(), TomlValue::String("New Action".to_owned()));
            table.insert("behaviors".to_owned(), TomlValue::Array(Vec::new()));
        },
        BehaviorNodeType::Trigger => {
            table.insert("trigger_type".to_owned(), TomlValue::String(String::new()));
        },
        BehaviorNodeType::While => {
            table.insert("child".to_owned(), new_action_leaf("Child"));
        },
        BehaviorNodeType::IfThen => {
            table.insert("condition".to_owned(), new_wait_leaf());
            table.insert("then_child".to_owned(), new_action_leaf("Then"));
        },
        _ => {
            table.insert("children".to_owned(), TomlValue::Array(Vec::new()));
        },
    }
}

/// The kind of node `t`, when its `type` names one.
fn node_kind_exec(t: &TomlTable) -> (r: Option<BehaviorNodeType>)
    ensures
        r == node_kind(t@),
{
    match node_type_str(t) {
        Some(s) => BehaviorNodeType::parse(s.as_str()),
        None => None,
    }
}

/// Changes node `table` to kind `new_type`.
fn change_node_type(table: &mut TomlTable, new_type: BehaviorNodeType)
    ensures
        final(table)@ == change_type_spec(old(table)@, new_type),
{
    let old_type = node_kind_exec(table);
    let same = match old_type {
        Some(o) => o == new_type,
        None => false,
    };
    if same {
        return;
    }
    table.insert("type".to_owned(), TomlValue::String(new_type.as_str().to_owned()));
    let old_is_control = match old_type {
        Some(o) => o.is_control_node(),
        None => false,
    };
    let new_is_control = new_type.is_control_node();
    if old_is_control && new_is_control {
    } else if old_is_control && !new_is_control {
        table.remove("children");
        add_fields_for_node_type(table, new_type);
    } else if !old_is_control && new_is_control {
        remove_leaf_fields(table);
        table.insert("children".to_owned(), TomlValue::Array(Vec::new()));
        assert(seq_view(Seq::<TomlValue>::empty()) =~= Seq::<TomlSpec>::empty());
    } else {
        remove_leaf_fields(table);
        add_fields_for_node_type(table, new_type);
    }
}

/// Applies edit `e` to node `n`.
fn apply_node_edit_exec(n: &mut TomlTable, e: NodeEdit)
    requires
        node_edit_safe(old(n)@, e@),
    ensures
        final(n)@ == apply_node_edit(old(n)@, e@),
{
    match e {
        NodeEdit::SetField(k, v) => {
            n.insert(k, v);
        },
        NodeEdit::RemoveField(k) => {
            n.remove(k.as_str());
        },
        NodeEdit::AddChild => {
            let leaf = new_action_leaf("New Action");
            push_or_create_exec(n, "children", leaf);
        },
        NodeEdit::DeleteChild(i) => {
            match node_type_str(n) {
                Some(s) => {
                    if is_control_str(s.as_str()) {
                        remove_in_array_exec(n, "children", i);
                    } else if str_eq(s.as_str(), "While") && i == 0 {
                        n.remove("condition");
                    } else if str_eq(s.as_str(), "IfThen") && i == 2 {
                        n.remove("else_child");
                    }
                },
                None => {},
            }
        },
        NodeEdit::MoveChild(i, d) => {
            let control = match node_type_str(n) {
                Some(s) => is_control_str(s.as_str()),
                None => false,
            };
            if control {
                move_in_array_exec(n, "children", i, d);
            }
        },
        NodeEdit::ChangeType(t) => {
            change_node_type(n, t);
        },
        NodeEdit::Behaviors(op) => {
            apply_list_op_exec(n, op);
        },
        NodeEdit::Nested(i, op) => {
            let ghost orig = n@;
            let ghost opv = op@;
            if let Some((rest, mut b)) = take_elem_table(n, "behaviors", i) {
                apply_list_op_exec(&mut b, op);
                put_elem(n, "behaviors", rest, i, TomlValue::Table(b), Ghost(orig));
            }
        },
    }
}

/// `node` with edit `e` applied at the node that `path[depth..]` leads to.
fn edit_node_at(node: TomlValue, path: &[usize], depth: usize, e: NodeEdit) -> (r: TomlValue)
    requires
        depth <= path@.len(),
        match node_at(node@, path@.subrange(depth as int, path@.len() as int)) {
            Some(TomlSpec::Table(n)) => node_edit_safe(n, e@),
            _ => true,
        },
    ensures
        r@ == edit_at(node@, path@.subrange(depth as int, path@.len() as int), edit_fn(e@)),
    decreases path@.len() - depth,
{
    let ghost p = path@.subrange(depth as int, path@.len() as int);
    let ghost f = edit_fn(e@);
    match node {
        TomlValue::Table(mut t) => {
            if depth == path.len() {
                apply_node_edit_exec(&mut t, e);
                return TomlValue::Table(t);
            }
            let ghost t0 = t@;
            let index = path[depth];
            proof {
                assert(p[0] == index);
                assert(p.drop_first() =~= path@.subrange(depth + 1, path@.len() as int));
                lemma_edit_at_step(t0, p, f);
            }
            match child_slot_exec(&t, index) {
                Some(SlotName::Children) => {
                    match take_elem_value(&mut t, "children", index) {
                        Some((rest, child)) => {
                            let new_child = edit_node_at(child, path, depth + 1, e);
                            put_elem(&mut t, "children", rest, index, new_child, Ghost(t0));
                            assert(TomlValue::Table(t)@ == edit_at(TomlSpec::Table(t0), p, f));
                        },
                        None => {},
                    }
                },
                Some(SlotName::Field(k)) => {
                    match t.remove(k) {
                        Some(child) => {
                            let new_child = edit_node_at(child, path, depth + 1, e);
                            let ghost nc = new_child@;
                            t.insert(k.to_owned(), new_child);
                            assert(t@ =~= t0.insert(k@, nc));
                            assert(TomlValue::Table(t)@ == edit_at(TomlSpec::Table(t0), p, f));
                        },
                        None => {
                            assert(t@ =~= t0);
                        },
                    }
                },
                None => {},
            }
            TomlValue::Table(t)
        },
        other => other,
    }
}

/// Applies edit `e` to the behavior node at `path` of the current mob.
fn edit_behavior_exec(session: &mut EditorSession, path: &[usize], e: NodeEdit)
    requires
        behavior_edit_safe(doc_view(old(session).current_mob), path@, e@),
    ensures
        final(session).original_mob == old(session).original_mob,
        doc_view(final(session).current_mob) == behavior_edited(
            doc_view(old(session).current_mob),
            path@,
            e@,
        ),
{
    assert(path@.subrange(0, path@.len() as int) =~= path@);
    if let Some(mut mob) = take_mob(session) {
        let ghost m0 = mob@;
        match mob.remove("behavior") {
            Some(b) => {
                let ghost ev = e@;
                let nb = edit_node_at(b, path, 0, e);
                mob.insert("behavior".to_owned(), nb);
                assert(mob@ =~= edit_behavior(m0, path@, edit_fn(ev)));
            },
            None => {
                assert(mob@ =~= m0);
            },
        }
        put_mob(session, mob);
    }
}


// ---------------------------------------------------------------------------------------------
// The editor's operations on the behavior tree
// ---------------------------------------------------------------------------------------------

/// The default tree: a Forever node with one Action that moves down.
pub open spec fn default_tree_spec() -> TomlSpec {
    TomlSpec::Table(
        Map::empty().insert("type"@, TomlSpec::Str("Forever"@)).insert(
            "children"@,
            TomlSpec::Array(
                seq![
                    TomlSpec::Table(
                        Map::empty().insert("type"@, TomlSpec::Str("Action"@)).insert(
                            "name"@,
                            TomlSpec::Str("Movement"@),
                        ).insert("behaviors"@, TomlSpec::Array(seq![move_down()])),
                    ),
                ],
            ),
        ),
    )
}

/// Gives the mob the default behavior tree, replacing any tree it had.
pub fn add_default_behavior_tree(session: &mut EditorSession)
    ensures
        final(session).original_mob == old(session).original_mob,
        doc_view(final(session).current_mob) == edit_mob(
            doc_view(old(session).current_mob),
            |m: Map<Seq<char>, TomlSpec>| m.insert("behavior"@, default_tree_spec()),
        ),
{
    if let Some(mut mob) = take_mob(session) {
        let mut behaviors: Vec<TomlValue> = Vec::new();
        behaviors.push(TomlValue::Table(new_action_table("MoveDown")));
        let ghost bs = seq_view(behaviors@);
        assert(bs =~= seq![move_down()]);
        let mut action = TomlTable::new();
        action.insert("type".to_owned(), TomlValue::String("Action".to_owned()));
        action.insert("name".to_owned(), TomlValue::String("Movement".to_owned()));
        action.insert("behaviors".to_owned(), TomlValue::Array(behaviors));
        let ghost av = action@;
        let mut children: Vec<TomlValue> = Vec::new();
        children.push(TomlValue::Table(action));
        assert(seq_view(children@) =~= seq![TomlSpec::Table(av)]);
        let mut root = TomlTable::new();
        root.insert("type".to_owned(), TomlValue::String("Forever".to_owned()));
        root.insert("children".to_owned(), TomlValue::Array(children));
        mob.insert("behavior".to_owned(), TomlValue::Table(root));
        put_mob(session, mob);
    }
}

/// Sets a field of the behavior node at `path`.
pub fn set_behavior_node_field(session: &mut EditorSession, path: &[usize], field: &str, value: TomlValue)
    ensures
        final(session).original_mob == old(session).original_mob,
        doc_view(final(session).current_mob) == behavior_edited(
            doc_view(old(session).current_mob),
            path@,
            NodeEditSpec::SetField(field@, value@),
        ),
{
    edit_behavior_exec(session, path, NodeEdit::SetField(field.to_owned(), value));
}

/// Appends a new Action child to the control node at `path` (creating its `children`).
pub fn add_behavior_child(session: &mut EditorSession, path: &[usize])
    ensures
        final(session).original_mob == old(session).original_mob,
        doc_view(final(session).current_mob) == behavior_edited(
            doc_view(old(session).current_mob),
            path@,
            NodeEditSpec::AddChild,
        ),
{
    edit_behavior_exec(session, path, NodeEdit::AddChild);
}

/// The path of the parent of the node at a nonempty path.
pub open spec fn parent_path(path: Seq<usize>) -> Seq<usize> {
    path.subrange(0, path.len() - 1)
}

/// Deletes the node at `path`: a child of a control node is removed, as are the condition of a
/// While node and the else branch of an IfThen node; the root and the other required children
/// stay.
pub fn delete_behavior_node(session: &mut EditorSession, path: &[usize])
    ensures
        final(session).original_mob == old(session).original_mob,
        path@.len() == 0 ==> final(session).current_mob == old(session).current_mob,
        path@.len() > 0 ==> doc_view(final(session).current_mob) == behavior_edited(
            doc_view(old(session).current_mob),
            parent_path(path@),
            NodeEditSpec::DeleteChild(path@.last()),
        ),
{
    if path.len() == 0 {
        return;
    }
    let index = path[path.len() - 1];
    let (parent, _) = path.split_at(path.len() - 1);
    edit_behavior_exec(session, parent, NodeEdit::DeleteChild(index));
}

/// Moves the node at `path` within the children of its control-node parent.
pub fn move_behavior_node(session: &mut EditorSession, path: &[usize], direction: i32)
    requires
        path@.len() > 0 ==> behavior_edit_safe(
            doc_view(old(session).current_mob),
            parent_path(path@),
            NodeEditSpec::MoveChild(path@.last(), direction),
        ),
    ensures
        final(session).original_mob == old(session).original_mob,
        path@.len() == 0 ==> final(session).current_mob == old(session).current_mob,
        path@.len() > 0 ==> doc_view(final(session).current_mob) == behavior_edited(
            doc_view(old(session).current_mob),
            parent_path(path@),
            NodeEditSpec::MoveChild(path@.last(), direction),
        ),
{
    if path.len() == 0 {
        return;
    }
    let index = path[path.len() - 1];
    let (parent, _) = path.split_at(path.len() - 1);
    edit_behavior_exec(session, parent, NodeEdit::MoveChild(index, direction));
}

/// Changes the kind of the node at `path`.
pub fn change_behavior_node_type(session: &mut EditorSession, path: &[usize], new_type: BehaviorNodeType)
    ensures
        final(session).original_mob == old(session).original_mob,
        doc_view(final(session).current_mob) == behavior_edited(
            doc_view(old(session).current_mob),
            path@,
            NodeEditSpec::ChangeType(new_type),
        ),
{
    edit_behavior_exec(session, path, NodeEdit::ChangeType(new_type));
}

/// Gives the While node at `path` the default condition (a one-second Wait).
pub fn add_while_condition(session: &mut EditorSession, path: &[usize])
    ensures
        final(session).original_mob == old(session).original_mob,
        doc_view(final(session).current_mob) == behavior_edited(
            doc_view(old(session).current_mob),
            path@,
            NodeEditSpec::SetField("condition"@, wait_leaf()),
        ),
{
    edit_behavior_exec(session, path, NodeEdit::SetField("condition".to_owned(), new_wait_leaf()));
}

/// Gives the While node at `path` a new child Action.
pub fn add_while_child(session: &mut EditorSession, path: &[usize])
    ensures
        final(session).original_mob == old(session).original_mob,
        doc_view(final(session).current_mob) == behavior_edited(
            doc_view(old(session).current_mob),
            path@,
            NodeEditSpec::SetField("child"@, action_leaf("Child"@)),
        ),
{
    edit_behavior_exec(session, path, NodeEdit::SetField("child".to_owned(), new_action_leaf("Child")));
}

/// Gives the IfThen node at `path` the default condition (a one-second Wait).
pub fn add_if_then_condition(session: &mut EditorSession, path: &[usize])
    ensures
        final(session).original_mob == old(session).original_mob,
        doc_view(final(session).current_mob) == behavior_edited(
            doc_view(old(session).current_mob),
            path@,
            NodeEditSpec::SetField("condition"@, wait_leaf()),
        ),
{
    edit_behavior_exec(session, path, NodeEdit::SetField("condition".to_owned(), new_wait_leaf()));
}

/// Gives the IfThen node at `path` a new then-branch Action.
pub fn add_if_then_child(session: &mut EditorSession, path: &[usize])
    ensures
        final(session).original_mob == old(session).original_mob,
        doc_view(final(session).current_mob) == behavior_edited(
            doc_view(old(session).current_mob),
            path@,
            NodeEditSpec::SetField("then_child"@, action_leaf("Then"@)),
        ),
{
    edit_behavior_exec(session, path, NodeEdit::SetField("then_child".to_owned(), new_action_leaf("Then")));
}

/// Gives the IfThen node at `path` a new else-branch Action.
pub fn add_if_else_child(session: &mut EditorSession, path: &[usize])
    ensures
        final(session).original_mob == old(session).original_mob,
        doc_view(final(session).current_mob) == behavior_edited(
            doc_view(old(session).current_mob),
            path@,
            NodeEditSpec::SetField("else_child"@, action_leaf("Else"@)),
        ),
{
    edit_behavior_exec(session, path, NodeEdit::SetField("else_child".to_owned(), new_action_leaf("Else")));
}

/// Removes the else branch of the IfThen node at `path`.
pub fn remove_if_else_child(session: &mut EditorSession, path: &[usize])
    ensures
        final(session).original_mob == old(session).original_mob,
        doc_view(final(session).current_mob) == behavior_edited(
            doc_view(old(session).current_mob),
            path@,
            NodeEditSpec::RemoveField("else_child"@),
        ),
{
    edit_behavior_exec(session, path, NodeEdit::RemoveField("else_child".to_owned()));
}

/// Appends the default behavior (MoveDown) to the Action node at `path`.
pub fn add_action_behavior(session: &mut EditorSession, path: &[usize])
    ensures
        final(session).original_mob == old(session).original_mob,
        doc_view(final(session).current_mob) == behavior_edited(
            doc_view(old(session).current_mob),
            path@,
            NodeEditSpec::Behaviors(ListOpSpec::Add),
        ),
{
    edit_behavior_exec(session, path, NodeEdit::Behaviors(ListOp::Add));
}

/// Deletes behavior `index` of the Action node at `path`.
pub fn delete_action_behavior(session: &mut EditorSession, path: &[usize], index: usize)
    ensures
        final(session).original_mob == old(session).original_mob,
        doc_view(final(session).current_mob) == behavior_edited(
            doc_view(old(session).current_mob),
            path@,
            NodeEditSpec::Behaviors(ListOpSpec::Delete(index)),
        ),
{
    edit_behavior_exec(session, path, NodeEdit::Behaviors(ListOp::Delete(index)));
}

/// Moves behavior `index` of the Action node at `path` one way or the other.
pub fn move_action_behavior(session: &mut EditorSession, path: &[usize], index: usize, direction: i32)
    requires
        behavior_edit_safe(
            doc_view(old(session).current_mob),
            path@,
            NodeEditSpec::Behaviors(ListOpSpec::Move(index, direction)),
        ),
    ensures
        final(session).original_mob == old(session).original_mob,
        doc_view(final(session).current_mob) == behavior_edited(
            doc_view(old(session).current_mob),
            path@,
            NodeEditSpec::Behaviors(ListOpSpec::Move(index, direction)),
        ),
{
    edit_behavior_exec(session, path, NodeEdit::Behaviors(ListOp::Move(index, direction)));
}

/// Replaces behavior `index` of the Action node at `path` by a fresh behavior of action
/// `new_action`, with that action's default parameters.
pub fn change_action_behavior_type(session: &mut EditorSession, path: &[usize], index: usize, new_action: &str)
    ensures
        final(session).original_mob == old(session).original_mob,
        doc_view(final(session).current_mob) == behavior_edited(
            doc_view(old(session).current_mob),
            path@,
            NodeEditSpec::Behaviors(ListOpSpec::ChangeAction(index, new_action@)),
        ),
{
    edit_behavior_exec(
        session,
        path,
        NodeEdit::Behaviors(ListOp::ChangeAction(index, new_action.to_owned())),
    );
}

/// Sets a parameter of behavior `index` of the Action node at `path`.
pub fn set_action_behavior_param(
    session: &mut EditorSession,
    path: &[usize],
    index: usize,
    param: &str,
    value: TomlValue,
)
    ensures
        final(session).original_mob == old(session).original_mob,
        doc_view(final(session).current_mob) == behavior_edited(
            doc_view(old(session).current_mob),
            path@,
            NodeEditSpec::Behaviors(ListOpSpec::SetParam(index, param@, value@)),
        ),
{
    edit_behavior_exec(
        session,
        path,
        NodeEdit::Behaviors(ListOp::SetParam(index, param.to_owned(), value)),
    );
}

/// Removes a parameter of behavior `index` of the Action node at `path`.
pub fn remove_action_behavior_param(session: &mut EditorSession, path: &[usize], index: usize, param: &str)
    ensures
        final(session).original_mob == old(session).original_mob,
        doc_view(final(session).current_mob) == behavior_edited(
            doc_view(old(session).current_mob),
            path@,
            NodeEditSpec::Behaviors(ListOpSpec::RemoveParam(index, param@)),
        ),
{
    edit_behavior_exec(session, path, NodeEdit::Behaviors(ListOp::RemoveParam(index, param.to_owned())));
}

/// Appends the default behavior to the nested behaviors of behavior `behavior_index` (a
/// TransmitMobBehavior action) of the Action node at `path`.
pub fn add_transmit_nested_behavior(session: &mut EditorSession, path: &[usize], behavior_index: usize)
    ensures
        final(session).original_mob == old(session).original_mob,
        doc_view(final(session).current_mob) == behavior_edited(
            doc_view(old(session).current_mob),
            path@,
            NodeEditSpec::Nested(behavior_index, ListOpSpec::Add),
        ),
{
    edit_behavior_exec(session, path, NodeEdit::Nested(behavior_index, ListOp::Add));
}

/// Deletes nested behavior `nested_index` of behavior `behavior_index`.
pub fn delete_transmit_nested_behavior(
    session: &mut EditorSession,
    path: &[usize],
    behavior_index: usize,
    nested_index: usize,
)
    ensures
        final(session).original_mob == old(session).original_mob,
        doc_view(final(session).current_mob) == behavior_edited(
            doc_view(old(session).current_mob),
            path@,
            NodeEditSpec::Nested(behavior_index, ListOpSpec::Delete(nested_index)),
        ),
{
    edit_behavior_exec(session, path, NodeEdit::Nested(behavior_index, ListOp::Delete(nested_index)));
}

/// Moves nested behavior `nested_index` of behavior `behavior_index` one way or the other.
pub fn move_transmit_nested_behavior(
    session: &mut EditorSession,
    path: &[usize],
    behavior_index: usize,
    nested_index: usize,
    direction: i32,
)
    requires
        behavior_edit_safe(
            doc_view(old(session).current_mob),
            path@,
            NodeEditSpec::Nested(behavior_index, ListOpSpec::Move(nested_index, direction)),
        ),
    ensures
        final(session).original_mob == old(session).original_mob,
        doc_view(final(session).current_mob) == behavior_edited(
            doc_view(old(session).current_mob),
            path@,
            NodeEditSpec::Nested(behavior_index, ListOpSpec::Move(nested_index, direction)),
        ),
{
    edit_behavior_exec(
        session,
        path,
        NodeEdit::Nested(behavior_index, ListOp::Move(nested_index, direction)),
    );
}

/// Replaces nested behavior `nested_index` of behavior `behavior_index` by a fresh behavior
/// of action `new_action`.
pub fn change_transmit_nested_behavior_type(
    session: &mut EditorSession,
    path: &[usize],
    behavior_index: usize,
    nested_index: usize,
    new_action: &str,
)
    ensures
        final(session).original_mob == old(session).original_mob,
        doc_view(final(session).current_mob) == behavior_edited(
            doc_view(old(session).current_mob),
            path@,
            NodeEditSpec::Nested(behavior_index, ListOpSpec::ChangeAction(nested_index, new_action@)),
        ),
{
    edit_behavior_exec(
        session,
        path,
        NodeEdit::Nested(behavior_index, ListOp::ChangeAction(nested_index, new_action.to_owned())),
    );
}

/// Sets a parameter of nested behavior `nested_index` of behavior `behavior_index`.
pub fn set_transmit_nested_param(
    session: &mut EditorSession,
    path: &[usize],
    behavior_index: usize,
    nested_index: usize,
    param: &str,
    value: TomlValue,
)
    ensures
        final(session).original_mob == old(session).original_mob,
        doc_view(final(session).current_mob) == behavior_edited(
            doc_view(old(session).current_mob),
            path@,
            NodeEditSpec::Nested(behavior_index, ListOpSpec::SetParam(nested_index, param@, value@)),
        ),
{
    edit_behavior_exec(
        session,
        path,
        NodeEdit::Nested(behavior_index, ListOp::SetParam(nested_index, param.to_owned(), value)),
    );
}

// ---------------------------------------------------------------------------------------------
// Node headers
// ---------------------------------------------------------------------------------------------

/// What the header of a node in the tree shows: a text, or the seconds of a Wait node (a float,
/// by its bits, that the caller prints with one decimal).
pub enum NodeHeader {
    Text(String),
    WaitSeconds(u64),
}

/// The `name` of an Action node, or the empty name when it has no string there.
pub open spec fn action_name(n: Map<Seq<char>, TomlSpec>) -> Seq<char> {
    if n.contains_key("name"@) && n["name"@] is Str {
        n["name"@]->Str_0
    } else {
        Seq::empty()
    }
}

/// The `seconds` of a Wait node, or one second when it has no float there.
pub open spec fn wait_seconds(n: Map<Seq<char>, TomlSpec>) -> u64 {
    if n.contains_key("seconds"@) && n["seconds"@] is Float {
        n["seconds"@]->Float_0
    } else {
        FLOAT_ONE
    }
}

/// The header of node `n` of kind `kind`: `Action` or `Action: <name>` for an Action node, the
/// seconds of a Wait node, the kind's name for the other kinds and `Unknown` without a kind.
pub fn format_node_header(table: &TomlTable, node_type: Option<BehaviorNodeType>) -> (r: NodeHeader)
    ensures
        match node_type {
            Some(BehaviorNodeType::Action) => r matches NodeHeader::Text(s) && s@ == (if action_name(
                table@,
            ).len() == 0 {
                "Action"@
            } else {
                "Action: "@ + action_name(table@)
            }),
            Some(BehaviorNodeType::Wait) => r == NodeHeader::WaitSeconds(wait_seconds(table@)),
            Some(t) => r matches NodeHeader::Text(s) && s@ == kind_name(t),
            None => r matches NodeHeader::Text(s) && s@ == "Unknown"@,
        },
{
    match node_type {
        Some(BehaviorNodeType::Action) => {
            let name: &str = match table.get("name") {
                Some(TomlValue::String(s)) => s.as_str(),
                _ => "",
            };
            proof {
                reveal_strlit("");
            }
            if name.unicode_len() == 0 {
                NodeHeader::Text("Action".to_owned())
            } else {
                let mut h = "Action: ".to_owned();
                h.append(name);
                NodeHeader::Text(h)
            }
        },
        Some(BehaviorNodeType::Wait) => {
            let seconds = match table.get("seconds") {
                Some(TomlValue::Float(b)) => *b,
                _ => FLOAT_ONE,
            };
            NodeHeader::WaitSeconds(seconds)
        },
        Some(t) => NodeHeader::Text(t.as_str().to_owned()),
        None => NodeHeader::Text("Unknown".to_owned()),
    }
}

} // verus!
