use mob_editor::behavior::{
    add_behavior_child, add_default_behavior_tree, change_behavior_node_type,
    delete_behavior_node, get_children_count, move_action_behavior, add_action_behavior,
    BehaviorNodeType,
};
use mob_editor::document::{values_equal, TomlTable, TomlValue};
use mob_editor::session::EditorSession;
use mob_editor::spawners::{add_new_mob_spawner, rename_spawner_by_name};

fn ls_session() -> EditorSession {
    EditorSession { current_mob: Some(TomlValue::Table(TomlTable::new())), original_mob: None }
}

fn ls_same(a: &EditorSession, b: &EditorSession) -> bool {
    values_equal(a.current_mob.as_ref().unwrap(), b.current_mob.as_ref().unwrap())
}

fn ls_tree() -> EditorSession {
    let mut s = ls_session();
    add_default_behavior_tree(&mut s);
    add_action_behavior(&mut s, &[0]);
    s
}

#[test]
fn rename_there_and_back_restores() {
    let mut a = ls_session();
    add_new_mob_spawner(&mut a, &TomlTable::new());
    let mut b = ls_session();
    add_new_mob_spawner(&mut b, &TomlTable::new());
    rename_spawner_by_name(&mut a, "mob_spawners", "mob_north", "left");
    assert!(!ls_same(&a, &b));
    rename_spawner_by_name(&mut a, "mob_spawners", "left", "mob_north");
    assert!(ls_same(&a, &b));
}

#[test]
fn move_and_move_back_restores() {
    let mut a = ls_tree();
    let b = ls_tree();
    move_action_behavior(&mut a, &[0], 0, 1);
    move_action_behavior(&mut a, &[0], 1, -1);
    assert!(ls_same(&a, &b));
}

#[test]
fn changing_type_twice_equals_once() {
    let mut a = ls_tree();
    let mut b = ls_tree();
    change_behavior_node_type(&mut a, &[0], BehaviorNodeType::IfThen);
    change_behavior_node_type(&mut b, &[0], BehaviorNodeType::IfThen);
    change_behavior_node_type(&mut b, &[0], BehaviorNodeType::IfThen);
    assert!(ls_same(&a, &b));
}

#[test]
fn add_child_then_delete_restores() {
    let mut a = ls_tree();
    let b = ls_tree();
    let count = get_children_count(&a, &[]);
    add_behavior_child(&mut a, &[]);
    delete_behavior_node(&mut a, &[count]);
    assert!(ls_same(&a, &b));
}

#[test]
fn else_branch_add_then_remove_restores() {
    let mut a = ls_tree();
    change_behavior_node_type(&mut a, &[], BehaviorNodeType::IfThen);
    let mut b = ls_tree();
    change_behavior_node_type(&mut b, &[], BehaviorNodeType::IfThen);
    mob_editor::behavior::add_if_else_child(&mut a, &[]);
    mob_editor::behavior::remove_if_else_child(&mut a, &[]);
    assert!(ls_same(&a, &b));
}

#[test]
fn action_add_then_delete_restores() {
    let mut a = ls_tree();
    let b = ls_tree();
    add_action_behavior(&mut a, &[0]);
    mob_editor::behavior::delete_action_behavior(&mut a, &[0], 2);
    assert!(ls_same(&a, &b));
    mob_editor::behavior::delete_action_behavior(&mut a, &[0], 7);
    assert!(ls_same(&a, &b));
}

#[test]
fn param_set_then_remove_restores() {
    let mut a = ls_tree();
    let b = ls_tree();
    mob_editor::behavior::set_action_behavior_param(&mut a, &[0], 0, "speed", TomlValue::Integer(3));
    mob_editor::behavior::remove_action_behavior_param(&mut a, &[0], 0, "speed");
    assert!(ls_same(&a, &b));
}

#[test]
fn moving_a_child_node_back_restores() {
    let mut a = ls_tree();
    add_behavior_child(&mut a, &[]);
    let mut b = ls_tree();
    add_behavior_child(&mut b, &[]);
    mob_editor::behavior::move_behavior_node(&mut a, &[0], 1);
    assert!(!ls_same(&a, &b));
    mob_editor::behavior::move_behavior_node(&mut a, &[1], -1);
    assert!(ls_same(&a, &b));
}

#[test]
fn edit_leaves_sibling_nodes_alone() {
    let mut a = ls_tree();
    add_behavior_child(&mut a, &[]);
    let mut b = ls_tree();
    add_behavior_child(&mut b, &[]);
    change_behavior_node_type(&mut a, &[0], BehaviorNodeType::Wait);
    let sibling = |s: &EditorSession| -> TomlValue {
        match &s.current_mob {
            Some(TomlValue::Table(m)) => match m.get("behavior") {
                Some(TomlValue::Table(root)) => match root.get("children") {
                    Some(TomlValue::Array(c)) => mob_editor::document::clone_value(&c[1]),
                    _ => panic!("no children"),
                },
                _ => panic!("no tree"),
            },
            _ => panic!("no mob"),
        }
    };
    assert!(values_equal(&sibling(&a), &sibling(&b)));
}
