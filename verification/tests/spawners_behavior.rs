use mob_editor::behavior::{
    add_action_behavior, add_behavior_child, add_default_behavior_tree, add_if_else_child,
    add_if_then_child, add_if_then_condition, add_transmit_nested_behavior, add_while_child,
    add_while_condition, change_action_behavior_type, change_behavior_node_type,
    change_transmit_nested_behavior_type, delete_action_behavior, delete_behavior_node,
    delete_transmit_nested_behavior, format_node_header, get_children_count,
    move_action_behavior, move_behavior_node, move_transmit_nested_behavior,
    remove_action_behavior_param, remove_if_else_child, set_action_behavior_param,
    set_behavior_node_field, set_transmit_nested_param, BehaviorNodeType, NodeHeader,
};
use mob_editor::document::{values_equal, TomlTable, TomlValue};
use mob_editor::session::EditorSession;
use mob_editor::spawners::{
    add_new_mob_spawner, add_new_projectile_spawner, delete_spawner_by_name,
    generate_unique_spawner_name, is_spawner_field_patched, remove_spawner_field,
    rename_spawner_by_name, set_spawner_field,
};

fn sb_str(x: &str) -> TomlValue {
    TomlValue::String(x.to_string())
}

fn sb_float(x: f64) -> TomlValue {
    TomlValue::Float(x.to_bits())
}

fn sb_table(entries: Vec<(&str, TomlValue)>) -> TomlTable {
    let mut t = TomlTable::new();
    for (k, v) in entries {
        t.insert(k.to_string(), v);
    }
    t
}

fn sb_session(current: TomlTable) -> EditorSession {
    EditorSession { current_mob: Some(TomlValue::Table(current)), original_mob: None }
}

fn sb_mob(s: &EditorSession) -> &TomlTable {
    match &s.current_mob {
        Some(TomlValue::Table(t)) => t,
        _ => panic!("no mob table"),
    }
}

fn sb_sub<'a>(t: &'a TomlTable, key: &str) -> &'a TomlTable {
    match t.get(key) {
        Some(TomlValue::Table(x)) => x,
        _ => panic!("no table under {key}"),
    }
}

fn sb_arr<'a>(t: &'a TomlTable, key: &str) -> &'a Vec<TomlValue> {
    match t.get(key) {
        Some(TomlValue::Array(a)) => a,
        _ => panic!("no array under {key}"),
    }
}

fn sb_elem(v: &TomlValue) -> &TomlTable {
    match v {
        TomlValue::Table(t) => t,
        _ => panic!("not a table"),
    }
}

fn sb_spawners(s: &EditorSession, section: &str) -> TomlTable {
    let sp = sb_sub(sb_sub(sb_mob(s), section), "spawners");
    let mut copy = TomlTable::new();
    for (k, _) in sp.entries() {
        copy.insert(k.clone(), TomlValue::Boolean(true));
    }
    copy
}

fn sb_type(t: &TomlTable) -> String {
    match t.get("type") {
        Some(TomlValue::String(s)) => s.clone(),
        _ => String::new(),
    }
}

#[test]
fn unique_spawner_names() {
    assert_eq!(generate_unique_spawner_name(None, "spawner"), "spawner_north");
    let taken = sb_table(vec![
        ("mob_north", TomlValue::Boolean(true)),
        ("mob_south", TomlValue::Boolean(true)),
    ]);
    assert_eq!(generate_unique_spawner_name(Some(&taken), "mob"), "mob_east");
    let mut all = TomlTable::new();
    for d in ["north", "south", "east", "west", "center"] {
        all.insert(format!("x_{d}"), TomlValue::Boolean(true));
    }
    assert_eq!(generate_unique_spawner_name(Some(&all), "x"), "x_1");
    for i in 1..100 {
        all.insert(format!("x_{i}"), TomlValue::Boolean(true));
    }
    assert_eq!(generate_unique_spawner_name(Some(&all), "x"), "x_new");
}

#[test]
fn spawner_add_set_remove_rename_delete() {
    let mut s = sb_session(TomlTable::new());
    let display = TomlTable::new();
    add_new_projectile_spawner(&mut s, &display);
    let shown = sb_spawners(&s, "projectile_spawners");
    let display2 = sb_table(vec![(
        "projectile_spawners",
        TomlValue::Table(sb_table(vec![("spawners", TomlValue::Table(shown))])),
    )]);
    add_new_projectile_spawner(&mut s, &display2);
    let sp = sb_sub(sb_sub(sb_mob(&s), "projectile_spawners"), "spawners");
    assert!(sp.contains_key("spawner_north"));
    assert!(sp.contains_key("spawner_south"));
    let north = sb_sub(sp, "spawner_north");
    assert!(values_equal(north.get("timer").unwrap(), &sb_float(1.0)));
    assert!(matches!(north.get("projectile_type"), Some(TomlValue::String(p)) if p == "Bullet"));
    assert!(matches!(north.get("faction"), Some(TomlValue::String(p)) if p == "Enemy"));

    set_spawner_field(&mut s, "projectile_spawners", "spawner_north", "timer", sb_float(2.5));
    let patch = sb_mob(&s);
    assert!(is_spawner_field_patched(patch, "projectile_spawners", "spawner_north", "timer"));
    assert!(!is_spawner_field_patched(patch, "projectile_spawners", "spawner_north", "speed"));
    assert!(!is_spawner_field_patched(patch, "mob_spawners", "spawner_north", "timer"));

    rename_spawner_by_name(&mut s, "projectile_spawners", "spawner_north", "spawner_south");
    let sp = sb_sub(sb_sub(sb_mob(&s), "projectile_spawners"), "spawners");
    assert!(sp.contains_key("spawner_north"));
    rename_spawner_by_name(&mut s, "projectile_spawners", "spawner_north", "front");
    let sp = sb_sub(sb_sub(sb_mob(&s), "projectile_spawners"), "spawners");
    assert!(!sp.contains_key("spawner_north"));
    assert!(values_equal(sb_sub(sp, "front").get("timer").unwrap(), &sb_float(2.5)));

    delete_spawner_by_name(&mut s, "projectile_spawners", "front");
    delete_spawner_by_name(&mut s, "projectile_spawners", "spawner_south");
    assert!(!sb_mob(&s).contains_key("projectile_spawners"));
}

#[test]
fn set_spawner_field_creates_path_and_remove_prunes_it() {
    let mut s = sb_session(TomlTable::new());
    set_spawner_field(&mut s, "mob_spawners", "mob_north", "timer", sb_float(3.0));
    let sp = sb_sub(sb_sub(sb_mob(&s), "mob_spawners"), "spawners");
    assert!(values_equal(sb_sub(sp, "mob_north").get("timer").unwrap(), &sb_float(3.0)));
    remove_spawner_field(&mut s, "mob_spawners", "mob_north", "timer");
    assert!(!sb_mob(&s).contains_key("mob_spawners"));
}

#[test]
fn mob_spawner_defaults() {
    let mut s = sb_session(TomlTable::new());
    add_new_mob_spawner(&mut s, &TomlTable::new());
    let sp = sb_sub(sb_sub(sb_mob(&s), "mob_spawners"), "spawners");
    let m = sb_sub(sp, "mob_north");
    assert!(values_equal(m.get("timer").unwrap(), &sb_float(5.0)));
    assert!(matches!(m.get("mob_ref"), Some(TomlValue::String(r)) if r.is_empty()));
}

#[test]
fn default_behavior_tree_shape() {
    let mut s = sb_session(TomlTable::new());
    add_default_behavior_tree(&mut s);
    let root = sb_sub(sb_mob(&s), "behavior");
    assert_eq!(sb_type(root), "Forever");
    let children = sb_arr(root, "children");
    assert_eq!(children.len(), 1);
    let action = sb_elem(&children[0]);
    assert_eq!(sb_type(action), "Action");
    assert!(matches!(action.get("name"), Some(TomlValue::String(n)) if n == "Movement"));
    let behaviors = sb_arr(action, "behaviors");
    assert!(matches!(sb_elem(&behaviors[0]).get("action"), Some(TomlValue::String(a)) if a == "MoveDown"));
    assert_eq!(get_children_count(&s, &[]), 1);
}

#[test]
fn behavior_children_add_move_delete() {
    let mut s = sb_session(TomlTable::new());
    add_default_behavior_tree(&mut s);
    add_behavior_child(&mut s, &[]);
    assert_eq!(get_children_count(&s, &[]), 2);
    move_behavior_node(&mut s, &[1], -1);
    let root = sb_sub(sb_mob(&s), "behavior");
    let first = sb_elem(&sb_arr(root, "children")[0]);
    assert!(matches!(first.get("name"), Some(TomlValue::String(n)) if n == "New Action"));
    move_behavior_node(&mut s, &[1], 1);
    assert_eq!(get_children_count(&s, &[]), 2);
    delete_behavior_node(&mut s, &[0]);
    assert_eq!(get_children_count(&s, &[]), 1);
    delete_behavior_node(&mut s, &[]);
    assert!(sb_mob(&s).contains_key("behavior"));
}

#[test]
fn behavior_type_changes() {
    let mut s = sb_session(TomlTable::new());
    add_default_behavior_tree(&mut s);
    change_behavior_node_type(&mut s, &[], BehaviorNodeType::Sequence);
    let root = sb_sub(sb_mob(&s), "behavior");
    assert_eq!(sb_type(root), "Sequence");
    assert_eq!(sb_arr(root, "children").len(), 1);
    change_behavior_node_type(&mut s, &[0], BehaviorNodeType::Wait);
    let child = sb_elem(&sb_arr(sb_sub(sb_mob(&s), "behavior"), "children")[0]);
    assert_eq!(sb_type(child), "Wait");
    assert!(values_equal(child.get("seconds").unwrap(), &sb_float(1.0)));
    assert!(!child.contains_key("behaviors"));
    assert!(!child.contains_key("name"));
    change_behavior_node_type(&mut s, &[0], BehaviorNodeType::While);
    let child = sb_elem(&sb_arr(sb_sub(sb_mob(&s), "behavior"), "children")[0]);
    assert_eq!(sb_type(child), "While");
    assert!(!child.contains_key("seconds"));
    assert!(child.contains_key("child"));
    change_behavior_node_type(&mut s, &[], BehaviorNodeType::While);
    let root = sb_sub(sb_mob(&s), "behavior");
    assert!(!root.contains_key("children"));
    assert!(root.contains_key("child"));
}

#[test]
fn while_and_if_then_slots() {
    let mut s = sb_session(TomlTable::new());
    add_default_behavior_tree(&mut s);
    change_behavior_node_type(&mut s, &[], BehaviorNodeType::While);
    add_while_condition(&mut s, &[]);
    add_while_child(&mut s, &[]);
    let root = sb_sub(sb_mob(&s), "behavior");
    assert_eq!(sb_type(sb_sub(root, "condition")), "Wait");
    assert_eq!(sb_type(sb_sub(root, "child")), "Action");
    delete_behavior_node(&mut s, &[0]);
    assert!(!sb_sub(sb_mob(&s), "behavior").contains_key("condition"));
    delete_behavior_node(&mut s, &[1]);
    assert!(sb_sub(sb_mob(&s), "behavior").contains_key("child"));

    change_behavior_node_type(&mut s, &[], BehaviorNodeType::IfThen);
    add_if_then_condition(&mut s, &[]);
    add_if_then_child(&mut s, &[]);
    add_if_else_child(&mut s, &[]);
    let root = sb_sub(sb_mob(&s), "behavior");
    assert!(root.contains_key("condition"));
    assert!(root.contains_key("then_child"));
    assert!(root.contains_key("else_child"));
    assert_eq!(get_children_count(&s, &[]), 0);
    remove_if_else_child(&mut s, &[]);
    assert!(!sb_sub(sb_mob(&s), "behavior").contains_key("else_child"));
}

#[test]
fn action_behaviors_list() {
    let mut s = sb_session(TomlTable::new());
    add_default_behavior_tree(&mut s);
    add_action_behavior(&mut s, &[0]);
    change_action_behavior_type(&mut s, &[0], 1, "MoveUp");
    set_action_behavior_param(&mut s, &[0], 1, "speed", sb_float(2.0));
    move_action_behavior(&mut s, &[0], 1, -1);
    let action = sb_elem(&sb_arr(sb_sub(sb_mob(&s), "behavior"), "children")[0]);
    let list = sb_arr(action, "behaviors");
    assert!(matches!(sb_elem(&list[0]).get("action"), Some(TomlValue::String(a)) if a == "MoveUp"));
    assert!(values_equal(sb_elem(&list[0]).get("speed").unwrap(), &sb_float(2.0)));
    remove_action_behavior_param(&mut s, &[0], 0, "speed");
    delete_action_behavior(&mut s, &[0], 1);
    let action = sb_elem(&sb_arr(sb_sub(sb_mob(&s), "behavior"), "children")[0]);
    let list = sb_arr(action, "behaviors");
    assert_eq!(list.len(), 1);
    assert!(!sb_elem(&list[0]).contains_key("speed"));
}

#[test]
fn transmit_nested_behaviors() {
    let mut s = sb_session(TomlTable::new());
    add_default_behavior_tree(&mut s);
    change_action_behavior_type(&mut s, &[0], 0, "TransmitMobBehavior");
    add_transmit_nested_behavior(&mut s, &[0], 0);
    add_transmit_nested_behavior(&mut s, &[0], 0);
    change_transmit_nested_behavior_type(&mut s, &[0], 0, 1, "MoveLeft");
    set_transmit_nested_param(&mut s, &[0], 0, 1, "speed", sb_float(1.5));
    move_transmit_nested_behavior(&mut s, &[0], 0, 1, -1);
    delete_transmit_nested_behavior(&mut s, &[0], 0, 1);
    let action = sb_elem(&sb_arr(sb_sub(sb_mob(&s), "behavior"), "children")[0]);
    let outer = sb_elem(&sb_arr(action, "behaviors")[0]);
    let nested = sb_arr(outer, "behaviors");
    assert_eq!(nested.len(), 1);
    assert!(matches!(sb_elem(&nested[0]).get("action"), Some(TomlValue::String(a)) if a == "MoveLeft"));
}

#[test]
fn node_headers() {
    let action = sb_table(vec![("name", sb_str("Chase"))]);
    assert!(matches!(format_node_header(&action, Some(BehaviorNodeType::Action)), NodeHeader::Text(t) if t == "Action: Chase"));
    let unnamed = TomlTable::new();
    assert!(matches!(format_node_header(&unnamed, Some(BehaviorNodeType::Action)), NodeHeader::Text(t) if t == "Action"));
    let wait = sb_table(vec![("seconds", sb_float(2.5))]);
    assert!(matches!(format_node_header(&wait, Some(BehaviorNodeType::Wait)), NodeHeader::WaitSeconds(b) if b == 2.5f64.to_bits()));
    assert!(matches!(format_node_header(&unnamed, Some(BehaviorNodeType::Wait)), NodeHeader::WaitSeconds(b) if b == 1.0f64.to_bits()));
    assert!(matches!(format_node_header(&unnamed, Some(BehaviorNodeType::IfThen)), NodeHeader::Text(t) if t == "IfThen"));
    assert!(matches!(format_node_header(&unnamed, None), NodeHeader::Text(t) if t == "Unknown"));
}

#[test]
fn node_kinds_roundtrip() {
    for t in BehaviorNodeType::all() {
        assert_eq!(BehaviorNodeType::parse(t.as_str()), Some(t));
    }
    assert_eq!(BehaviorNodeType::parse("Loop"), None);
    assert!(BehaviorNodeType::Fallback.is_control_node());
    assert!(!BehaviorNodeType::While.is_control_node());
}

#[test]
fn set_node_field_at_path() {
    let mut s = sb_session(TomlTable::new());
    add_default_behavior_tree(&mut s);
    set_behavior_node_field(&mut s, &[0], "name", sb_str("Patrol"));
    let action = sb_elem(&sb_arr(sb_sub(sb_mob(&s), "behavior"), "children")[0]);
    assert!(matches!(action.get("name"), Some(TomlValue::String(n)) if n == "Patrol"));
    set_behavior_node_field(&mut s, &[5], "name", sb_str("Nowhere"));
    assert_eq!(get_children_count(&s, &[]), 1);
}
