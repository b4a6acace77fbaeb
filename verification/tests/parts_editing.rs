use mob_editor::colliders::{
    add_new_collider, delete_collider, new_collider, update_collider_circle_radius,
    update_collider_position, update_collider_rectangle_dims, update_collider_rotation,
};
use mob_editor::decorations::{
    add_new_decoration, delete_decoration, update_decoration_position, update_decoration_sprite,
};
use mob_editor::document::{values_equal, TomlTable, TomlValue};
use mob_editor::jointed::{
    add_angle_limit_to_jointed_mob, add_chain_to_jointed_mob, add_new_jointed_mob,
    add_random_chain_to_jointed_mob, delete_jointed_mob, remove_jointed_mob_field,
    remove_jointed_nested_field, set_jointed_deep_nested_field, set_jointed_mob_field,
    set_jointed_mob_vec2, set_jointed_nested_field, set_jointed_nested_vec2,
};
use mob_editor::session::EditorSession;

fn pe_float(x: f64) -> TomlValue {
    TomlValue::Float(x.to_bits())
}

fn pe_vec2(x: f64, y: f64) -> TomlValue {
    TomlValue::Array(vec![pe_float(x), pe_float(y)])
}

fn pe_table(entries: Vec<(&str, TomlValue)>) -> TomlTable {
    let mut t = TomlTable::new();
    for (k, v) in entries {
        t.insert(k.to_string(), v);
    }
    t
}

fn pe_session(current: TomlTable) -> EditorSession {
    EditorSession { current_mob: Some(TomlValue::Table(current)), original_mob: None }
}

fn pe_mob(s: &EditorSession) -> &TomlTable {
    match &s.current_mob {
        Some(TomlValue::Table(t)) => t,
        _ => panic!("no mob table"),
    }
}

fn pe_array<'a>(t: &'a TomlTable, key: &str) -> &'a Vec<TomlValue> {
    match t.get(key) {
        Some(TomlValue::Array(a)) => a,
        _ => panic!("no array under {key}"),
    }
}

fn pe_sub<'a>(v: &'a TomlValue) -> &'a TomlTable {
    match v {
        TomlValue::Table(t) => t,
        _ => panic!("not a table"),
    }
}

#[test]
fn new_colliders_by_shape() {
    let circle = new_collider("Circle");
    let shape = pe_sub(pe_sub(&circle).get("shape").unwrap());
    assert!(values_equal(shape.get("Circle").unwrap(), &pe_float(10.0)));
    let rect = new_collider("Rectangle");
    let shape = pe_sub(pe_sub(&rect).get("shape").unwrap());
    assert!(values_equal(shape.get("Rectangle").unwrap(), &pe_vec2(20.0, 20.0)));
    let other = new_collider("Triangle");
    assert!(pe_sub(pe_sub(&other).get("shape").unwrap()).contains_key("Rectangle"));
    assert!(values_equal(pe_sub(&circle).get("position").unwrap(), &pe_vec2(0.0, 0.0)));
    assert!(values_equal(pe_sub(&circle).get("rotation").unwrap(), &pe_float(0.0)));
}

#[test]
fn collider_add_update_delete() {
    let mut s = pe_session(pe_table(vec![]));
    add_new_collider(&mut s, "Circle");
    add_new_collider(&mut s, "Rectangle");
    assert_eq!(pe_array(pe_mob(&s), "colliders").len(), 2);
    update_collider_circle_radius(&mut s, 0, 4.5f64.to_bits());
    update_collider_rectangle_dims(&mut s, 1, 3.0f64.to_bits(), 7.0f64.to_bits());
    update_collider_position(&mut s, 1, 1.0f64.to_bits(), (-2.0f64).to_bits());
    update_collider_rotation(&mut s, 0, 90.0f64.to_bits());
    let cols = pe_array(pe_mob(&s), "colliders");
    let c0 = pe_sub(&cols[0]);
    assert!(values_equal(pe_sub(c0.get("shape").unwrap()).get("Circle").unwrap(), &pe_float(4.5)));
    assert!(values_equal(c0.get("rotation").unwrap(), &pe_float(90.0)));
    let c1 = pe_sub(&cols[1]);
    assert!(values_equal(
        pe_sub(c1.get("shape").unwrap()).get("Rectangle").unwrap(),
        &pe_vec2(3.0, 7.0)
    ));
    assert!(values_equal(c1.get("position").unwrap(), &pe_vec2(1.0, -2.0)));
    delete_collider(&mut s, 0);
    assert_eq!(pe_array(pe_mob(&s), "colliders").len(), 1);
    delete_collider(&mut s, 5);
    assert_eq!(pe_array(pe_mob(&s), "colliders").len(), 1);
    delete_collider(&mut s, 0);
    assert!(!pe_mob(&s).contains_key("colliders"));
}

#[test]
fn collider_add_then_delete_restores() {
    let start = pe_table(vec![("name", TomlValue::String("m".to_string()))]);
    let mut s = pe_session(start);
    add_new_collider(&mut s, "Circle");
    delete_collider(&mut s, 0);
    let expected = TomlValue::Table(pe_table(vec![("name", TomlValue::String("m".to_string()))]));
    assert!(values_equal(s.current_mob.as_ref().unwrap(), &expected));
}

#[test]
fn decoration_add_update_delete() {
    let mut s = pe_session(pe_table(vec![]));
    add_new_decoration(&mut s, "media/aseprite/a.aseprite".to_string());
    update_decoration_sprite(&mut s, 0, "extended://b.aseprite");
    update_decoration_position(&mut s, 0, 3.0f64.to_bits(), 4.0f64.to_bits());
    let decs = pe_array(pe_mob(&s), "decorations");
    match &decs[0] {
        TomlValue::Array(d) => {
            assert!(matches!(&d[0], TomlValue::String(p) if p == "extended://b.aseprite"));
            assert!(values_equal(&d[1], &pe_vec2(3.0, 4.0)));
        }
        _ => panic!("decoration is not an array"),
    }
    delete_decoration(&mut s, 0);
    assert!(!pe_mob(&s).contains_key("decorations"));
}

#[test]
fn decoration_update_out_of_range_changes_nothing() {
    let mut s = pe_session(pe_table(vec![]));
    update_decoration_sprite(&mut s, 0, "x");
    assert!(!pe_mob(&s).contains_key("decorations"));
}

#[test]
fn jointed_mob_lifecycle() {
    let mut s = pe_session(pe_table(vec![]));
    add_new_jointed_mob(&mut s);
    add_new_jointed_mob(&mut s);
    let joints = pe_array(pe_mob(&s), "jointed_mobs");
    assert_eq!(joints.len(), 2);
    assert!(matches!(pe_sub(&joints[0]).get("key"), Some(TomlValue::String(k)) if k == "joint_0"));
    assert!(matches!(pe_sub(&joints[1]).get("key"), Some(TomlValue::String(k)) if k == "joint_1"));
    assert!(values_equal(pe_sub(&joints[0]).get("offset_pos").unwrap(), &pe_vec2(0.0, -10.0)));
    assert!(values_equal(pe_sub(&joints[0]).get("compliance").unwrap(), &pe_float(0.000001)));

    set_jointed_mob_field(&mut s, 0, "mob_ref", TomlValue::String("xhitara/tail".to_string()));
    set_jointed_mob_vec2(&mut s, 0, "anchor_1_pos", 1.0f64.to_bits(), 2.0f64.to_bits());
    remove_jointed_mob_field(&mut s, 1, "compliance");
    add_angle_limit_to_jointed_mob(&mut s, 0);
    set_jointed_nested_field(&mut s, 0, "angle_limit_range", "min", pe_float(-30.0));
    add_chain_to_jointed_mob(&mut s, 0);
    set_jointed_nested_vec2(&mut s, 0, "chain", "pos_offset", 0.0f64.to_bits(), (-8.0f64).to_bits());
    add_random_chain_to_jointed_mob(&mut s, 0);
    set_jointed_deep_nested_field(&mut s, 0, "chain", "random_chain", "min_length", TomlValue::Integer(2));
    remove_jointed_nested_field(&mut s, 0, "angle_limit_range", "torque");

    let joints = pe_array(pe_mob(&s), "jointed_mobs");
    let j0 = pe_sub(&joints[0]);
    assert!(matches!(j0.get("mob_ref"), Some(TomlValue::String(m)) if m == "xhitara/tail"));
    assert!(values_equal(j0.get("anchor_1_pos").unwrap(), &pe_vec2(1.0, 2.0)));
    let limit = pe_sub(j0.get("angle_limit_range").unwrap());
    assert!(values_equal(limit.get("min").unwrap(), &pe_float(-30.0)));
    assert!(values_equal(limit.get("max").unwrap(), &pe_float(45.0)));
    assert!(!limit.contains_key("torque"));
    let chain = pe_sub(j0.get("chain").unwrap());
    assert!(matches!(chain.get("length"), Some(TomlValue::Integer(3))));
    assert!(values_equal(chain.get("pos_offset").unwrap(), &pe_vec2(0.0, -8.0)));
    let random = pe_sub(chain.get("random_chain").unwrap());
    assert!(matches!(random.get("min_length"), Some(TomlValue::Integer(2))));
    assert!(values_equal(random.get("end_chance").unwrap(), &pe_float(0.15)));
    assert!(!pe_sub(&joints[1]).contains_key("compliance"));

    delete_jointed_mob(&mut s, 0);
    delete_jointed_mob(&mut s, 0);
    assert!(!pe_mob(&s).contains_key("jointed_mobs"));
}
