use mob_editor::document::{clone_value, values_equal, TomlTable, TomlValue};
use mob_editor::sections::{
    bool_or, collider_shape, float_or, int_or, is_section_patched, override_section,
    reset_section, section_editable, selection_after_delete, sorted_keys, str_or_empty,
    toggle_selection, ColliderShape,
};
use mob_editor::session::EditorSession;
use mob_editor::sprites::browser_asset_path;

fn sp_table(entries: Vec<(&str, TomlValue)>) -> TomlTable {
    let mut t = TomlTable::new();
    for (k, v) in entries {
        t.insert(k.to_string(), v);
    }
    t
}

fn sp_float(x: f64) -> TomlValue {
    TomlValue::Float(x.to_bits())
}

fn sp_mob(s: &EditorSession) -> &TomlTable {
    match &s.current_mob {
        Some(TomlValue::Table(t)) => t,
        _ => panic!("no mob table"),
    }
}

#[test]
fn deep_copies_are_equal() {
    let inner = sp_table(vec![("r", sp_float(2.0)), ("name", TomlValue::String("x".to_string()))]);
    let v = TomlValue::Array(vec![TomlValue::Table(inner), TomlValue::Integer(4)]);
    let c = clone_value(&v);
    assert!(values_equal(&v, &c));
}

#[test]
fn table_keys_in_order() {
    let t = sp_table(vec![
        ("spawner_west", TomlValue::Boolean(true)),
        ("spawner_east", TomlValue::Boolean(true)),
        ("a", TomlValue::Boolean(true)),
    ]);
    assert_eq!(t.keys().len(), 3);
    assert_eq!(sorted_keys(&t), vec!["a", "spawner_east", "spawner_west"]);
}

#[test]
fn section_patch_state() {
    let patch = sp_table(vec![("colliders", TomlValue::Array(vec![]))]);
    assert!(is_section_patched(true, &patch, "colliders"));
    assert!(!is_section_patched(true, &patch, "decorations"));
    assert!(!is_section_patched(false, &patch, "colliders"));
    assert!(section_editable(false, false));
    assert!(!section_editable(true, false));
    assert!(section_editable(true, true));
}

#[test]
fn override_and_reset_sections() {
    let display = sp_table(vec![(
        "colliders",
        TomlValue::Array(vec![TomlValue::Table(sp_table(vec![("rotation", sp_float(0.0))]))]),
    )]);
    let mut s = EditorSession { current_mob: Some(TomlValue::Table(TomlTable::new())), original_mob: None };
    assert!(override_section(&mut s, &display, "colliders", false));
    assert!(values_equal(sp_mob(&s).get("colliders").unwrap(), display.get("colliders").unwrap()));
    assert!(!override_section(&mut s, &display, "behavior", false));
    assert!(!sp_mob(&s).contains_key("behavior"));
    assert!(override_section(&mut s, &display, "decorations", true));
    assert!(matches!(sp_mob(&s).get("decorations"), Some(TomlValue::Array(a)) if a.is_empty()));
    assert!(reset_section(&mut s, "colliders"));
    assert!(!sp_mob(&s).contains_key("colliders"));
    let mut none = EditorSession { current_mob: None, original_mob: None };
    assert!(!override_section(&mut none, &display, "colliders", true));
    assert!(!reset_section(&mut none, "colliders"));
}

#[test]
fn readers_with_defaults() {
    let t = sp_table(vec![
        ("timer", sp_float(2.0)),
        ("count", TomlValue::Integer(4)),
        ("spawnable", TomlValue::Boolean(false)),
        ("name", TomlValue::String("Grunt".to_string())),
    ]);
    assert_eq!(float_or(&t, "timer", 1.0f64.to_bits()), 2.0f64.to_bits());
    assert_eq!(float_or(&t, "count", 1.0f64.to_bits()), 1.0f64.to_bits());
    assert_eq!(int_or(&t, "count", 0), 4);
    assert_eq!(int_or(&t, "missing", 7), 7);
    assert!(!bool_or(&t, "spawnable", true));
    assert!(bool_or(&t, "name", true));
    assert_eq!(str_or_empty(&t, "name"), "Grunt");
    assert_eq!(str_or_empty(&t, "timer"), "");
}

#[test]
fn collider_shapes() {
    let circle = sp_table(vec![("shape", TomlValue::Table(sp_table(vec![("Circle", sp_float(6.0))])))]);
    assert_eq!(collider_shape(&circle), ColliderShape::Circle(6.0f64.to_bits()));
    let rect = sp_table(vec![(
        "shape",
        TomlValue::Table(sp_table(vec![("Rectangle", TomlValue::Array(vec![sp_float(4.0)]))])),
    )]);
    assert_eq!(collider_shape(&rect), ColliderShape::Rectangle(4.0f64.to_bits(), 10.0f64.to_bits()));
    assert_eq!(collider_shape(&TomlTable::new()), ColliderShape::Unknown);
}

#[test]
fn selections_follow_deletes() {
    assert_eq!(selection_after_delete(Some(2), 2), None);
    assert_eq!(selection_after_delete(Some(3), 1), Some(2));
    assert_eq!(selection_after_delete(Some(0), 1), Some(0));
    assert_eq!(selection_after_delete(None, 1), None);
    assert_eq!(toggle_selection(Some(1), 1), None);
    assert_eq!(toggle_selection(Some(1), 2), Some(2));
    assert_eq!(toggle_selection(None, 0), Some(0));
}

#[test]
fn browser_asset_paths() {
    let folders = vec!["media".to_string(), "aseprite".to_string()];
    assert_eq!(browser_asset_path(&folders, "grunt.aseprite"), "media/aseprite/grunt.aseprite");
    assert_eq!(browser_asset_path(&Vec::new(), "grunt.aseprite"), "grunt.aseprite");
}
