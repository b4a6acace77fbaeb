use mob_editor::document::{values_equal, TomlTable, TomlValue};
use mob_editor::fields::FieldResult;
use mob_editor::properties::{apply_property_result, property_default, property_key, PropertyField};
use mob_editor::sections::get_display_tables;
use mob_editor::session::EditorSession;

fn pt_table(entries: Vec<(&str, TomlValue)>) -> TomlTable {
    let mut t = TomlTable::new();
    for (k, v) in entries {
        t.insert(k.to_string(), v);
    }
    t
}

fn pt_mob(s: &EditorSession) -> &TomlTable {
    match &s.current_mob {
        Some(TomlValue::Table(t)) => t,
        _ => panic!("no mob table"),
    }
}

#[test]
fn property_keys_and_defaults() {
    assert_eq!(property_key(PropertyField::CollisionDamage), "collision_damage");
    assert!(property_default(PropertyField::Name).is_none());
    assert!(matches!(property_default(PropertyField::Health), Some(TomlValue::Integer(100))));
    assert!(matches!(property_default(PropertyField::Spawnable), Some(TomlValue::Boolean(true))));
    let speed = property_default(PropertyField::MaxLinearSpeed).unwrap();
    let expected = TomlValue::Array(vec![TomlValue::Float(50.0f64.to_bits()), TomlValue::Float(50.0f64.to_bits())]);
    assert!(values_equal(&speed, &expected));
    let accel = property_default(PropertyField::LinearAcceleration).unwrap();
    let expected = TomlValue::Array(vec![TomlValue::Float(100.0f64.to_bits()), TomlValue::Float(100.0f64.to_bits())]);
    assert!(values_equal(&accel, &expected));
    assert!(matches!(property_default(PropertyField::ProjectileSpeed), Some(TomlValue::Float(b)) if b == 150.0f64.to_bits()));
    assert!(matches!(property_default(PropertyField::ZLevel), Some(TomlValue::Float(b)) if b == 0.0f64.to_bits()));
}

#[test]
fn property_results_apply() {
    let mut s = EditorSession { current_mob: Some(TomlValue::Table(TomlTable::new())), original_mob: None };
    assert!(apply_property_result(&mut s, PropertyField::Health, FieldResult::Changed(TomlValue::Integer(100))));
    assert!(!pt_mob(&s).contains_key("health"));
    assert!(apply_property_result(&mut s, PropertyField::Health, FieldResult::Changed(TomlValue::Integer(80))));
    assert!(matches!(pt_mob(&s).get("health"), Some(TomlValue::Integer(80))));
    assert!(apply_property_result(&mut s, PropertyField::Name, FieldResult::Changed(TomlValue::String("Grunt".to_string()))));
    assert!(pt_mob(&s).contains_key("name"));
    assert!(!apply_property_result(&mut s, PropertyField::Name, FieldResult::NoChange));
    assert!(apply_property_result(&mut s, PropertyField::Health, FieldResult::Reset));
    assert!(!pt_mob(&s).contains_key("health"));
}

#[test]
fn display_tables_for_mobs_and_patches() {
    let s = EditorSession {
        current_mob: Some(TomlValue::Table(pt_table(vec![("health", TomlValue::Integer(5))]))),
        original_mob: None,
    };
    let (d, p) = get_display_tables(&s, false, None).unwrap();
    assert!(d.contains_key("health") && p.contains_key("health"));
    let merged = TomlValue::Table(pt_table(vec![
        ("health", TomlValue::Integer(5)),
        ("name", TomlValue::String("Base".to_string())),
    ]));
    let (d, p) = get_display_tables(&s, true, Some(&merged)).unwrap();
    assert!(d.contains_key("name") && !p.contains_key("name"));
    let (d, _) = get_display_tables(&s, true, None).unwrap();
    assert!(!d.contains_key("name"));
    assert!(get_display_tables(&s, true, Some(&TomlValue::Integer(1))).is_none());
    let none = EditorSession { current_mob: None, original_mob: None };
    assert!(get_display_tables(&none, false, None).is_none());
}
