use mob_editor::document::{str_eq, values_equal, TomlTable, TomlValue};
use mob_editor::session::{
    original_has_field, remove_field, set_field, set_field_with_default,
    set_vec2_field_with_default, EditorSession,
};

fn ds_str(x: &str) -> TomlValue {
    TomlValue::String(x.to_string())
}

fn ds_float(x: f64) -> TomlValue {
    TomlValue::Float(x.to_bits())
}

fn ds_table(entries: Vec<(&str, TomlValue)>) -> TomlTable {
    let mut t = TomlTable::new();
    for (k, v) in entries {
        t.insert(k.to_string(), v);
    }
    t
}

fn ds_session(current: TomlTable, original: Option<TomlTable>) -> EditorSession {
    EditorSession {
        current_mob: Some(TomlValue::Table(current)),
        original_mob: original.map(TomlValue::Table),
    }
}

fn ds_mob(s: &EditorSession) -> &TomlTable {
    match &s.current_mob {
        Some(TomlValue::Table(t)) => t,
        _ => panic!("no mob table"),
    }
}

fn ds_vec2(x: f64, y: f64) -> TomlValue {
    TomlValue::Array(vec![ds_float(x), ds_float(y)])
}

#[test]
fn table_insert_get_remove() {
    let mut t = TomlTable::new();
    assert!(t.is_empty());
    assert!(t.insert("a".to_string(), TomlValue::Integer(1)).is_none());
    assert!(t.insert("b".to_string(), TomlValue::Integer(2)).is_none());
    let old = t.insert("a".to_string(), TomlValue::Integer(3));
    assert!(matches!(old, Some(TomlValue::Integer(1))));
    assert_eq!(t.len(), 2);
    assert!(matches!(t.get("a"), Some(TomlValue::Integer(3))));
    assert!(t.contains_key("b"));
    assert!(matches!(t.remove("b"), Some(TomlValue::Integer(2))));
    assert!(!t.contains_key("b"));
    assert!(t.get("b").is_none());
    assert!(t.remove("b").is_none());
    assert_eq!(t.len(), 1);
}

#[test]
fn table_take_array_and_table() {
    let mut t = ds_table(vec![
        ("list", TomlValue::Array(vec![TomlValue::Integer(7)])),
        ("inner", TomlValue::Table(ds_table(vec![("x", TomlValue::Boolean(true))]))),
        ("text", ds_str("hi")),
    ]);
    assert!(t.take_array("text").is_none());
    assert!(t.contains_key("text"));
    let a = t.take_array("list").unwrap();
    assert_eq!(a.len(), 1);
    assert!(!t.contains_key("list"));
    let inner = t.take_table("inner").unwrap();
    assert!(matches!(inner.get("x"), Some(TomlValue::Boolean(true))));
    assert!(!t.contains_key("inner"));
    assert!(t.take_table("missing").is_none());
}

#[test]
fn values_compare_structurally() {
    let a = ds_table(vec![("x", TomlValue::Integer(1)), ("y", ds_str("z"))]);
    let b = ds_table(vec![("y", ds_str("z")), ("x", TomlValue::Integer(1))]);
    assert!(values_equal(&TomlValue::Table(a), &TomlValue::Table(b)));
    assert!(!values_equal(&ds_float(1.0), &ds_float(2.0)));
    assert!(values_equal(&ds_vec2(1.0, 2.0), &ds_vec2(1.0, 2.0)));
    assert!(!values_equal(&ds_vec2(1.0, 2.0), &ds_vec2(2.0, 1.0)));
    assert!(!values_equal(&TomlValue::Integer(1), &ds_float(1.0)));
    assert!(str_eq("héllo", "héllo"));
    assert!(!str_eq("hello", "hell"));
}

#[test]
fn set_and_remove_top_level_fields() {
    let mut s = ds_session(ds_table(vec![("name", ds_str("Old"))]), None);
    set_field(&mut s, "name", ds_str("New"));
    assert!(matches!(ds_mob(&s).get("name"), Some(TomlValue::String(n)) if n == "New"));
    remove_field(&mut s, "name");
    assert!(!ds_mob(&s).contains_key("name"));
}

#[test]
fn field_edits_without_mob_do_nothing() {
    let mut s = EditorSession { current_mob: None, original_mob: None };
    set_field(&mut s, "name", ds_str("New"));
    assert!(s.current_mob.is_none());
    let mut s2 = EditorSession { current_mob: Some(TomlValue::Integer(3)), original_mob: None };
    remove_field(&mut s2, "name");
    assert!(matches!(s2.current_mob, Some(TomlValue::Integer(3))));
}

#[test]
fn default_value_stays_out_of_new_fields() {
    let mut s = ds_session(ds_table(vec![("spawnable", TomlValue::Boolean(false))]), None);
    set_field_with_default(&mut s, "spawnable", TomlValue::Boolean(true), TomlValue::Boolean(true));
    assert!(!ds_mob(&s).contains_key("spawnable"));
    set_field_with_default(&mut s, "spawnable", TomlValue::Boolean(false), TomlValue::Boolean(true));
    assert!(matches!(ds_mob(&s).get("spawnable"), Some(TomlValue::Boolean(false))));
}

#[test]
fn default_value_kept_when_original_has_field() {
    let original = ds_table(vec![("z_level", ds_float(3.0))]);
    let mut s = ds_session(ds_table(vec![("z_level", ds_float(3.0))]), Some(original));
    assert!(original_has_field(&s, "z_level"));
    assert!(!original_has_field(&s, "health"));
    set_field_with_default(&mut s, "z_level", ds_float(0.0), ds_float(0.0));
    assert!(values_equal(ds_mob(&s).get("z_level").unwrap(), &ds_float(0.0)));
}

#[test]
fn vec2_field_with_default() {
    let mut s = ds_session(ds_table(vec![]), None);
    set_vec2_field_with_default(
        &mut s,
        "max_linear_speed",
        2.0f64.to_bits(),
        3.0f64.to_bits(),
        2.0f64.to_bits(),
        3.0f64.to_bits(),
    );
    assert!(!ds_mob(&s).contains_key("max_linear_speed"));
    set_vec2_field_with_default(
        &mut s,
        "max_linear_speed",
        4.0f64.to_bits(),
        3.0f64.to_bits(),
        2.0f64.to_bits(),
        3.0f64.to_bits(),
    );
    assert!(values_equal(ds_mob(&s).get("max_linear_speed").unwrap(), &ds_vec2(4.0, 3.0)));
}

#[test]
fn reset_after_change_equals_reset() {
    let mut a = ds_session(ds_table(vec![("health", TomlValue::Integer(10))]), None);
    let mut b = ds_session(ds_table(vec![("health", TomlValue::Integer(10))]), None);
    set_field(&mut a, "health", TomlValue::Integer(50));
    remove_field(&mut a, "health");
    remove_field(&mut b, "health");
    assert!(values_equal(a.current_mob.as_ref().unwrap(), b.current_mob.as_ref().unwrap()));
}
