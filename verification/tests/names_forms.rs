use mob_editor::dialogs::{
    DeleteDialogState, DeleteDirectoryDialogState, NewFolderDialog, NewMobDialog, UnsavedAction,
    UnsavedChangesDialog,
};
use mob_editor::document::{values_equal, TomlTable, TomlValue};
use mob_editor::fields::{
    apply_field_result, apply_spawner_field_result, set_vec2_value, vec2_components, FieldResult,
    Number, PropertiesPanelResult,
};
use mob_editor::forms::{
    click_file, create_new_mob, filename_to_display_name, folder_name_valid, folder_to_create,
    has_invalid_folder_chars, has_invalid_mob_name_chars, is_mob_file_name,
    is_root_directory_name, last_path_segment, mob_name_valid, mob_ref_from_path,
    new_mob_request, new_patch_request, open_file_from_menu, open_patch_dialog_for_file,
    patch_selection_valid, resolve_delete_dialog, resolve_delete_directory_dialog,
    resolve_unsaved_changes, unsaved_dialog_is_exit, ConfirmChoice, UnsavedChoice,
};
use mob_editor::names::{sort_names, str_le, truncate_filename, truncate_log_text, truncate_path_display};
use mob_editor::session::EditorSession;
use mob_editor::sprites::{
    apply_sprite_choice, browser_sprite_paths, display_name_from_stem, split_sprite_path,
    sprite_display_name,
    sprite_is_selected, use_sprite, with_extended_prefix,
};
use mob_editor::text::{concat_str, push_decimal};

fn nf_session() -> EditorSession {
    EditorSession { current_mob: Some(TomlValue::Table(TomlTable::new())), original_mob: None }
}

fn nf_mob(s: &EditorSession) -> &TomlTable {
    match &s.current_mob {
        Some(TomlValue::Table(t)) => t,
        _ => panic!("no mob table"),
    }
}

#[test]
fn filenames_truncate_keeping_extension() {
    assert_eq!(truncate_filename("short.mob", 28), "short.mob");
    assert_eq!(
        truncate_filename("a_really_long_mob_file_name_here.mob", 28),
        "a_really_long_mob_file...mob"
    );
    assert_eq!(truncate_filename("abcdefghijklmnop", 10), "abcdefg...");
    assert_eq!(truncate_filename("abcdefghij.longextension", 10), "abcdefg...");
    assert_eq!(truncate_filename("abc", 2), "...");
}

#[test]
fn status_bar_texts() {
    let short = "Saved file";
    assert_eq!(truncate_log_text(short), short);
    let long = "x".repeat(70);
    let t = truncate_log_text(&long);
    assert_eq!(t, format!("{}...", "x".repeat(57)));
    let path = "assets/mobs/xhitara/very/deep/folder/structure/spitter.mob";
    let p = truncate_path_display(path);
    assert_eq!(p, format!("...{}", &path[path.len() - 37..]));
    assert_eq!(truncate_path_display("assets/mobs/a.mob"), "assets/mobs/a.mob");
}

#[test]
fn names_sort_in_byte_order() {
    let sorted = sort_names(vec![
        "b.mob".to_string(),
        "A.mob".to_string(),
        "a/c.mob".to_string(),
        "a.mob".to_string(),
        "b.mob".to_string(),
    ]);
    assert_eq!(sorted, vec!["A.mob", "a.mob", "a/c.mob", "b.mob", "b.mob"]);
    assert!(str_le("abc", "abd"));
    assert!(str_le("ab", "abc"));
    assert!(!str_le("b", "abc"));
}

#[test]
fn display_names_in_title_case() {
    assert_eq!(filename_to_display_name("my_new_mob"), "My New Mob");
    assert_eq!(filename_to_display_name("spitter-boss"), "Spitter Boss");
    assert_eq!(filename_to_display_name("a__b"), "A  B");
    assert_eq!(filename_to_display_name(""), "");
    assert_eq!(filename_to_display_name("ärger_x"), "Ärger X");
    assert_eq!(last_path_segment("xhitara/spitter"), "spitter");
    assert_eq!(last_path_segment("spitter"), "spitter");
    assert_eq!(last_path_segment("xhitara/"), "");
}

#[test]
fn dialog_name_checks() {
    assert!(has_invalid_folder_chars("a/b"));
    assert!(!has_invalid_folder_chars("a.b"));
    assert!(has_invalid_mob_name_chars("a.b"));
    assert!(!has_invalid_mob_name_chars("good_name"));
    assert!(folder_name_valid(" enemies "));
    assert!(!folder_name_valid("   "));
    assert!(!folder_name_valid("a|b"));
    assert!(mob_name_valid("grunt"));
    assert!(!mob_name_valid("grunt.mob"));
    assert_eq!(folder_to_create("  new folder\t"), Some("new folder".to_string()));
    assert_eq!(folder_to_create(" \n "), None);
}

#[test]
fn new_mob_and_patch_requests() {
    let r = new_mob_request("  my_new_mob ").unwrap();
    assert_eq!(r.file_name, "my_new_mob.mob");
    assert_eq!(r.display_name, "My New Mob");
    assert!(!r.is_patch);
    assert!(new_mob_request("   ").is_none());
    let p = new_patch_request("xhitara/spitter_boss");
    assert_eq!(p.file_name, "xhitara/spitter_boss.mobpatch");
    assert_eq!(p.display_name, "Spitter Boss");
    assert!(p.is_patch);
    let existing = vec!["xhitara/spitter".to_string()];
    assert!(!patch_selection_valid(&Some("xhitara/spitter".to_string()), &existing));
    assert!(patch_selection_valid(&Some("xhitara/grunt".to_string()), &existing));
    assert!(!patch_selection_valid(&None, &existing));
}

#[test]
fn file_tree_names_and_refs() {
    assert!(is_mob_file_name("spitter.mob"));
    assert!(!is_mob_file_name("spitter.mobpatch"));
    assert!(is_root_directory_name("base"));
    assert!(is_root_directory_name("extended"));
    assert!(!is_root_directory_name("bases"));
    assert_eq!(
        mob_ref_from_path("assets/mobs/xhitara/spitter.mob"),
        Some("xhitara/spitter".to_string())
    );
    assert_eq!(mob_ref_from_path("assets/mobs/xhitara/spitter.mobpatch"), None);
    assert_eq!(mob_ref_from_path("assets/other/spitter.mob"), None);
}

#[test]
fn patch_dialog_from_file_menu() {
    let mut d = NewMobDialog::default();
    open_patch_dialog_for_file(&mut d, "assets/mobs/xhitara/spitter.mob");
    assert!(d.is_open && d.is_patch);
    assert_eq!(d.selected_mob_ref, Some("xhitara/spitter".to_string()));
    let mut d2 = NewMobDialog::default();
    d2.error_message = Some("old".to_string());
    open_patch_dialog_for_file(&mut d2, "elsewhere/spitter.mob");
    assert!(d2.is_open && d2.is_patch);
    assert_eq!(d2.selected_mob_ref, None);
    assert_eq!(d2.error_message, None);
}

#[test]
fn clicking_files() {
    let current = Some("a.mob".to_string());
    let mut d = UnsavedChangesDialog::default();
    let mut selected = None;
    assert_eq!(click_file(&current, true, "a.mob", &mut selected, &mut d), None);
    assert_eq!(selected, Some("a.mob".to_string()));
    assert!(!d.is_open);
    assert_eq!(click_file(&current, false, "b.mob", &mut selected, &mut d), Some("b.mob".to_string()));
    assert_eq!(selected, Some("b.mob".to_string()));
    assert!(!d.is_open);
    assert_eq!(click_file(&current, true, "b.mob", &mut selected, &mut d), None);
    assert!(d.is_open);
    assert!(matches!(&d.pending_action, Some(UnsavedAction::LoadFile(p)) if p == "b.mob"));
    let mut d2 = UnsavedChangesDialog::default();
    assert_eq!(open_file_from_menu(&current, true, "a.mob", &mut d2), Some("a.mob".to_string()));
    assert_eq!(open_file_from_menu(&current, true, "c.mob", &mut d2), None);
    assert!(d2.is_open);
}

#[test]
fn unsaved_changes_choices() {
    let mut d = UnsavedChangesDialog::default();
    d.open(UnsavedAction::LoadFile("b.mob".to_string()));
    assert!(!unsaved_dialog_is_exit(&d));
    let none = resolve_unsaved_changes(&mut d, None);
    assert!(d.is_open && !none.save && none.load.is_none());
    let r = resolve_unsaved_changes(&mut d, Some(UnsavedChoice::SaveAndContinue));
    assert!(r.save && !r.exit_after_save && !r.exit);
    assert_eq!(r.load, Some("b.mob".to_string()));
    assert!(!d.is_open && d.pending_action.is_none());

    d.open(UnsavedAction::Exit);
    assert!(unsaved_dialog_is_exit(&d));
    let r = resolve_unsaved_changes(&mut d, Some(UnsavedChoice::SaveAndContinue));
    assert!(r.save && r.exit_after_save && !r.exit && r.load.is_none());

    d.open(UnsavedAction::Exit);
    let r = resolve_unsaved_changes(&mut d, Some(UnsavedChoice::Discard));
    assert!(!r.save && r.exit);

    d.open(UnsavedAction::LoadFile("c.mob".to_string()));
    let r = resolve_unsaved_changes(&mut d, Some(UnsavedChoice::Cancel));
    assert!(!r.save && !r.exit && r.load.is_none() && !d.is_open);

    let closed = resolve_unsaved_changes(&mut d, Some(UnsavedChoice::Discard));
    assert!(!closed.exit && closed.load.is_none());
}

#[test]
fn dialog_states_open_and_close() {
    let mut del = DeleteDialogState::default();
    del.open("base/a.mob".to_string(), "a.mob".to_string());
    assert!(del.is_open);
    del.close();
    assert!(!del.is_open);
    assert_eq!(del.file_name, "a.mob");

    let mut dir = DeleteDirectoryDialogState::default();
    dir.open(
        "base/x".to_string(),
        "x".to_string(),
        vec!["sub/b.mob".to_string(), "a.mob".to_string()],
    );
    assert_eq!(dir.contained_files, vec!["a.mob", "sub/b.mob"]);
    dir.close();
    assert!(!dir.is_open && dir.contained_files.is_empty());

    let mut folder = NewFolderDialog::default();
    folder.open("base".to_string());
    folder.folder_name = "new".to_string();
    folder.close();
    assert!(!folder.is_open && folder.folder_name.is_empty());

    let mut mob = NewMobDialog::default();
    mob.open_mob("base/xhitara".to_string());
    assert!(mob.is_open && !mob.is_patch);
    mob.open_patch();
    assert!(mob.is_patch && mob.parent_path.is_empty());
    mob.open_patch_for_mob("xhitara/grunt".to_string());
    assert_eq!(mob.selected_mob_ref, Some("xhitara/grunt".to_string()));
    mob.close();
    assert!(!mob.is_open && mob.selected_mob_ref.is_none());
}

#[test]
fn sprite_paths() {
    let (ext, path) = split_sprite_path("extended://media/a.aseprite");
    assert!(ext);
    assert_eq!(path, "media/a.aseprite");
    let (ext, path) = split_sprite_path("media/a.aseprite");
    assert!(!ext);
    assert_eq!(path, "media/a.aseprite");
    assert_eq!(with_extended_prefix("x.png"), "extended://x.png");
    assert!(sprite_is_selected("extended://x.png", "x.png", true));
    assert!(!sprite_is_selected("extended://x.png", "x.png", false));
    assert!(sprite_is_selected("x.png", "x.png", false));
    let (mob_path, check) = browser_sprite_paths("x.png", true, false, false);
    assert_eq!(mob_path, "x.png");
    assert_eq!(check, "extended://x.png");
    let (mob_path, _) = browser_sprite_paths("x.png", true, true, false);
    assert_eq!(mob_path, "extended://x.png");
    let (mob_path, check) = browser_sprite_paths("x.png", false, true, true);
    assert_eq!(mob_path, "x.png");
    assert_eq!(check, "x.png");
    assert_eq!(sprite_display_name("media/aseprite/spitter.aseprite"), "spitter");
    assert_eq!(sprite_display_name("extended://media/boss.png"), "boss");
}

#[test]
fn sprite_choices_edit_the_mob() {
    let mut s = nf_session();
    assert!(!apply_sprite_choice(&mut s, "", ""));
    assert!(apply_sprite_choice(&mut s, "", "a.png"));
    assert!(matches!(nf_mob(&s).get("sprite"), Some(TomlValue::String(p)) if p == "a.png"));
    assert!(apply_sprite_choice(&mut s, "a.png", ""));
    assert!(!nf_mob(&s).contains_key("sprite"));
    assert!(use_sprite(&mut s, "extended://b.png"));
    assert!(matches!(nf_mob(&s).get("sprite"), Some(TomlValue::String(p)) if p == "extended://b.png"));
    let mut empty = EditorSession { current_mob: None, original_mob: None };
    assert!(!use_sprite(&mut empty, "b.png"));
    assert!(!apply_sprite_choice(&mut empty, "", "b.png"));
}

#[test]
fn field_results_apply() {
    let mut s = nf_session();
    assert!(!apply_field_result(&mut s, "health", FieldResult::NoChange, None));
    assert!(apply_field_result(&mut s, "health", FieldResult::Changed(TomlValue::Integer(20)), None));
    assert!(matches!(nf_mob(&s).get("health"), Some(TomlValue::Integer(20))));
    assert!(apply_field_result(
        &mut s,
        "spawnable",
        FieldResult::Changed(TomlValue::Boolean(true)),
        Some(TomlValue::Boolean(true))
    ));
    assert!(!nf_mob(&s).contains_key("spawnable"));
    assert!(apply_field_result(&mut s, "health", FieldResult::Reset, None));
    assert!(!nf_mob(&s).contains_key("health"));

    assert!(apply_spawner_field_result(
        &mut s,
        "projectile_spawners",
        "spawner_north",
        "timer",
        FieldResult::Changed(TomlValue::Float(2.0f64.to_bits()))
    ));
    assert!(nf_mob(&s).contains_key("projectile_spawners"));
    assert!(apply_spawner_field_result(
        &mut s,
        "projectile_spawners",
        "spawner_north",
        "timer",
        FieldResult::Reset
    ));
    assert!(!nf_mob(&s).contains_key("projectile_spawners"));

    let r = PropertiesPanelResult::default();
    assert!(!r.open_sprite_browser && r.open_decoration_browser.is_none() && !r.register_mob);
}

#[test]
fn vec2_lookups() {
    let mut t = TomlTable::new();
    set_vec2_value(&mut t, "offset", 1.5f64.to_bits(), 2.5f64.to_bits());
    let (x, y) = vec2_components(&t, "offset", false);
    assert_eq!(x, Some(Number::Float(1.5f64.to_bits())));
    assert_eq!(y, Some(Number::Float(2.5f64.to_bits())));
    t.insert(
        "ints".to_string(),
        TomlValue::Array(vec![TomlValue::Integer(3), TomlValue::Float(4.0f64.to_bits())]),
    );
    assert_eq!(vec2_components(&t, "ints", false).0, None);
    assert_eq!(vec2_components(&t, "ints", true).0, Some(Number::Integer(3)));
    t.insert("short".to_string(), TomlValue::Array(vec![TomlValue::Float(1.0f64.to_bits())]));
    assert_eq!(vec2_components(&t, "short", true).1, None);
    assert_eq!(vec2_components(&t, "missing", true), (None, None));
    let expected = TomlValue::Array(vec![
        TomlValue::Float(1.5f64.to_bits()),
        TomlValue::Float(2.5f64.to_bits()),
    ]);
    assert!(values_equal(t.get("offset").unwrap(), &expected));
}

#[test]
fn decimal_text() {
    let mut s = concat_str("joint", "_");
    push_decimal(&mut s, 0);
    assert_eq!(s, "joint_0");
    let mut s2 = String::new();
    push_decimal(&mut s2, 1207);
    assert_eq!(s2, "1207");
}

#[test]
fn delete_confirmations() {
    let mut d = DeleteDialogState::default();
    assert_eq!(resolve_delete_dialog(&mut d, Some(ConfirmChoice::Confirm)), None);
    d.open("base/a.mob".to_string(), "a.mob".to_string());
    assert_eq!(resolve_delete_dialog(&mut d, None), None);
    assert!(d.is_open);
    assert_eq!(resolve_delete_dialog(&mut d, Some(ConfirmChoice::Confirm)), Some("base/a.mob".to_string()));
    assert!(!d.is_open);
    d.open("base/b.mob".to_string(), "b.mob".to_string());
    assert_eq!(resolve_delete_dialog(&mut d, Some(ConfirmChoice::Cancel)), None);
    assert!(!d.is_open);

    let mut dir = DeleteDirectoryDialogState::default();
    dir.open("base/x".to_string(), "x".to_string(), vec!["a.mob".to_string()]);
    assert_eq!(resolve_delete_directory_dialog(&mut dir, Some(ConfirmChoice::Confirm)), Some("base/x".to_string()));
    assert!(!dir.is_open && dir.contained_files.is_empty());
}

#[test]
fn display_names_from_stems() {
    assert_eq!(display_name_from_stem(Some("boss".to_string()), "media/boss.png"), "boss");
    assert_eq!(display_name_from_stem(None, "media/"), "media/");
}

#[test]
fn creating_a_new_mob() {
    let mut d = NewMobDialog::default();
    let mut refresh = false;
    assert!(create_new_mob(&mut d, &mut refresh).is_none());
    d.open_mob("base/xhitara".to_string());
    d.file_name = "  my_new_mob ".to_string();
    let e = create_new_mob(&mut d, &mut refresh).unwrap();
    assert_eq!(e.path, "base/xhitara/my_new_mob.mob");
    assert_eq!(e.name, "My New Mob");
    assert!(!e.is_patch);
    assert!(refresh);
    assert!(!d.is_open && d.file_name.is_empty());
    let mut refresh2 = false;
    d.open_mob("base".to_string());
    d.file_name = "   ".to_string();
    assert!(create_new_mob(&mut d, &mut refresh2).is_none());
    assert!(d.is_open && !refresh2);
}

#[test]
fn sprite_names_on_portable_paths() {
    assert_eq!(sprite_display_name("media/aseprite/spitter.aseprite"), "spitter");
    assert_eq!(sprite_display_name("media/.hidden"), ".hidden");
    assert_eq!(sprite_display_name("a/b.c.png/"), "b.c");
    assert_eq!(sprite_display_name("media/.."), "media/..");
}

#[test]
fn same_file_by_path_components() {
    let current = Some("dir/a.mob".to_string());
    let mut d = UnsavedChangesDialog::default();
    let mut selected = None;
    assert_eq!(click_file(&current, false, "dir//a.mob", &mut selected, &mut d), None);
    assert_eq!(click_file(&current, true, "./dir/a.mob", &mut selected, &mut d), None);
    assert!(d.is_open);
    let mut d2 = UnsavedChangesDialog::default();
    assert_eq!(open_file_from_menu(&current, true, "dir/a.mob/", &mut d2), Some("dir/a.mob/".to_string()));
    assert!(!d2.is_open);
}

#[test]
fn new_mob_in_nested_name() {
    let mut d = NewMobDialog::default();
    let mut refresh = false;
    d.open_mob("base".to_string());
    d.file_name = "sub/grunt".to_string();
    let e = create_new_mob(&mut d, &mut refresh).unwrap();
    assert_eq!(e.path, "base/sub/grunt.mob");
    assert_eq!(e.name, "Sub/grunt");
}
