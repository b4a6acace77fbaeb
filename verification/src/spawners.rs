//! Editing the projectile spawners and mob spawners of a mob.
//!
//! Spawners live in `<section>.spawners.<name>`, where the section is `projectile_spawners`
//! or `mob_spawners`.

use vstd::prelude::*;

use crate::document::{TomlSpec, TomlTable, TomlValue};
use crate::session::{
    doc_view, edit_mob, mob_map, put_mob, table_at, take_mob, vec2_spec, vec2_value,
    EditorSession, FLOAT_FIVE, FLOAT_ONE, FLOAT_ZERO,
};
use crate::text::{concat_str, decimal, push_decimal};

verus! {

/// The table under `key`, or an empty table when the key is missing.
pub open spec fn table_or_empty(m: Map<Seq<char>, TomlSpec>, key: Seq<char>) -> Map<
    Seq<char>,
    TomlSpec,
> {
    match table_at(m, key) {
        Some(t) => t,
        None => Map::empty(),
    }
}

/// Whether a key of `m` is either missing or holds a table.
pub open spec fn absent_or_table(m: Map<Seq<char>, TomlSpec>, key: Seq<char>) -> bool {
    m.contains_key(key) ==> m[key] is Table
}

/// Whether the path `<section>.spawners.<name>` can be created in `doc`: each part of it that
/// is present is a table.
pub open spec fn spawner_path_ok(doc: Option<TomlSpec>, section: Seq<char>, name: Seq<char>) -> bool {
    match mob_map(doc) {
        Some(m) => {
            &&& absent_or_table(m, section)
            &&& absent_or_table(table_or_empty(m, section), "spawners"@)
            &&& absent_or_table(table_or_empty(table_or_empty(m, section), "spawners"@), name)
        },
        None => true,
    }
}

/// Whether the spawners of `section` in the patch set `field` of spawner `name`.
pub open spec fn spawner_field_patched_spec(
    patch: Map<Seq<char>, TomlSpec>,
    section: Seq<char>,
    name: Seq<char>,
    field: Seq<char>,
) -> bool {
    match table_at(patch, section) {
        Some(sec) => match table_at(sec, "spawners"@) {
            Some(sp) => match table_at(sp, name) {
                Some(s) => s.contains_key(field),
                None => false,
            },
            None => false,
        },
        None => false,
    }
}

/// The edit of `set_spawner_field`: the path is created as needed, then the field is set.
pub open spec fn set_spawner_field_spec(
    m: Map<Seq<char>, TomlSpec>,
    section: Seq<char>,
    name: Seq<char>,
    field: Seq<char>,
    v: TomlSpec,
) -> Map<Seq<char>, TomlSpec> {
    let sec = table_or_empty(m, section);
    let sp = table_or_empty(sec, "spawners"@);
    let s = table_or_empty(sp, name);
    m.insert(
        section,
        TomlSpec::Table(
            sec.insert(
                "spawners"@,
                TomlSpec::Table(sp.insert(name, TomlSpec::Table(s.insert(field, v)))),
            ),
        ),
    )
}

/// `m` with `key` set to table `t`, or removed when `t` is empty.
pub open spec fn put_or_prune(
    m: Map<Seq<char>, TomlSpec>,
    key: Seq<char>,
    t: Map<Seq<char>, TomlSpec>,
) -> Map<Seq<char>, TomlSpec> {
    if t == Map::<Seq<char>, TomlSpec>::empty() {
        m.remove(key)
    } else {
        m.insert(key, TomlSpec::Table(t))
    }
}

/// `m` with the spawners table of `section` changed by `f`, tables left empty being removed.
pub open spec fn edit_spawners_pruned(
    m: Map<Seq<char>, TomlSpec>,
    section: Seq<char>,
    f: spec_fn(Map<Seq<char>, TomlSpec>) -> Map<Seq<char>, TomlSpec>,
) -> Map<Seq<char>, TomlSpec> {
    match table_at(m, section) {
        Some(sec) => {
            let sec1 = match table_at(sec, "spawners"@) {
                Some(sp) => put_or_prune(sec, "spawners"@, f(sp)),
                None => sec,
            };
            put_or_prune(m, section, sec1)
        },
        None => m,
    }
}

/// The edit of `remove_spawner_field`.
pub open spec fn remove_spawner_field_spec(
    m: Map<Seq<char>, TomlSpec>,
    section: Seq<char>,
    name: Seq<char>,
    field: Seq<char>,
) -> Map<Seq<char>, TomlSpec> {
    edit_spawners_pruned(
        m,
        section,
        |sp: Map<Seq<char>, TomlSpec>|
            match table_at(sp, name) {
                Some(s) => put_or_prune(sp, name, s.remove(field)),
                None => sp,
            },
    )
}

/// Whether spawner field `field` of spawner `spawner_name` is set by the patch.
pub fn is_spawner_field_patched(
    patch_table: &TomlTable,
    spawner_type: &str,
    spawner_name: &str,
    field: &str,
) -> (r: bool)
    ensures
        r == spawner_field_patched_spec(patch_table@, spawner_type@, spawner_name@, field@),
{
    match patch_table.get(spawner_type) {
        Some(TomlValue::Table(sec)) => match sec.get("spawners") {
            Some(TomlValue::Table(sp)) => match sp.get(spawner_name) {
                Some(TomlValue::Table(s)) => s.contains_key(field),
                _ => false,
            },
            _ => false,
        },
        _ => false,
    }
}

/// Takes the table under `key` out of `m`, or a new empty table when the key is missing.
fn take_table_or_new(m: &mut TomlTable, key: &str) -> (t: TomlTable)
    requires
        absent_or_table(old(m)@, key@),
    ensures
        t@ == table_or_empty(old(m)@, key@),
        final(m)@ == old(m)@.remove(key@),
{
    match m.take_table(key) {
        Some(t) => t,
        None => {
            assert(old(m)@.remove(key@) =~= old(m)@);
            TomlTable::new()
        },
    }
}

/// Sets `field` of spawner `spawner_name` of section `spawner_type`, creating the tables on
/// the way as needed.
pub fn set_spawner_field(
    session: &mut EditorSession,
    spawner_type: &str,
    spawner_name: &str,
    field: &str,
    value: TomlValue,
)
    requires
        spawner_path_ok(doc_view(old(session).current_mob), spawner_type@, spawner_name@),
    ensures
        final(session).original_mob == old(session).original_mob,
        doc_view(final(session).current_mob) == edit_mob(
            doc_view(old(session).current_mob),
            |m: Map<Seq<char>, TomlSpec>|
                set_spawner_field_spec(m, spawner_type@, spawner_name@, field@, value@),
        ),
{
    if let Some(mut mob) = take_mob(session) {
        let ghost m0 = mob@;
        let ghost v = value@;
        let mut sec = take_table_or_new(&mut mob, spawner_type);
        let ghost sec0 = sec@;
        let mut sp = take_table_or_new(&mut sec, "spawners");
        let ghost sp0 = sp@;
        let mut s = take_table_or_new(&mut sp, spawner_name);
        s.insert(field.to_owned(), value);
        sp.insert(spawner_name.to_owned(), TomlValue::Table(s));
        assert(sp@ =~= sp0.insert(spawner_name@, TomlSpec::Table(table_or_empty(sp0, spawner_name@).insert(field@, v))));
        sec.insert("spawners".to_owned(), TomlValue::Table(sp));
        assert(sec@ =~= sec0.insert("spawners"@, TomlSpec::Table(sp@)));
        mob.insert(spawner_type.to_owned(), TomlValue::Table(sec));
        assert(mob@ =~= set_spawner_field_spec(m0, spawner_type@, spawner_name@, field@, v));
        put_mob(session, mob);
    }
}

/// Puts table `t` back under `key`, or leaves the key out when `t` is empty.
fn put_or_prune_exec(m: &mut TomlTable, key: &str, t: TomlTable)
    ensures
        final(m)@ == put_or_prune(old(m)@, key@, t@),
{
    if t.is_empty() {
        m.remove(key);
    } else {
        m.insert(key.to_owned(), TomlValue::Table(t));
    }
}

/// Removes `field` of spawner `spawner_name`, then removes each table on the path that this
/// leaves empty.
pub fn remove_spawner_field(
    session: &mut EditorSession,
    spawner_type: &str,
    spawner_name: &str,
    field: &str,
)
    ensures
        final(session).original_mob == old(session).original_mob,
        doc_view(final(session).current_mob) == edit_mob(
            doc_view(old(session).current_mob),
            |m: Map<Seq<char>, TomlSpec>|
                remove_spawner_field_spec(m, spawner_type@, spawner_name@, field@),
        ),
{
    if let Some(mut mob) = take_mob(session) {
        let ghost m0 = mob@;
        if let Some(mut sec) = mob.take_table(spawner_type) {
            let ghost sec0 = sec@;
            if let Some(mut sp) = sec.take_table("spawners") {
                let ghost sp0 = sp@;
                if let Some(mut s) = sp.take_table(spawner_name) {
                    s.remove(field);
                    put_or_prune_exec(&mut sp, spawner_name, s);
                    assert(sp@ =~= put_or_prune(sp0, spawner_name@, table_at(sp0, spawner_name@).unwrap().remove(field@)));
                } else {
                    assert(sp@ =~= sp0);
                }
                let ghost sp1 = sp@;
                put_or_prune_exec(&mut sec, "spawners", sp);
                assert(sec@ =~= put_or_prune(sec0, "spawners"@, sp1));
            } else {
                assert(sec@ =~= sec0);
            }
            let ghost sec1 = sec@;
            put_or_prune_exec(&mut mob, spawner_type, sec);
            assert(mob@ =~= put_or_prune(m0, spawner_type@, sec1));
        } else {
            assert(mob@ =~= m0);
        }
        assert(mob@ =~= remove_spawner_field_spec(m0, spawner_type@, spawner_name@, field@));
        put_mob(session, mob);
    }
}

/// The compass direction tried at step `i` (for `i < 5`).
pub open spec fn direction_name(i: int) -> Seq<char> {
    if i == 0 {
        "north"@
    } else if i == 1 {
        "south"@
    } else if i == 2 {
        "east"@
    } else if i == 3 {
        "west"@
    } else {
        "center"@
    }
}

/// The spawner name tried at step `i`: five directions, then the numbers 1 to 99.
pub open spec fn candidate_name(prefix: Seq<char>, i: int) -> Seq<char> {
    if i < 5 {
        prefix + "_"@ + direction_name(i)
    } else {
        prefix + "_"@ + decimal((i - 4) as nat)
    }
}

/// Whether `name` is not taken among `existing` (nothing is taken when there is no table).
pub open spec fn name_free(existing: Option<Map<Seq<char>, TomlSpec>>, name: Seq<char>) -> bool {
    match existing {
        Some(t) => !t.contains_key(name),
        None => true,
    }
}

/// The first free name from step `i` on; `<prefix>_new` when all the tried names are taken.
pub open spec fn first_free_name(
    existing: Option<Map<Seq<char>, TomlSpec>>,
    prefix: Seq<char>,
    i: int,
) -> Seq<char>
    decreases 104 - i,
{
    if i >= 104 {
        prefix + "_new"@
    } else if name_free(existing, candidate_name(prefix, i)) {
        candidate_name(prefix, i)
    } else {
        first_free_name(existing, prefix, i + 1)
    }
}

/// The view of an optional table.
pub open spec fn opt_table_view(t: Option<&TomlTable>) -> Option<Map<Seq<char>, TomlSpec>> {
    match t {
        Some(x) => Some(x@),
        None => None,
    }
}

/// The direction name of step `i`.
fn direction_str(i: usize) -> (s: &'static str)
    requires
        i < 5,
    ensures
        s@ == direction_name(i as int),
{
    if i == 0 {
        "north"
    } else if i == 1 {
        "south"
    } else if i == 2 {
        "east"
    } else if i == 3 {
        "west"
    } else {
        "center"
    }
}

/// A spawner name starting with `prefix` that `existing` does not hold yet: a direction first,
/// then a number, and `<prefix>_new` as the last resort.
pub fn generate_unique_spawner_name(existing_spawners: Option<&TomlTable>, prefix: &str) -> (r: String)
    ensures
        r@ == first_free_name(opt_table_view(existing_spawners), prefix@, 0),
{
    let ghost ex = opt_table_view(existing_spawners);
    let mut i: usize = 0;
    while i < 104
        invariant
            i <= 104,
            ex == opt_table_view(existing_spawners),
            first_free_name(ex, prefix@, 0) == first_free_name(ex, prefix@, i as int),
        decreases 104 - i,
    {
        let mut name = concat_str(prefix, "_");
        if i < 5 {
            name.append(direction_str(i));
        } else {
            push_decimal(&mut name, i - 4);
        }
        assert(name@ == candidate_name(prefix@, i as int));
        let free = match existing_spawners {
            Some(s) => !s.contains_key(name.as_str()),
            None => true,
        };
        if free {
            return name;
        }
        i = i + 1;
    }
    concat_str(prefix, "_new")
}

/// The projectile spawner added by default.
pub open spec fn new_projectile_spawner_spec() -> Map<Seq<char>, TomlSpec> {
    Map::empty().insert("timer"@, TomlSpec::Float(FLOAT_ONE)).insert(
        "position"@,
        vec2_spec(FLOAT_ZERO, FLOAT_ZERO),
    ).insert("rotation"@, TomlSpec::Float(FLOAT_ZERO)).insert(
        "projectile_type"@,
        TomlSpec::Str("Bullet"@),
    ).insert("faction"@, TomlSpec::Str("Enemy"@))
}

/// The mob spawner added by default.
pub open spec fn new_mob_spawner_spec() -> Map<Seq<char>, TomlSpec> {
    Map::empty().insert("timer"@, TomlSpec::Float(FLOAT_FIVE)).insert(
        "position"@,
        vec2_spec(FLOAT_ZERO, FLOAT_ZERO),
    ).insert("rotation"@, TomlSpec::Float(FLOAT_ZERO)).insert(
        "mob_ref"@,
        TomlSpec::Str(Seq::empty()),
    )
}

/// The spawners table of `section` in the displayed data, if there is one.
pub open spec fn displayed_spawners(display: Map<Seq<char>, TomlSpec>, section: Seq<char>) -> Option<
    Map<Seq<char>, TomlSpec>,
> {
    match table_at(display, section) {
        Some(sec) => table_at(sec, "spawners"@),
        None => None,
    }
}

/// The edit of adding spawner `name` with settings `s` to `section`, creating the tables on
/// the way as needed.
pub open spec fn add_spawner_spec(
    m: Map<Seq<char>, TomlSpec>,
    section: Seq<char>,
    name: Seq<char>,
    s: Map<Seq<char>, TomlSpec>,
) -> Map<Seq<char>, TomlSpec> {
    let sec = table_or_empty(m, section);
    let sp = table_or_empty(sec, "spawners"@);
    m.insert(
        section,
        TomlSpec::Table(sec.insert("spawners"@, TomlSpec::Table(sp.insert(name, TomlSpec::Table(s))))),
    )
}

/// Whether the tables `<section>.spawners` are either missing or tables.
pub open spec fn spawners_path_ok(doc: Option<TomlSpec>, section: Seq<char>) -> bool {
    match mob_map(doc) {
        Some(m) => {
            &&& absent_or_table(m, section)
            &&& absent_or_table(table_or_empty(m, section), "spawners"@)
        },
        None => true,
    }
}

/// The spawners table of `section` in `display`, if there is one.
fn displayed_spawners_exec<'a>(display: &'a TomlTable, section: &str) -> (r: Option<&'a TomlTable>)
    ensures
        opt_table_view(r) == displayed_spawners(display@, section@),
{
    match display.get(section) {
        Some(TomlValue::Table(sec)) => match sec.get("spawners") {
            Some(TomlValue::Table(sp)) => Some(sp),
            _ => None,
        },
        _ => None,
    }
}

/// Adds spawner `name` with settings `s` to `section` of `mob`.
fn add_spawner(mob: &mut TomlTable, section: &str, name: String, s: TomlTable)
    requires
        absent_or_table(old(mob)@, section@),
        absent_or_table(table_or_empty(old(mob)@, section@), "spawners"@),
    ensures
        final(mob)@ == add_spawner_spec(old(mob)@, section@, name@, s@),
{
    let ghost m0 = mob@;
    let ghost k = name@;
    let ghost sv = s@;
    let mut sec = take_table_or_new(mob, section);
    let ghost sec0 = sec@;
    let mut sp = take_table_or_new(&mut sec, "spawners");
    let ghost sp0 = sp@;
    sp.insert(name, TomlValue::Table(s));
    sec.insert("spawners".to_owned(), TomlValue::Table(sp));
    assert(sec@ =~= sec0.insert("spawners"@, TomlSpec::Table(sp0.insert(k, TomlSpec::Table(sv)))));
    mob.insert(section.to_owned(), TomlValue::Table(sec));
    assert(mob@ =~= add_spawner_spec(m0, section@, k, sv));
}

/// Adds a projectile spawner with default settings, named so that it is new among the
/// displayed spawners.
pub fn add_new_projectile_spawner(session: &mut EditorSession, display_table: &TomlTable)
    requires
        spawners_path_ok(doc_view(old(session).current_mob), "projectile_spawners"@),
    ensures
        final(session).original_mob == old(session).original_mob,
        doc_view(final(session).current_mob) == edit_mob(
            doc_view(old(session).current_mob),
            |m: Map<Seq<char>, TomlSpec>|
                add_spawner_spec(
                    m,
                    "projectile_spawners"@,
                    first_free_name(
                        displayed_spawners(display_table@, "projectile_spawners"@),
                        "spawner"@,
                        0,
                    ),
                    new_projectile_spawner_spec(),
                ),
        ),
{
    let existing = displayed_spawners_exec(display_table, "projectile_spawners");
    let name = generate_unique_spawner_name(existing, "spawner");
    let mut s = TomlTable::new();
    s.insert("timer".to_owned(), TomlValue::Float(FLOAT_ONE));
    s.insert("position".to_owned(), vec2_value(FLOAT_ZERO, FLOAT_ZERO));
    s.insert("rotation".to_owned(), TomlValue::Float(FLOAT_ZERO));
    s.insert("projectile_type".to_owned(), TomlValue::String("Bullet".to_owned()));
    s.insert("faction".to_owned(), TomlValue::String("Enemy".to_owned()));
    if let Some(mut mob) = take_mob(session) {
        add_spawner(&mut mob, "projectile_spawners", name, s);
        put_mob(session, mob);
    }
}

/// Adds a mob spawner with default settings, named so that it is new among the displayed
/// spawners.
pub fn add_new_mob_spawner(session: &mut EditorSession, display_table: &TomlTable)
    requires
        spawners_path_ok(doc_view(old(session).current_mob), "mob_spawners"@),
    ensures
        final(session).original_mob == old(session).original_mob,
        doc_view(final(session).current_mob) == edit_mob(
            doc_view(old(session).current_mob),
            |m: Map<Seq<char>, TomlSpec>|
                add_spawner_spec(
                    m,
                    "mob_spawners"@,
                    first_free_name(displayed_spawners(display_table@, "mob_spawners"@), "mob"@, 0),
                    new_mob_spawner_spec(),
                ),
        ),
{
    let existing = displayed_spawners_exec(display_table, "mob_spawners");
    let name = generate_unique_spawner_name(existing, "mob");
    let mut s = TomlTable::new();
    s.insert("timer".to_owned(), TomlValue::Float(FLOAT_FIVE));
    s.insert("position".to_owned(), vec2_value(FLOAT_ZERO, FLOAT_ZERO));
    s.insert("rotation".to_owned(), TomlValue::Float(FLOAT_ZERO));
    s.insert("mob_ref".to_owned(), TomlValue::String(String::new()));
    if let Some(mut mob) = take_mob(session) {
        add_spawner(&mut mob, "mob_spawners", name, s);
        put_mob(session, mob);
    }
}

/// Deletes spawner `name` of `spawner_type`, removing the tables that this leaves empty.
pub fn delete_spawner_by_name(session: &mut EditorSession, spawner_type: &str, name: &str)
    ensures
        final(session).original_mob == old(session).original_mob,
        doc_view(final(session).current_mob) == edit_mob(
            doc_view(old(session).current_mob),
            |m: Map<Seq<char>, TomlSpec>|
                edit_spawners_pruned(
                    m,
                    spawner_type@,
                    |sp: Map<Seq<char>, TomlSpec>| sp.remove(name@),
                ),
        ),
{
    if let Some(mut mob) = take_mob(session) {
        let ghost m0 = mob@;
        if let Some(mut sec) = mob.take_table(spawner_type) {
            let ghost sec0 = sec@;
            if let Some(mut sp) = sec.take_table("spawners") {
                sp.remove(name);
                let ghost sp1 = sp@;
                put_or_prune_exec(&mut sec, "spawners", sp);
                assert(sec@ =~= put_or_prune(sec0, "spawners"@, sp1));
            } else {
                assert(sec@ =~= sec0);
            }
            let ghost sec1 = sec@;
            put_or_prune_exec(&mut mob, spawner_type, sec);
            assert(mob@ =~= put_or_prune(m0, spawner_type@, sec1));
        } else {
            assert(mob@ =~= m0);
        }
        assert(mob@ =~= edit_spawners_pruned(
            m0,
            spawner_type@,
            |sp: Map<Seq<char>, TomlSpec>| sp.remove(name@),
        ));
        put_mob(session, mob);
    }
}

/// The edit of renaming spawner `old_name` to `new_name`: nothing changes when `new_name` is
/// taken or `old_name` is missing.
pub open spec fn rename_spawner_spec(
    m: Map<Seq<char>, TomlSpec>,
    section: Seq<char>,
    old_name: Seq<char>,
    new_name: Seq<char>,
) -> Map<Seq<char>, TomlSpec> {
    match table_at(m, section) {
        Some(sec) => match table_at(sec, "spawners"@) {
            Some(sp) => if !sp.contains_key(new_name) && sp.contains_key(old_name) {
                m.insert(
                    section,
                    TomlSpec::Table(
                        sec.insert(
                            "spawners"@,
                            TomlSpec::Table(sp.remove(old_name).insert(new_name, sp[old_name])),
                        ),
                    ),
                )
            } else {
                m
            },
            None => m,
        },
        None => m,
    }
}

/// Renames a spawner, never overwriting an existing one.
pub fn rename_spawner_by_name(
    session: &mut EditorSession,
    spawner_type: &str,
    old_name: &str,
    new_name: &str,
)
    ensures
        final(session).original_mob == old(session).original_mob,
        doc_view(final(session).current_mob) == edit_mob(
            doc_view(old(session).current_mob),
            |m: Map<Seq<char>, TomlSpec>|
                rename_spawner_spec(m, spawner_type@, old_name@, new_name@),
        ),
{
    if let Some(mut mob) = take_mob(session) {
        let ghost m0 = mob@;
        if let Some(mut sec) = mob.take_table(spawner_type) {
            let ghost sec0 = sec@;
            if let Some(mut sp) = sec.take_table("spawners") {
                let ghost sp0 = sp@;
                if !sp.contains_key(new_name) {
                    if let Some(data) = sp.remove(old_name) {
                        sp.insert(new_name.to_owned(), data);
                    }
                }
                proof {
                    if !sp0.contains_key(new_name@) && sp0.contains_key(old_name@) {
                        assert(sp@ =~= sp0.remove(old_name@).insert(new_name@, sp0[old_name@]));
                    } else {
                        assert(sp@ =~= sp0);
                    }
                }
                sec.insert("spawners".to_owned(), TomlValue::Table(sp));
                proof {
                    if !(!sp0.contains_key(new_name@) && sp0.contains_key(old_name@)) {
                        assert(sec@ =~= sec0);
                    } else {
                        assert(sec@ =~= sec0.insert(
                            "spawners"@,
                            TomlSpec::Table(sp0.remove(old_name@).insert(new_name@, sp0[old_name@])),
                        ));
                    }
                }
            } else {
                assert(sec@ =~= sec0);
            }
            let ghost sec1 = sec@;
            mob.insert(spawner_type.to_owned(), TomlValue::Table(sec));
            proof {
                if sec1 == sec0 {
                    assert(mob@ =~= m0);
                } else {
                    assert(mob@ =~= m0.insert(spawner_type@, TomlSpec::Table(sec1)));
                }
            }
        } else {
            assert(mob@ =~= m0);
        }
        assert(mob@ =~= rename_spawner_spec(m0, spawner_type@, old_name@, new_name@));
        put_mob(session, mob);
    }
}

} // verus!
