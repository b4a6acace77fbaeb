//! Sprite references: the `extended://` prefix that marks sprites of the extended assets, the
//! names that sprites are shown by, and setting the mob's sprite.

use vstd::prelude::*;

use crate::chars::{chars_of, has_prefix, push_char, starts_with_chars, string_of};
use crate::document::{TomlSpec, TomlValue};
use crate::session::{doc_view, edit_mob, mob_map, put_mob, take_mob, EditorSession};

verus! {

/// The prefix of a sprite path that refers to the extended assets.
pub open spec fn extended_prefix() -> Seq<char> {
    seq!['e', 'x', 't', 'e', 'n', 'd', 'e', 'd', ':', '/', '/']
}

/// The key of the mob's sprite.
pub open spec fn sprite_key() -> Seq<char> {
    seq!['s', 'p', 'r', 'i', 't', 'e']
}

fn extended_prefix_chars() -> (v: Vec<char>)
    ensures
        v@ == extended_prefix(),
{
    let v = vec!['e', 'x', 't', 'e', 'n', 'd', 'e', 'd', ':', '/', '/'];
    assert(v@ =~= extended_prefix());
    v
}

/// The asset path of a sprite path: without the `extended://` prefix, when it has one.
pub open spec fn asset_path_of(sprite: Seq<char>) -> Seq<char> {
    if has_prefix(sprite, extended_prefix()) {
        sprite.subrange(11, sprite.len() as int)
    } else {
        sprite
    }
}

/// Whether a sprite path refers to the extended assets, and its asset path.
pub fn split_sprite_path(sprite: &str) -> (r: (bool, String))
    ensures
        r.0 == has_prefix(sprite@, extended_prefix()),
        r.1@ == asset_path_of(sprite@),
{
    let v = chars_of(sprite);
    let p = extended_prefix_chars();
    if starts_with_chars(&v, &p) {
        (true, string_of(&v, 11, v.len()))
    } else {
        assert(v@.subrange(0, v@.len() as int) =~= v@);
        (false, string_of(&v, 0, v.len()))
    }
}

/// `asset_path` with the `extended://` prefix in front.
pub fn with_extended_prefix(asset_path: &str) -> (r: String)
    ensures
        r@ == extended_prefix() + asset_path@,
{
    let p = extended_prefix_chars();
    let mut r = string_of(&p, 0, 11);
    assert(p@.subrange(0, 11) =~= p@);
    r.append(asset_path);
    r
}

/// Whether the entry for the sprite `asset_path` in the base (`extended_section` unset) or the
/// extended section of the sprite picker is the current sprite `current`.
pub fn sprite_is_selected(current: &str, asset_path: &str, extended_section: bool) -> (r: bool)
    ensures
        r == (has_prefix(current@, extended_prefix()) == extended_section && asset_path_of(current@)
            == asset_path@),
{
    let (is_extended, normalized) = split_sprite_path(current);
    is_extended == extended_section && crate::document::str_eq(normalized.as_str(), asset_path)
}

/// The sprite path to store for a sprite chosen in the sprite browser, and the path to look it
/// up by among the registered sprites: an extended sprite carries the `extended://` prefix in
/// the lookup, and in the stored path too when the mob is a patch or an extended mob.
pub fn browser_sprite_paths(
    asset_path: &str,
    is_extended: bool,
    is_patch: bool,
    is_extended_mob: bool,
) -> (r: (String, String))
    ensures
        r.0@ == (if is_extended && (is_patch || is_extended_mob) {
            extended_prefix() + asset_path@
        } else {
            asset_path@
        }),
        r.1@ == (if is_extended {
            extended_prefix() + asset_path@
        } else {
            asset_path@
        }),
{
    let mob_path = if is_extended && (is_patch || is_extended_mob) {
        with_extended_prefix(asset_path)
    } else {
        asset_path.to_owned()
    };
    let check_path = if is_extended {
        with_extended_prefix(asset_path)
    } else {
        asset_path.to_owned()
    };
    (mob_path, check_path)
}

/// Whether `part` is a contiguous run of the characters of `whole`.
pub open spec fn is_part_of(part: Seq<char>, whole: Seq<char>) -> bool {
    exists|i: int, j: int| 0 <= i <= j <= whole.len() && part == whole.subrange(i, j)
}

/// Whether every platform's path rules read `p` alike: it holds no `\` and no `:`, and does not
/// begin with `//` (which Windows reads as a network, device or verbatim prefix).
pub open spec fn portable_path(p: Seq<char>) -> bool {
    !p.contains('\\') && !p.contains(':') && !has_prefix(p, seq!['/', '/'])
}

/// The file name of a portable path, read from the right: `s` is what is left of the path and
/// `cur` the component being read. Empty components and `.` are skipped; the last remaining
/// component is the file name, unless it is `..` or there is none.
pub open spec fn file_name_scan(s: Seq<char>, cur: Seq<char>) -> Option<Seq<char>>
    decreases s.len(),
{
    if s.len() == 0 {
        if cur.len() == 0 || cur == seq!['.'] || cur == seq!['.', '.'] {
            None
        } else {
            Some(cur)
        }
    } else if s.last() == '/' {
        if cur.len() == 0 || cur == seq!['.'] {
            file_name_scan(s.drop_last(), Seq::empty())
        } else if cur == seq!['.', '.'] {
            None
        } else {
            Some(cur)
        }
    } else {
        file_name_scan(s.drop_last(), seq![s.last()] + cur)
    }
}

/// The position of the last `.` of `n`, if any.
pub open spec fn last_dot_index(n: Seq<char>) -> Option<int>
    decreases n.len(),
{
    if n.len() == 0 {
        None
    } else if n.last() == '.' {
        Some(n.len() - 1)
    } else {
        last_dot_index(n.drop_last())
    }
}

/// The stem of a file name: what comes before its last `.`, or the whole name when it has no
/// `.` or its only `.` is its first character.
pub open spec fn stem_of_name(n: Seq<char>) -> Seq<char> {
    match last_dot_index(n) {
        Some(i) => if i > 0 {
            n.subrange(0, i)
        } else {
            n
        },
        None => n,
    }
}

/// The file stem of a portable path.
pub open spec fn portable_file_stem(p: Seq<char>) -> Option<Seq<char>> {
    match file_name_scan(p, Seq::empty()) {
        Some(n) => Some(stem_of_name(n)),
        None => None,
    }
}

/// The text of an optional string.
pub open spec fn opt_chars(s: Option<String>) -> Option<Seq<char>> {
    match s {
        Some(x) => Some(x@),
        None => None,
    }
}

/// `std::path::Path::file_stem` followed by `OsStr::to_str`: the file name without its last
/// extension. The documentation makes the stem a non-empty portion of the path's final
/// component, so it is a non-empty contiguous part of the path. For a path that every platform
/// reads alike (see `portable_path`), the final component and the stem are those that the
/// documentation of `Path::components`, `Path::file_name` and `Path::file_stem` describes, and
/// they are stated exactly; for other paths (Windows prefixes, `\` as a separator) which part of
/// the path the stem is follows the platform's rules and is left unstated.
#[verifier::external_body]
fn file_stem_of(path: &str) -> (r: Option<String>)
    ensures
        r matches Some(s) ==> is_part_of(s@, path@) && s@.len() > 0,
        portable_path(path@) ==> opt_chars(r) == portable_file_stem(path@),
{
    std::path::Path::new(path).file_stem().and_then(|s| s.to_str()).map(|s| s.to_owned())
}

/// The name that a sprite is shown by, given the file stem of its path: the stem, or the whole
/// path when it has none.
pub fn display_name_from_stem(stem: Option<String>, path: &str) -> (r: String)
    ensures
        match stem {
            Some(s) => r == s,
            None => r@ == path@,
        },
{
    match stem {
        Some(s) => s,
        None => path.to_owned(),
    }
}

/// The name that a sprite is shown by: the file stem of its path, or the whole path when it has
/// none. It is always a contiguous part of the path, empty only for an empty path; for a path
/// that every platform reads alike it is the stem of the last component (`spitter` for
/// `media/aseprite/spitter.aseprite`).
pub fn sprite_display_name(path: &str) -> (r: String)
    ensures
        is_part_of(r@, path@),
        path@.len() > 0 ==> r@.len() > 0,
        portable_path(path@) ==> r@ == match portable_file_stem(path@) {
            Some(x) => x,
            None => path@,
        },
{
    let stem = file_stem_of(path);
    assert(path@.subrange(0, path@.len() as int) =~= path@);
    display_name_from_stem(stem, path)
}

fn sprite_key_str() -> (r: &'static str)
    ensures
        r@ == sprite_key(),
{
    proof {
        reveal_strlit("sprite");
    }
    "sprite"
}

/// The document after choosing `selected` in the sprite picker while the sprite shown is
/// `current`: nothing changes when the choice is the same; choosing no sprite removes the sprite
/// field, another choice sets it.
pub open spec fn sprite_choice_spec(
    doc: Option<TomlSpec>,
    current: Seq<char>,
    selected: Seq<char>,
) -> Option<TomlSpec> {
    if selected == current {
        doc
    } else if selected.len() == 0 {
        edit_mob(doc, |m: Map<Seq<char>, TomlSpec>| m.remove(sprite_key()))
    } else {
        edit_mob(doc, |m: Map<Seq<char>, TomlSpec>| m.insert(sprite_key(), TomlSpec::Str(selected)))
    }
}

/// Applies the choice `selected` of the sprite picker, whose shown sprite is `current`; returns
/// whether the document changed hands (a different choice on a mob that is a table).
pub fn apply_sprite_choice(session: &mut EditorSession, current: &str, selected: &str) -> (modified:
    bool)
    ensures
        modified == (selected@ != current@ && mob_map(doc_view(old(session).current_mob)) is Some),
        final(session).original_mob == old(session).original_mob,
        doc_view(final(session).current_mob) == sprite_choice_spec(
            doc_view(old(session).current_mob),
            current@,
            selected@,
        ),
{
    if crate::document::str_eq(selected, current) {
        return false;
    }
    let key = sprite_key_str();
    match take_mob(session) {
        Some(mut mob) => {
            if selected.unicode_len() == 0 {
                let _ = mob.remove(key);
            } else {
                let _ = mob.insert(key.to_owned(), TomlValue::String(selected.to_owned()));
            }
            put_mob(session, mob);
            true
        },
        None => false,
    }
}

/// Sets the mob's sprite to `mob_path` (the "use sprite" answer of the sprite dialog); returns
/// whether there was a mob to set it on.
pub fn use_sprite(session: &mut EditorSession, mob_path: &str) -> (success: bool)
    ensures
        success == (mob_map(doc_view(old(session).current_mob)) is Some),
        final(session).original_mob == old(session).original_mob,
        doc_view(final(session).current_mob) == edit_mob(
            doc_view(old(session).current_mob),
            |m: Map<Seq<char>, TomlSpec>| m.insert(sprite_key(), TomlSpec::Str(mob_path@)),
        ),
{
    let key = sprite_key_str();
    match take_mob(session) {
        Some(mut mob) => {
            let _ = mob.insert(key.to_owned(), TomlValue::String(mob_path.to_owned()));
            put_mob(session, mob);
            true
        },
        None => false,
    }
}

/// The folders `parts`, each followed by `/`.
pub open spec fn folder_prefix(parts: Seq<String>) -> Seq<char>
    decreases parts.len(),
{
    if parts.len() == 0 {
        Seq::empty()
    } else {
        folder_prefix(parts.drop_last()) + parts.last()@ + seq!['/']
    }
}

/// The asset path of the file `name` in the folder that the sprite browser shows, whose path
/// from the assets root is `current_path`: the folders joined by `/`, then the name.
pub fn browser_asset_path(current_path: &Vec<String>, name: &str) -> (r: String)
    ensures
        r@ == folder_prefix(current_path@) + name@,
{
    let mut r = String::new();
    let mut i: usize = 0;
    while i < current_path.len()
        invariant
            i <= current_path@.len(),
            r@ == folder_prefix(current_path@.subrange(0, i as int)),
        decreases current_path@.len() - i,
    {
        let ghost before = r@;
        r.append(current_path[i].as_str());
        push_char(&mut r, '/');
        proof {
            let s = current_path@.subrange(0, i + 1);
            assert(s.drop_last() =~= current_path@.subrange(0, i as int));
            assert(s.last() == current_path@[i as int]);
            assert(r@ =~= before + current_path@[i as int]@ + seq!['/']);
        }
        i = i + 1;
    }
    assert(current_path@.subrange(0, current_path@.len() as int) =~= current_path@);
    r.append(name);
    r
}

} // verus!
