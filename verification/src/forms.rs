//! Decisions of the file panel and of its dialogs: names typed by the user, display names,
//! the mob that a file path refers to, what a click on a file does, and how the choice in the
//! unsaved-changes dialog is carried out.

use vstd::prelude::*;

use crate::chars::{
    char_uppercase, chars_of, contains_any_of, ends_with_chars, find_first, first_occurrence,
    has_any_of, has_prefix, has_suffix, push_char, string_of, trim_str, trimmed, uppercase_of,
};
use crate::dialogs::{
    DeleteDialogState, DeleteDirectoryDialogState, NewMobDialog, UnsavedAction, UnsavedChangesDialog,
};
use crate::document::str_eq;
use crate::sprites::portable_path;

verus! {

// ---------------------------------------------------------------------------------------------
// Display names
// ---------------------------------------------------------------------------------------------

/// Whether `c` separates the words of a file name.
pub open spec fn is_word_separator(c: char) -> bool {
    c == '_' || c == '-'
}

/// The title-case form of `s`: separators become spaces and the first character of each word is
/// upper-cased; `at_start` says whether `s` begins a word.
pub open spec fn display_name_from(s: Seq<char>, at_start: bool) -> Seq<char>
    decreases s.len(),
{
    if s.len() == 0 {
        Seq::empty()
    } else if is_word_separator(s[0]) {
        seq![' '] + display_name_from(s.drop_first(), true)
    } else if at_start {
        uppercase_of(s[0]) + display_name_from(s.drop_first(), false)
    } else {
        seq![s[0]] + display_name_from(s.drop_first(), false)
    }
}

/// The title-case display name of a file name such as `my_new_mob` (`My New Mob`).
pub open spec fn display_name(s: Seq<char>) -> Seq<char> {
    display_name_from(s, true)
}

/// Converts a file name like `my_new-mob` to the title-case display name `My New Mob`: every
/// `_` and `-` becomes a space and each word starts with its upper-case first character.
pub fn filename_to_display_name(filename: &str) -> (r: String)
    ensures
        r@ == display_name(filename@),
{
    let v = chars_of(filename);
    let n = v.len();
    let mut out = String::new();
    let mut at_start = true;
    let mut i: usize = 0;
    assert(v@.subrange(0, n as int) =~= v@);
    while i < n
        invariant
            i <= n,
            n == v@.len(),
            v@ == filename@,
            out@ + display_name_from(v@.subrange(i as int, n as int), at_start) == display_name(
                v@,
            ),
        decreases n - i,
    {
        let ghost rest = v@.subrange(i as int, n as int);
        let ghost next = v@.subrange(i + 1, n as int);
        assert(rest.drop_first() =~= next);
        assert(rest[0] == v@[i as int]);
        let c = v[i];
        let ghost before = out@;
        if c == '_' || c == '-' {
            push_char(&mut out, ' ');
            assert(out@ + display_name_from(next, true) =~= before + (seq![' '] + display_name_from(
                next,
                true,
            )));
            at_start = true;
        } else if at_start {
            let up = char_uppercase(c);
            out.append(up.as_str());
            assert(out@ + display_name_from(next, false) =~= before + (uppercase_of(c)
                + display_name_from(next, false)));
            at_start = false;
        } else {
            push_char(&mut out, c);
            assert(out@ + display_name_from(next, false) =~= before + (seq![c] + display_name_from(
                next,
                false,
            )));
        }
        i = i + 1;
    }
    assert(v@.subrange(n as int, n as int) =~= Seq::<char>::empty());
    assert(out@ + Seq::<char>::empty() =~= out@);
    out
}

/// The part of `s` after its last `/` (all of `s` when it has none).
pub open spec fn last_segment(s: Seq<char>) -> Seq<char>
    decreases s.len(),
{
    if s.len() == 0 {
        s
    } else if s.last() == '/' {
        Seq::empty()
    } else {
        last_segment(s.drop_last()).push(s.last())
    }
}

/// The part of `s` after its last `/`.
pub fn last_path_segment(s: &str) -> (r: String)
    ensures
        r@ == last_segment(s@),
{
    let v = chars_of(s);
    let n = v.len();
    let mut k = n;
    assert(v@.subrange(0, n as int) =~= v@);
    assert(last_segment(v@) + v@.subrange(n as int, n as int) =~= last_segment(v@));
    while k > 0
        invariant
            k <= n,
            n == v@.len(),
            v@ == s@,
            last_segment(v@) == last_segment(v@.subrange(0, k as int)) + v@.subrange(
                k as int,
                n as int,
            ),
            forall|j: int| k <= j < n ==> v@[j] != '/',
        decreases k,
    {
        let ghost pre = v@.subrange(0, k as int);
        assert(pre.drop_last() =~= v@.subrange(0, k - 1));
        if v[k - 1] == '/' {
            assert(last_segment(pre) =~= Seq::<char>::empty());
            let r = string_of(&v, k, n);
            assert(last_segment(v@) =~= r@);
            return r;
        }
        assert(v@.subrange(k - 1, n as int) =~= v@.subrange(k - 1, k as int) + v@.subrange(
            k as int,
            n as int,
        ));
        assert(last_segment(pre) =~= last_segment(v@.subrange(0, k - 1)).push(v@[k - 1]));
        k = k - 1;
    }
    assert(v@.subrange(0, 0) =~= Seq::<char>::empty());
    let r = string_of(&v, 0, n);
    assert(last_segment(v@) =~= r@);
    r
}

// ---------------------------------------------------------------------------------------------
// Names typed into the dialogs
// ---------------------------------------------------------------------------------------------

/// The characters that a folder name may not hold.
pub open spec fn folder_forbidden() -> Seq<char> {
    seq!['/', '\\', ':', '*', '?', '"', '<', '>', '|']
}

/// The characters that a mob file name may not hold: those of a folder name, and `.`.
pub open spec fn mob_name_forbidden() -> Seq<char> {
    folder_forbidden().push('.')
}

fn folder_forbidden_chars() -> (v: Vec<char>)
    ensures
        v@ == folder_forbidden(),
{
    let v = vec!['/', '\\', ':', '*', '?', '"', '<', '>', '|'];
    assert(v@ =~= folder_forbidden());
    v
}

fn mob_name_forbidden_chars() -> (v: Vec<char>)
    ensures
        v@ == mob_name_forbidden(),
{
    let mut v = folder_forbidden_chars();
    v.push('.');
    v
}

/// Whether a folder name holds a character that folders may not have.
pub fn has_invalid_folder_chars(name: &str) -> (r: bool)
    ensures
        r == has_any_of(name@, folder_forbidden()),
{
    let v = chars_of(name);
    let set = folder_forbidden_chars();
    contains_any_of(&v, &set)
}

/// Whether a mob file name holds a character that mob names may not have.
pub fn has_invalid_mob_name_chars(name: &str) -> (r: bool)
    ensures
        r == has_any_of(name@, mob_name_forbidden()),
{
    let v = chars_of(name);
    let set = mob_name_forbidden_chars();
    contains_any_of(&v, &set)
}

/// Whether the new folder dialog offers to create a folder named `name`: the name is not blank
/// and holds no forbidden character.
pub fn folder_name_valid(name: &str) -> (r: bool)
    ensures
        r == (trimmed(name@).len() > 0 && !has_any_of(name@, folder_forbidden())),
{
    let t = trim_str(name);
    t.unicode_len() > 0 && !has_invalid_folder_chars(name)
}

/// Whether the new mob dialog offers to create a mob named `name`: the name is not blank and
/// holds no forbidden character.
pub fn mob_name_valid(name: &str) -> (r: bool)
    ensures
        r == (trimmed(name@).len() > 0 && !has_any_of(name@, mob_name_forbidden())),
{
    let t = trim_str(name);
    t.unicode_len() > 0 && !has_invalid_mob_name_chars(name)
}

/// The name of the folder that a create request makes: the typed name without surrounding white
/// space, or nothing when that is empty. (A request made with Enter is carried out even when the
/// name holds a forbidden character.)
pub fn folder_to_create(name: &str) -> (r: Option<String>)
    ensures
        r is Some <==> trimmed(name@).len() > 0,
        r matches Some(f) ==> f@ == trimmed(name@),
{
    let t = trim_str(name);
    if t.unicode_len() > 0 {
        Some(t.to_owned())
    } else {
        None
    }
}

/// A file to create for a new mob or patch: its file name (to be placed under the folder that
/// the dialog was opened for, or under the extended assets folder for a patch), the display name
/// written into it, and whether it is a patch.
pub struct NewMobRequest {
    pub file_name: String,
    pub display_name: String,
    pub is_patch: bool,
}

/// The mob file that a create request in the new mob dialog makes: the typed name without
/// surrounding white space, with `.mob` appended, and its display name; nothing when the name is
/// blank.
pub fn new_mob_request(file_name: &str) -> (r: Option<NewMobRequest>)
    ensures
        r is Some <==> trimmed(file_name@).len() > 0,
        r matches Some(q) ==> {
            &&& q.file_name@ == trimmed(file_name@) + seq!['.', 'm', 'o', 'b']
            &&& q.display_name@ == display_name(trimmed(file_name@))
            &&& !q.is_patch
        },
{
    let t = trim_str(file_name);
    if t.unicode_len() == 0 {
        return None;
    }
    let mut f = t.to_owned();
    push_char(&mut f, '.');
    push_char(&mut f, 'm');
    push_char(&mut f, 'o');
    push_char(&mut f, 'b');
    assert(f@ =~= trimmed(file_name@) + seq!['.', 'm', 'o', 'b']);
    Some(NewMobRequest { file_name: f, display_name: filename_to_display_name(t), is_patch: false })
}

/// Whether every platform reads `name` as a relative path without prefix: it is not empty,
/// does not begin with `/` or `\\`, and holds no `:`. (It may hold further `/`.)
pub open spec fn relative_name(name: Seq<char>) -> bool {
    name.len() > 0 && name[0] != '/' && name[0] != '\\' && !name.contains(':')
}

/// Whether `parent` begins with two separators (a network, device or verbatim prefix on
/// Windows).
pub open spec fn double_separator_start(parent: Seq<char>) -> bool {
    parent.len() >= 2 && (parent[0] == '/' || parent[0] == '\\') && (parent[1] == '/' || parent[1]
        == '\\')
}

/// Whether `r` is `parent` followed by `name`, with or without a separator between them.
pub open spec fn joined_under(parent: Seq<char>, name: Seq<char>, r: Seq<char>) -> bool {
    ||| r == parent + name
    ||| r == parent + seq!['/'] + name
    ||| r == parent + seq!['\\'] + name
}

/// Whether every platform puts a separator between `parent` and a name joined to it: `parent` is
/// not empty, does not end in `/` or `\\`, and holds no `:` (so it is no bare drive).
pub open spec fn separator_needed(parent: Seq<char>) -> bool {
    parent.len() > 0 && parent.last() != '/' && parent.last() != '\\' && !parent.contains(':')
}

/// Whether `r` is `parent`, one separator (`/` or `\\`), then `name`.
pub open spec fn joined_with_separator(parent: Seq<char>, name: Seq<char>, r: Seq<char>) -> bool {
    r == parent + seq!['/'] + name || r == parent + seq!['\\'] + name
}

/// `std::path::PathBuf::join` (as text): `name` placed under the folder `parent`. For a
/// relative `name` (see `relative_name`) and a `parent` without a Windows network, device or
/// verbatim prefix, the documentation of `PathBuf::push` gives `parent`, the platform's separator
/// when `parent` does not already end in one, then `name` as it is: no separator after an empty
/// parent or one that ends in `/`, and one separator after a parent that needs it
/// (`separator_needed`). Which separator (`/` or `\\`), the case of a parent ending in `\\` or
/// holding `:`, and the result for other arguments (an absolute `name` replaces `parent`,
/// verbatim paths are normalised) follow the platform's rules and are left unstated.
#[verifier::external_body]
fn join_path(parent: &str, name: &str) -> (r: String)
    ensures
        relative_name(name@) && !double_separator_start(parent@) ==> joined_under(
            parent@,
            name@,
            r@,
        ),
        relative_name(name@) && (parent@.len() == 0 || (parent@.last() == '/'
            && !double_separator_start(parent@))) ==> r@ == parent@ + name@,
        relative_name(name@) && separator_needed(parent@) && !double_separator_start(parent@)
            ==> joined_with_separator(parent@, name@, r@),
{
    std::path::PathBuf::from(parent).join(name).to_string_lossy().into_owned()
}

/// What the new mob dialog sends when it creates a mob or a patch: the path of the file, the
/// display name written into it, and whether it is a patch.
pub struct NewMobEvent {
    pub path: String,
    pub name: String,
    pub is_patch: bool,
}

/// The Create request of the new mob dialog (Create pressed, or Enter in the name field). For an
/// open mob dialog with a name that is not blank, the mob file `<name>.mob` (the typed name
/// without surrounding white space) is to be created under the dialog's folder with the title-case
/// display name; the file tree is then to be refreshed (`needs_refresh`) and the dialog closes.
/// Otherwise nothing happens.
pub fn create_new_mob(dialog: &mut NewMobDialog, needs_refresh: &mut bool) -> (r: Option<NewMobEvent>)
    ensures
        r is Some <==> (old(dialog).is_open && !old(dialog).is_patch && trimmed(
            old(dialog).file_name@,
        ).len() > 0),
        r is None ==> *final(dialog) == *old(dialog) && *final(needs_refresh) == *old(needs_refresh),
        r matches Some(e) ==> {
            let file = trimmed(old(dialog).file_name@) + seq!['.', 'm', 'o', 'b'];
            &&& e.name@ == display_name(trimmed(old(dialog).file_name@))
            &&& !e.is_patch
            &&& relative_name(file) && !double_separator_start(old(dialog).parent_path@)
                ==> joined_under(old(dialog).parent_path@, file, e.path@)
            &&& relative_name(file) && (old(dialog).parent_path@.len() == 0 || (
            old(dialog).parent_path@.last() == '/' && !double_separator_start(
                old(dialog).parent_path@,
            ))) ==> e.path@ == old(dialog).parent_path@ + file
            &&& relative_name(file) && separator_needed(old(dialog).parent_path@)
                && !double_separator_start(old(dialog).parent_path@) ==> joined_with_separator(
                old(dialog).parent_path@,
                file,
                e.path@,
            )
            &&& *final(needs_refresh)
            &&& !final(dialog).is_open
            &&& final(dialog).file_name@ == Seq::<char>::empty()
            &&& final(dialog).selected_mob_ref is None
            &&& final(dialog).parent_path == old(dialog).parent_path
            &&& final(dialog).is_patch == old(dialog).is_patch
            &&& final(dialog).error_message == old(dialog).error_message
        },
{
    if !dialog.is_open || dialog.is_patch {
        return None;
    }
    match new_mob_request(dialog.file_name.as_str()) {
        Some(q) => {
            let path = join_path(dialog.parent_path.as_str(), q.file_name.as_str());
            *needs_refresh = true;
            dialog.close();
            Some(NewMobEvent { path, name: q.display_name, is_patch: false })
        },
        None => None,
    }
}

/// Whether `names` holds a string equal to `s`.
pub open spec fn names_contain(names: Seq<String>, s: Seq<char>) -> bool {
    exists|i: int| 0 <= i < names.len() && (#[trigger] names[i])@ == s
}

/// Whether `names` holds a string equal to `s`.
pub fn contains_name(names: &Vec<String>, s: &str) -> (r: bool)
    ensures
        r == names_contain(names@, s@),
{
    let mut i: usize = 0;
    while i < names.len()
        invariant
            i <= names@.len(),
            forall|j: int| 0 <= j < i ==> (#[trigger] names@[j])@ != s@,
        decreases names@.len() - i,
    {
        if str_eq(names[i].as_str(), s) {
            assert(names@[i as int]@ == s@);
            return true;
        }
        i = i + 1;
    }
    false
}

/// Whether the new patch dialog offers to create a patch: a base mob is selected and no patch
/// exists for it yet.
pub fn patch_selection_valid(selected: &Option<String>, existing_patches: &Vec<String>) -> (r: bool)
    ensures
        r == (selected matches Some(s) && !names_contain(existing_patches@, s@)),
{
    match selected {
        Some(s) => !contains_name(existing_patches, s.as_str()),
        None => false,
    }
}

/// The patch file that a create request in the new patch dialog makes for the base mob
/// `mob_ref`: `mob_ref` with `.mobpatch` appended, named after the last part of `mob_ref`.
pub fn new_patch_request(mob_ref: &str) -> (r: NewMobRequest)
    ensures
        r.file_name@ == mob_ref@ + seq!['.', 'm', 'o', 'b', 'p', 'a', 't', 'c', 'h'],
        r.display_name@ == display_name(last_segment(mob_ref@)),
        r.is_patch,
{
    let mut f = mob_ref.to_owned();
    push_char(&mut f, '.');
    push_char(&mut f, 'm');
    push_char(&mut f, 'o');
    push_char(&mut f, 'b');
    push_char(&mut f, 'p');
    push_char(&mut f, 'a');
    push_char(&mut f, 't');
    push_char(&mut f, 'c');
    push_char(&mut f, 'h');
    assert(f@ =~= mob_ref@ + seq!['.', 'm', 'o', 'b', 'p', 'a', 't', 'c', 'h']);
    let base = last_path_segment(mob_ref);
    NewMobRequest { file_name: f, display_name: filename_to_display_name(base.as_str()), is_patch: true }
}

// ---------------------------------------------------------------------------------------------
// File names and paths
// ---------------------------------------------------------------------------------------------

/// The extension of mob files.
pub open spec fn mob_extension() -> Seq<char> {
    seq!['.', 'm', 'o', 'b']
}

/// The folder of the mob files in an asset path.
pub open spec fn mobs_folder() -> Seq<char> {
    seq!['m', 'o', 'b', 's', '/']
}

/// The mob reference of a file path, such as `xhitara/spitter` for
/// `assets/mobs/xhitara/spitter.mob`: what follows the first `mobs/`, without the `.mob` at the
/// end; nothing when there is no `mobs/` or the rest does not end in `.mob`.
pub open spec fn mob_ref_of(path: Seq<char>) -> Option<Seq<char>> {
    match first_occurrence(path, mobs_folder()) {
        Some(k) => {
            let rest = path.subrange(k + 5, path.len() as int);
            if has_suffix(rest, mob_extension()) {
                Some(rest.subrange(0, rest.len() - 4))
            } else {
                None
            }
        },
        None => None,
    }
}

/// Whether a file name is that of a mob (rather than a patch).
pub fn is_mob_file_name(name: &str) -> (r: bool)
    ensures
        r == has_suffix(name@, mob_extension()),
{
    let v = chars_of(name);
    let ext = vec!['.', 'm', 'o', 'b'];
    assert(ext@ =~= mob_extension());
    ends_with_chars(&v, &ext)
}

/// Whether a folder of the file tree is one of the two roots (`base` or `extended`), which
/// cannot be deleted.
pub fn is_root_directory_name(name: &str) -> (r: bool)
    ensures
        r == (name@ == seq!['b', 'a', 's', 'e'] || name@ == seq![
            'e',
            'x',
            't',
            'e',
            'n',
            'd',
            'e',
            'd',
        ]),
{
    let v = chars_of(name);
    let base = vec!['b', 'a', 's', 'e'];
    let extended = vec!['e', 'x', 't', 'e', 'n', 'd', 'e', 'd'];
    let is_base = v.len() == 4 && ends_with_chars(&v, &base);
    let is_extended = v.len() == 8 && ends_with_chars(&v, &extended);
    proof {
        assert(base@ =~= seq!['b', 'a', 's', 'e']);
        assert(extended@ =~= seq!['e', 'x', 't', 'e', 'n', 'd', 'e', 'd']);
        if v@.len() == 4 {
            assert(v@.subrange(0, 4) =~= v@);
        }
        if v@.len() == 8 {
            assert(v@.subrange(0, 8) =~= v@);
        }
    }
    is_base || is_extended
}

/// The mob reference of a file path (see `mob_ref_of`).
pub fn mob_ref_from_path(path: &str) -> (r: Option<String>)
    ensures
        match r {
            Some(m) => mob_ref_of(path@) == Some(m@),
            None => mob_ref_of(path@) is None,
        },
{
    let v = chars_of(path);
    let pat = vec!['m', 'o', 'b', 's', '/'];
    assert(pat@ =~= mobs_folder());
    match find_first(&v, &pat) {
        Some(k) => {
            let n = v.len();
            let rest = string_of(&v, k + 5, n);
            let rv = chars_of(rest.as_str());
            let ext = vec!['.', 'm', 'o', 'b'];
            assert(ext@ =~= mob_extension());
            if ends_with_chars(&rv, &ext) {
                let m = string_of(&rv, 0, rv.len() - 4);
                Some(m)
            } else {
                None
            }
        },
        None => None,
    }
}

/// Opens the new patch dialog from a mob file's menu: for the mob that the file's path refers
/// to, or with no mob selected when the path refers to none.
pub fn open_patch_dialog_for_file(dialog: &mut NewMobDialog, path: &str)
    ensures
        final(dialog).is_open,
        final(dialog).is_patch,
        final(dialog).parent_path@ == Seq::<char>::empty(),
        final(dialog).file_name@ == Seq::<char>::empty(),
        match mob_ref_of(path@) {
            Some(m) => {
                &&& final(dialog).selected_mob_ref matches Some(s) && s@ == m
                &&& final(dialog).error_message == old(dialog).error_message
            },
            None => {
                &&& final(dialog).selected_mob_ref is None
                &&& final(dialog).error_message is None
            },
        },
{
    match mob_ref_from_path(path) {
        Some(m) => dialog.open_patch_for_mob(m),
        None => dialog.open_patch(),
    }
}

// ---------------------------------------------------------------------------------------------
// Opening files
// ---------------------------------------------------------------------------------------------

/// The pieces of `s` between `/` that are neither empty nor `.`, read from the right; `cur` is
/// the piece being read.
pub open spec fn normal_pieces(s: Seq<char>, cur: Seq<char>) -> Seq<Seq<char>>
    decreases s.len(),
{
    if s.len() == 0 {
        if cur.len() == 0 || cur == seq!['.'] {
            Seq::empty()
        } else {
            seq![cur]
        }
    } else if s.last() == '/' {
        let rest = normal_pieces(s.drop_last(), Seq::empty());
        if cur.len() == 0 || cur == seq!['.'] {
            rest
        } else {
            rest.push(cur)
        }
    } else {
        normal_pieces(s.drop_last(), seq![s.last()] + cur)
    }
}

/// The components of a portable path, as `Path::components` yields them: the root (written
/// `/`) when the path begins with `/`, else the current folder (written `.`) when it begins with
/// `.` alone, then its pieces; repeated separators, a trailing separator and `.` in the middle
/// are no components.
pub open spec fn path_components(p: Seq<char>) -> Seq<Seq<char>> {
    let root = p.len() > 0 && p[0] == '/';
    let cur_dir = !root && p.len() > 0 && p[0] == '.' && (p.len() == 1 || p[1] == '/');
    (if root {
        seq![seq!['/']]
    } else if cur_dir {
        seq![seq!['.']]
    } else {
        Seq::empty()
    }) + normal_pieces(p, Seq::empty())
}

/// `std::path::Path`'s `==`: whether two paths have the same components. Equal texts are the
/// same path everywhere; for paths that every platform reads alike (`portable_path`) the
/// components are those of `path_components`. Other paths (Windows prefixes, `\\` as a
/// separator) compare by the platform's rules, which are left unstated.
#[verifier::external_body]
fn same_path(a: &str, b: &str) -> (r: bool)
    ensures
        a@ == b@ ==> r,
        portable_path(a@) && portable_path(b@) ==> r == (path_components(a@) == path_components(b@)),
{
    std::path::Path::new(a) == std::path::Path::new(b)
}

/// Whether the file being edited (`current`) is known to be the file `path` (`Some(true)`),
/// known to be another one (`Some(false)`), or left to the platform's path rules (`None`).
pub open spec fn same_file(current: Option<String>, path: Seq<char>) -> Option<bool> {
    match current {
        None => Some(false),
        Some(c) => if c@ == path {
            Some(true)
        } else if portable_path(c@) && portable_path(path) {
            Some(path_components(c@) == path_components(path))
        } else {
            None
        },
    }
}

/// Whether `same` agrees with what is known of the comparison.
pub open spec fn agrees(same: bool, known: Option<bool>) -> bool {
    match known {
        Some(b) => same == b,
        None => true,
    }
}

fn is_current_path(current: &Option<String>, path: &str) -> (r: bool)
    ensures
        agrees(r, same_file(*current, path@)),
{
    match current {
        Some(c) => same_path(c.as_str(), path),
        None => false,
    }
}

/// The effect of a click on the file `path`, given whether it is the file being edited.
pub open spec fn click_effect(
    same: bool,
    is_modified: bool,
    path: Seq<char>,
    before: UnsavedChangesDialog,
    after: UnsavedChangesDialog,
    load: Option<String>,
) -> bool {
    if same {
        load is None && after == before
    } else if is_modified {
        &&& load is None
        &&& after.is_open
        &&& after.pending_action matches Some(UnsavedAction::LoadFile(p)) && p@ == path
    } else {
        load matches Some(p) && p@ == path && after == before
    }
}

/// A click on the file at `path` in the file tree: the file becomes the tree's selection
/// (`selected`). Nothing more happens for the file already being edited (the same path by
/// components, as `Path` compares them); for another file, the unsaved-changes dialog opens
/// when the current document is modified, else the file is to be loaded (the returned path).
pub fn click_file(
    current: &Option<String>,
    is_modified: bool,
    path: &str,
    selected: &mut Option<String>,
    dialog: &mut UnsavedChangesDialog,
) -> (load: Option<String>)
    ensures
        *final(selected) matches Some(s) && s@ == path@,
        exists|same: bool|
            agrees(same, same_file(*current, path@)) && #[trigger] click_effect(
                same,
                is_modified,
                path@,
                *old(dialog),
                *final(dialog),
                load,
            ),
{
    *selected = Some(path.to_owned());
    let same = is_current_path(current, path);
    let ghost before = *dialog;
    let load = if same {
        None
    } else if is_modified {
        dialog.open(UnsavedAction::LoadFile(path.to_owned()));
        None
    } else {
        Some(path.to_owned())
    };
    assert(click_effect(same, is_modified, path@, before, *dialog, load));
    load
}

/// The effect of the Open entry of a file's menu, given whether the file is the one being
/// edited.
pub open spec fn open_effect(
    same: bool,
    is_modified: bool,
    path: Seq<char>,
    before: UnsavedChangesDialog,
    after: UnsavedChangesDialog,
    load: Option<String>,
) -> bool {
    if is_modified && !same {
        &&& load is None
        &&& after.is_open
        &&& after.pending_action matches Some(UnsavedAction::LoadFile(p)) && p@ == path
    } else {
        load matches Some(p) && p@ == path && after == before
    }
}

/// The Open entry of a file's menu: the unsaved-changes dialog opens when the document is
/// modified and the file is another one (by components, as `Path` compares them); otherwise the
/// file is (re)loaded.
pub fn open_file_from_menu(
    current: &Option<String>,
    is_modified: bool,
    path: &str,
    dialog: &mut UnsavedChangesDialog,
) -> (load: Option<String>)
    ensures
        exists|same: bool|
            agrees(same, same_file(*current, path@)) && #[trigger] open_effect(
                same,
                is_modified,
                path@,
                *old(dialog),
                *final(dialog),
                load,
            ),
{
    let same = is_current_path(current, path);
    let ghost before = *dialog;
    let load = if is_modified && !same {
        dialog.open(UnsavedAction::LoadFile(path.to_owned()));
        None
    } else {
        Some(path.to_owned())
    };
    assert(open_effect(same, is_modified, path@, before, *dialog, load));
    load
}

// ---------------------------------------------------------------------------------------------
// The unsaved-changes dialog
// ---------------------------------------------------------------------------------------------

/// A button of the unsaved-changes dialog.
pub enum UnsavedChoice {
    /// Save, then go on with the pending action ("Save & Continue" / "Save & Exit").
    SaveAndContinue,
    /// Go on without saving ("Discard Changes" / "Exit Without Saving").
    Discard,
    /// Keep editing.
    Cancel,
}

/// What the editor does after a choice in the unsaved-changes dialog.
pub struct UnsavedOutcome {
    /// Save the current document.
    pub save: bool,
    /// Leave the editor once the save has completed.
    pub exit_after_save: bool,
    /// Load this file.
    pub load: Option<String>,
    /// Leave the editor now.
    pub exit: bool,
}

/// Whether the dialog's pending action is leaving the editor.
pub open spec fn pending_exit(d: UnsavedChangesDialog) -> bool {
    d.pending_action matches Some(UnsavedAction::Exit)
}

/// The file that the dialog's pending action loads, if any.
pub open spec fn pending_load(d: UnsavedChangesDialog) -> Option<Seq<char>> {
    match d.pending_action {
        Some(UnsavedAction::LoadFile(p)) => Some(p@),
        _ => None,
    }
}

/// Whether the unsaved-changes dialog is about leaving the editor (its title and buttons say
/// so).
pub fn unsaved_dialog_is_exit(dialog: &UnsavedChangesDialog) -> (r: bool)
    ensures
        r == pending_exit(*dialog),
{
    match &dialog.pending_action {
        Some(UnsavedAction::Exit) => true,
        _ => false,
    }
}

/// Carries out the user's choice in the unsaved-changes dialog (`None`: no button was pressed).
/// Saving before leaving defers the exit until the save is done; saving before loading, and
/// discarding, go on with the pending action; every choice closes the dialog. A closed dialog
/// takes no choice.
pub fn resolve_unsaved_changes(dialog: &mut UnsavedChangesDialog, choice: Option<UnsavedChoice>) -> (r:
    UnsavedOutcome)
    ensures
        (!old(dialog).is_open || choice is None) ==> {
            &&& *final(dialog) == *old(dialog)
            &&& !r.save && !r.exit_after_save && !r.exit && r.load is None
        },
        old(dialog).is_open && choice is Some ==> {
            &&& !final(dialog).is_open
            &&& final(dialog).pending_action is None
        },
        old(dialog).is_open && choice == Some(UnsavedChoice::SaveAndContinue) ==> {
            &&& r.save
            &&& r.exit_after_save == pending_exit(*old(dialog))
            &&& !r.exit
            &&& match pending_load(*old(dialog)) {
                Some(p) => r.load matches Some(l) && l@ == p,
                None => r.load is None,
            }
        },
        old(dialog).is_open && choice == Some(UnsavedChoice::Discard) ==> {
            &&& !r.save
            &&& !r.exit_after_save
            &&& r.exit == pending_exit(*old(dialog))
            &&& match pending_load(*old(dialog)) {
                Some(p) => r.load matches Some(l) && l@ == p,
                None => r.load is None,
            }
        },
        old(dialog).is_open && choice == Some(UnsavedChoice::Cancel) ==> {
            &&& !r.save && !r.exit_after_save && !r.exit && r.load is None
        },
{
    let none = UnsavedOutcome { save: false, exit_after_save: false, load: None, exit: false };
    if !dialog.is_open {
        return none;
    }
    let is_exit = unsaved_dialog_is_exit(dialog);
    let load = match &dialog.pending_action {
        Some(UnsavedAction::LoadFile(p)) => Some(p.clone()),
        _ => None,
    };
    match choice {
        None => none,
        Some(UnsavedChoice::SaveAndContinue) => {
            dialog.close();
            if is_exit {
                UnsavedOutcome { save: true, exit_after_save: true, load: None, exit: false }
            } else {
                UnsavedOutcome { save: true, exit_after_save: false, load, exit: false }
            }
        },
        Some(UnsavedChoice::Discard) => {
            dialog.close();
            UnsavedOutcome { save: false, exit_after_save: false, load, exit: is_exit }
        },
        Some(UnsavedChoice::Cancel) => {
            dialog.close();
            none
        },
    }
}

// ---------------------------------------------------------------------------------------------
// The delete confirmations
// ---------------------------------------------------------------------------------------------

/// A button of a confirmation dialog.
pub enum ConfirmChoice {
    /// Go ahead ("Delete" / "Delete All").
    Confirm,
    /// Keep everything.
    Cancel,
}

/// Carries out the choice in the dialog that confirms deleting a file (`None`: no button was
/// pressed): confirming gives the path of the file to delete; either button closes the dialog.
/// A closed dialog takes no choice.
pub fn resolve_delete_dialog(state: &mut DeleteDialogState, choice: Option<ConfirmChoice>) -> (delete:
    Option<String>)
    ensures
        (!old(state).is_open || choice is None) ==> delete is None && *final(state) == *old(state),
        old(state).is_open && choice is Some ==> {
            &&& !final(state).is_open
            &&& final(state).file_path == old(state).file_path
            &&& final(state).file_name == old(state).file_name
        },
        old(state).is_open && choice == Some(ConfirmChoice::Confirm) ==> delete == Some(
            old(state).file_path,
        ),
        old(state).is_open && choice == Some(ConfirmChoice::Cancel) ==> delete is None,
{
    if !state.is_open {
        return None;
    }
    match choice {
        None => None,
        Some(ConfirmChoice::Confirm) => {
            let path = state.file_path.clone();
            state.close();
            Some(path)
        },
        Some(ConfirmChoice::Cancel) => {
            state.close();
            None
        },
    }
}

/// Carries out the choice in the dialog that confirms deleting a directory (`None`: no button
/// was pressed): confirming gives the path of the directory to delete; either button closes the
/// dialog and forgets the listed files. A closed dialog takes no choice.
pub fn resolve_delete_directory_dialog(
    state: &mut DeleteDirectoryDialogState,
    choice: Option<ConfirmChoice>,
) -> (delete: Option<String>)
    ensures
        (!old(state).is_open || choice is None) ==> delete is None && *final(state) == *old(state),
        old(state).is_open && choice is Some ==> {
            &&& !final(state).is_open
            &&& final(state).contained_files@.len() == 0
            &&& final(state).dir_path == old(state).dir_path
            &&& final(state).dir_name == old(state).dir_name
        },
        old(state).is_open && choice == Some(ConfirmChoice::Confirm) ==> delete == Some(
            old(state).dir_path,
        ),
        old(state).is_open && choice == Some(ConfirmChoice::Cancel) ==> delete is None,
{
    if !state.is_open {
        return None;
    }
    match choice {
        None => None,
        Some(ConfirmChoice::Confirm) => {
            let path = state.dir_path.clone();
            state.close();
            Some(path)
        },
        Some(ConfirmChoice::Cancel) => {
            state.close();
            None
        },
    }
}

} // verus!
