//! Names and texts that the editor shows or builds: file listings, display names, truncated
//! names, mob references and checks on names typed by the user.

use vstd::prelude::*;
use vstd::string::StringSliceAdditionalSpecFns;
use vstd::string::StrSliceExecFns;
use vstd::utf8::{decode_utf8, encode_utf8, is_char_boundary};

use crate::document::str_eq;

verus! {

broadcast use vstd::seq_lib::group_to_multiset_ensures, vstd::multiset::group_multiset_axioms;

/// Lexicographic order of byte strings (the order of Rust strings).
pub open spec fn bytes_le(a: Seq<u8>, b: Seq<u8>) -> bool
    decreases a.len(),
{
    if a.len() == 0 {
        true
    } else if b.len() == 0 {
        false
    } else if a[0] != b[0] {
        a[0] < b[0]
    } else {
        bytes_le(a.drop_first(), b.drop_first())
    }
}

/// Any two byte strings are ordered one way or the other.
pub proof fn lemma_bytes_le_total(a: Seq<u8>, b: Seq<u8>)
    ensures
        bytes_le(a, b) || bytes_le(b, a),
    decreases a.len(),
{
    if a.len() > 0 && b.len() > 0 && a[0] == b[0] {
        lemma_bytes_le_total(a.drop_first(), b.drop_first());
    }
}

/// The order of byte strings is transitive.
pub proof fn lemma_bytes_le_trans(a: Seq<u8>, b: Seq<u8>, c: Seq<u8>)
    requires
        bytes_le(a, b),
        bytes_le(b, c),
    ensures
        bytes_le(a, c),
    decreases a.len(),
{
    if a.len() > 0 && b.len() > 0 && c.len() > 0 && a[0] == b[0] && b[0] == c[0] {
        lemma_bytes_le_trans(a.drop_first(), b.drop_first(), c.drop_first());
    }
}

/// The UTF-8 bytes of a string.
pub open spec fn str_bytes(s: String) -> Seq<u8> {
    encode_utf8(s@)
}

/// Whether a list of strings is in byte order.
pub open spec fn sorted_by_bytes(s: Seq<String>) -> bool {
    forall|i: int, j: int| 0 <= i < j < s.len() ==> bytes_le(str_bytes(#[trigger] s[i]), str_bytes(#[trigger] s[j]))
}

/// Whether `a` comes before or together with `b` in byte order.
pub fn str_le(a: &str, b: &str) -> (r: bool)
    ensures
        r == bytes_le(a.spec_bytes(), b.spec_bytes()),
{
    let x = a.as_bytes();
    let y = b.as_bytes();
    let mut i: usize = 0;
    assert(x@.skip(0) =~= x@);
    assert(y@.skip(0) =~= y@);
    while i < x.len() && i < y.len()
        invariant
            i <= x@.len(),
            i <= y@.len(),
            x@ == a.spec_bytes(),
            y@ == b.spec_bytes(),
            forall|k: int| 0 <= k < i ==> x@[k] == y@[k],
            bytes_le(x@, y@) == bytes_le(x@.skip(i as int), y@.skip(i as int)),
        decreases x@.len() - i,
    {
        assert(x@.skip(i as int).drop_first() =~= x@.skip(i + 1));
        assert(y@.skip(i as int).drop_first() =~= y@.skip(i + 1));
        if x[i] != y[i] {
            return x[i] < y[i];
        }
        i = i + 1;
    }
    if i == x.len() {
        assert(x@.skip(i as int).len() == 0);
    } else {
        assert(y@.skip(i as int).len() == 0);
        assert(x@.skip(i as int).len() > 0);
    }
    i == x.len()
}

/// The strings of `names`, sorted in byte order.
pub fn sort_names(names: Vec<String>) -> (r: Vec<String>)
    ensures
        r@.to_multiset() == names@.to_multiset(),
        sorted_by_bytes(r@),
{
    let mut out: Vec<String> = Vec::new();
    let mut rest = names;
    let ghost all = rest@;
    while rest.len() > 0
        invariant
            out@.to_multiset().add(rest@.to_multiset()) == all.to_multiset(),
            sorted_by_bytes(out@),
        decreases rest@.len(),
    {
        let ghost r0 = rest@;
        let x = rest.pop().unwrap();
        assert(r0 =~= rest@.push(x));
        let mut p: usize = 0;
        while p < out.len()
            invariant
                p <= out@.len(),
                forall|k: int| 0 <= k < p ==> bytes_le(str_bytes(#[trigger] out@[k]), str_bytes(x)),
            ensures
                p <= out@.len(),
                forall|k: int| 0 <= k < p ==> bytes_le(str_bytes(#[trigger] out@[k]), str_bytes(x)),
                p < out@.len() ==> !bytes_le(str_bytes(out@[p as int]), str_bytes(x)),
            decreases out@.len() - p,
        {
            if !str_le(out[p].as_str(), x.as_str()) {
                break;
            }
            p = p + 1;
        }
        let ghost o0 = out@;
        proof {
            if p < o0.len() {
                lemma_bytes_le_total(str_bytes(o0[p as int]), str_bytes(x));
            }
        }
        out.insert(p, x);
        proof {
            assert(out@.remove(p as int) =~= o0);
            assert(out@.to_multiset() =~= o0.to_multiset().insert(x)) by {
                assert(out@.to_multiset().remove(out@[p as int]) =~= o0.to_multiset());
                assert(out@.contains(x));
            }
            assert forall|i: int, j: int| 0 <= i < j < out@.len() implies bytes_le(
                str_bytes(#[trigger] out@[i]),
                str_bytes(#[trigger] out@[j]),
            ) by {
                if j < p {
                    assert(out@[i] == o0[i] && out@[j] == o0[j]);
                } else if j == p {
                    assert(out@[i] == o0[i]);
                } else if i == p {
                    assert(out@[j] == o0[j - 1]);
                    if j - 1 > p {
                        lemma_bytes_le_trans(str_bytes(x), str_bytes(o0[p as int]), str_bytes(o0[j - 1]));
                    }
                } else if i < p {
                    assert(out@[i] == o0[i] && out@[j] == o0[j - 1]);
                } else {
                    assert(out@[i] == o0[i - 1] && out@[j] == o0[j - 1]);
                }
            }
        }
    }
    proof {
        assert(rest@ =~= Seq::<String>::empty());
        assert(out@.to_multiset() =~= all.to_multiset());
    }
    out
}

// ---------------------------------------------------------------------------------------------
// Truncating names for display
// ---------------------------------------------------------------------------------------------

/// The position of the last `.` byte, if any.
pub open spec fn last_dot(b: Seq<u8>) -> Option<int>
    decreases b.len(),
{
    if b.len() == 0 {
        None
    } else if b.last() == 46 {
        Some(b.len() - 1)
    } else {
        last_dot(b.drop_last())
    }
}

/// `a - b`, or zero when `b` is larger.
pub open spec fn sat_sub(a: int, b: int) -> int {
    if a >= b {
        a - b
    } else {
        0
    }
}

/// Where a name of bytes `b` that is longer than `max_len` is cut, and the position of the
/// extension that is kept after the cut, if one is.
pub open spec fn truncate_plan(b: Seq<u8>, max_len: int) -> (int, Option<int>) {
    match last_dot(b) {
        Some(d) => {
            let available = sat_sub(max_len, (b.len() - d) + 2);
            if available > 3 {
                (available, Some(d))
            } else {
                (sat_sub(max_len, 3), None)
            }
        },
        None => (sat_sub(max_len, 3), None),
    }
}

/// Whether truncating a name of bytes `b` to `max_len` cuts it at a character boundary.
pub open spec fn truncate_cut_ok(b: Seq<u8>, max_len: int) -> bool {
    b.len() > max_len ==> is_char_boundary(b, truncate_plan(b, max_len).0)
}

/// A name of bytes `b` truncated for display to about `max_len` bytes: the start of the name,
/// then `..` and the extension when there is room for more than three bytes of the start,
/// else `...`.
pub open spec fn truncated(b: Seq<u8>, max_len: int) -> Seq<char> {
    if b.len() <= max_len {
        decode_utf8(b)
    } else {
        let (cut, ext) = truncate_plan(b, max_len);
        match ext {
            Some(d) => decode_utf8(b.subrange(0, cut)) + ".."@ + decode_utf8(b.subrange(d, b.len() as int)),
            None => decode_utf8(b.subrange(0, cut)) + "..."@,
        }
    }
}

proof fn lemma_last_dot_found(b: Seq<u8>, k: int)
    requires
        0 <= k < b.len(),
        b[k] == 46,
        forall|j: int| k < j < b.len() ==> b[j] != 46,
    ensures
        last_dot(b) == Some(k),
    decreases b.len(),
{
    if k < b.len() - 1 {
        lemma_last_dot_found(b.drop_last(), k);
    }
}

proof fn lemma_last_dot_none(b: Seq<u8>)
    requires
        forall|j: int| 0 <= j < b.len() ==> b[j] != 46,
    ensures
        last_dot(b) is None,
    decreases b.len(),
{
    if b.len() > 0 {
        lemma_last_dot_none(b.drop_last());
    }
}

/// The last `.` of `s`, as a byte position.
fn rfind_dot(s: &str) -> (r: Option<usize>)
    ensures
        r matches Some(d) ==> d < s.spec_bytes().len() && s.spec_bytes()[d as int] == 46,
        match r {
            Some(d) => last_dot(s.spec_bytes()) == Some(d as int),
            None => last_dot(s.spec_bytes()) is None,
        },
{
    let b = s.as_bytes();
    let mut i = b.len();
    while i > 0
        invariant
            i <= b@.len(),
            b@ == s.spec_bytes(),
            forall|j: int| i <= j < b@.len() ==> b@[j] != 46,
        decreases i,
    {
        if b[i - 1] == 46 {
            proof {
                lemma_last_dot_found(b@, i - 1);
            }
            return Some(i - 1);
        }
        i = i - 1;
    }
    proof {
        lemma_last_dot_none(b@);
    }
    None
}

/// The number of bytes of `s`.
fn byte_len(s: &str) -> (n: usize)
    ensures
        n == s.spec_bytes().len(),
{
    s.as_bytes().len()
}

/// The characters of the bytes `[from, to)` of `s`, cut at character boundaries.
fn byte_slice(s: &str, from: usize, to: usize) -> (r: String)
    requires
        from <= to <= s.spec_bytes().len(),
        is_char_boundary(s.spec_bytes(), from as int),
        is_char_boundary(s.spec_bytes(), to as int),
    ensures
        r@ == decode_utf8(s.spec_bytes().subrange(from as int, to as int)),
{
    broadcast use vstd::utf8::encode_utf8_decode_utf8, vstd::utf8::encode_utf8_valid_utf8,
        vstd::utf8::valid_utf8_split;

    let (head, _) = s.split_at(to);
    assert(decode_utf8(encode_utf8(head@)) == head@);
    assert(head.spec_bytes() =~= s.spec_bytes().subrange(0, to as int));
    proof {
        assert(vstd::utf8::valid_utf8(head.spec_bytes()));
        assert(s.spec_bytes().subrange(0, to as int).subrange(0, from as int) =~= s.spec_bytes().subrange(0, from as int));
        vstd::utf8::is_char_boundary_start_end_of_seq(head.spec_bytes());
        assert(is_char_boundary(head.spec_bytes(), from as int)) by {
            if from < to {
                vstd::utf8::is_char_boundary_iff_not_is_continuation_byte(s.spec_bytes(), from as int);
                vstd::utf8::is_char_boundary_iff_not_is_continuation_byte(head.spec_bytes(), from as int);
            }
        }
    }
    let (_, tail) = head.split_at(from);
    assert(decode_utf8(encode_utf8(tail@)) == tail@);
    assert(tail.spec_bytes() =~= s.spec_bytes().subrange(from as int, to as int));
    tail.to_owned()
}

/// A filename shortened for display so that its extension stays visible.
pub fn truncate_filename(name: &str, max_len: usize) -> (r: String)
    requires
        truncate_cut_ok(name.spec_bytes(), max_len as int),
    ensures
        r@ == truncated(name.spec_bytes(), max_len as int),
{
    broadcast use vstd::utf8::encode_utf8_decode_utf8, vstd::utf8::encode_utf8_valid_utf8;

    let ghost b = name.spec_bytes();
    assert(decode_utf8(encode_utf8(name@)) == name@);
    proof {
        vstd::utf8::is_char_boundary_start_end_of_seq(b);
    }
    let len = byte_len(name);
    if len <= max_len {
        return name.to_owned();
    }
    let cut = match rfind_dot(name) {
        Some(d) => {
            let ext_len = len - d;
            let available = max_len.saturating_sub(ext_len).saturating_sub(2);
            if available > 3 {
                assert(truncate_plan(b, max_len as int) == (available as int, Some(d as int)));
                proof {
                    assert(vstd::utf8::valid_utf8(b));
                    vstd::utf8::is_char_boundary_iff_not_is_continuation_byte(b, d as int);
                }
                let mut r = byte_slice(name, 0, available);
                r.append("..");
                let ext = byte_slice(name, d, len);
                r.append(ext.as_str());
                return r;
            }
            max_len.saturating_sub(3)
        },
        None => max_len.saturating_sub(3),
    };
    let mut r = byte_slice(name, 0, cut);
    r.append("...");
    r
}

/// The start of a log message for the collapsed status bar: messages longer than 60 bytes
/// keep their first 57 bytes and end in `...`.
pub open spec fn log_preview(b: Seq<u8>) -> Seq<char> {
    if b.len() > 60 {
        decode_utf8(b.subrange(0, 57)) + "..."@
    } else {
        decode_utf8(b)
    }
}

/// Shortens a log message for the collapsed status bar.
pub fn truncate_log_text(text: &str) -> (r: String)
    requires
        text.spec_bytes().len() > 60 ==> is_char_boundary(text.spec_bytes(), 57),
    ensures
        r@ == log_preview(text.spec_bytes()),
{
    broadcast use vstd::utf8::encode_utf8_decode_utf8, vstd::utf8::encode_utf8_valid_utf8;

    assert(decode_utf8(encode_utf8(text@)) == text@);
    proof {
        vstd::utf8::is_char_boundary_start_end_of_seq(text.spec_bytes());
    }
    if byte_len(text) > 60 {
        let mut r = byte_slice(text, 0, 57);
        r.append("...");
        r
    } else {
        text.to_owned()
    }
}

/// The end of a file path for the status bar: paths longer than 40 bytes show `...` and
/// their last 37 bytes.
pub open spec fn path_preview(b: Seq<u8>) -> Seq<char> {
    if b.len() > 40 {
        "..."@ + decode_utf8(b.subrange(b.len() - 37, b.len() as int))
    } else {
        decode_utf8(b)
    }
}

/// Shortens a file path for the status bar.
pub fn truncate_path_display(path: &str) -> (r: String)
    requires
        path.spec_bytes().len() > 40 ==> is_char_boundary(
            path.spec_bytes(),
            path.spec_bytes().len() - 37,
        ),
    ensures
        r@ == path_preview(path.spec_bytes()),
{
    broadcast use vstd::utf8::encode_utf8_decode_utf8, vstd::utf8::encode_utf8_valid_utf8;

    assert(decode_utf8(encode_utf8(path@)) == path@);
    proof {
        vstd::utf8::is_char_boundary_start_end_of_seq(path.spec_bytes());
    }
    let len = byte_len(path);
    if len > 40 {
        let tail = byte_slice(path, len - 37, len);
        let mut r = "...".to_owned();
        r.append(tail.as_str());
        r
    } else {
        path.to_owned()
    }
}

} // verus!
