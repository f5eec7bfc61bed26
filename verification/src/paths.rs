//! Path text, read the way `std::path::Path` reads it on Unix: `/` separates
//! components, a leading `/` is the root, empty components and `.` after the
//! first position are skipped, and a leading `.` of a relative path is kept as
//! the current-directory component.

use vstd::prelude::*;
use crate::text::{char_views, split_chars, split_on};

verus! {

/// The root component; no other component contains a `/`.
pub open spec fn root_component() -> Seq<char> {
    seq!['/']
}

/// The `/`-separated pieces of `s`, empty ones included.
pub open spec fn split_slash(s: Seq<char>) -> Seq<Seq<char>> {
    split_on(s, '/')
}

/// Whether the piece at index `k` of a split path is a component.
pub open spec fn is_kept_piece(piece: Seq<char>, k: int) -> bool {
    piece.len() > 0 && (piece != seq!['.'] || k == 0)
}

/// The pieces of a split path that are components.
pub open spec fn kept_pieces(raw: Seq<Seq<char>>) -> Seq<Seq<char>>
    decreases raw.len(),
{
    if raw.len() == 0 {
        Seq::empty()
    } else {
        let p = kept_pieces(raw.drop_last());
        if is_kept_piece(raw.last(), raw.len() - 1) {
            p.push(raw.last())
        } else {
            p
        }
    }
}

/// The components of the path text `s`.
pub open spec fn path_components(s: Seq<char>) -> Seq<Seq<char>> {
    let root = if s.len() > 0 && s[0] == '/' {
        seq![root_component()]
    } else {
        Seq::empty()
    };
    root + kept_pieces(split_slash(s))
}

/// `Path::starts_with`: the components of `base` begin the components of `p`.
pub open spec fn path_starts_with(p: Seq<char>, base: Seq<char>) -> bool {
    let cp = path_components(p);
    let cb = path_components(base);
    cb.len() <= cp.len() && cp.subrange(0, cb.len() as int) == cb
}

fn is_single_dot(piece: &Vec<char>) -> (r: bool)
    ensures
        r == (piece@ == seq!['.']),
{
    if piece.len() == 1 && piece[0] == '.' {
        assert(piece@ =~= seq!['.']);
        true
    } else {
        false
    }
}

/// The components of the path text `v`.
pub fn path_components_exec(v: &Vec<char>) -> (r: Vec<Vec<char>>)
    ensures
        char_views(r@) == path_components(v@),
{
    let raw = split_chars(v, '/');
    let mut r: Vec<Vec<char>> = Vec::new();
    if v.len() > 0 && v[0] == '/' {
        let mut root: Vec<char> = Vec::new();
        root.push('/');
        r.push(root);
        assert(char_views(r@) =~= seq![root_component()]);
    } else {
        assert(char_views(r@) =~= Seq::<Seq<char>>::empty());
    }
    let ghost base = char_views(r@);
    let ghost rv = char_views(raw@);
    let mut k: usize = 0;
    assert(rv.subrange(0, 0) =~= Seq::<Seq<char>>::empty());
    while k < raw.len()
        invariant
            k <= raw.len(),
            rv == char_views(raw@),
            char_views(r@) == base + kept_pieces(rv.subrange(0, k as int)),
        decreases raw.len() - k,
    {
        assert(rv.subrange(0, k + 1).drop_last() =~= rv.subrange(0, k as int));
        let piece = &raw[k];
        assert(piece@ == rv[k as int]);
        assert(rv.subrange(0, k + 1).last() == rv[k as int]);
        assert(rv.subrange(0, k + 1).len() - 1 == k);
        if piece.len() > 0 && (!is_single_dot(piece) || k == 0) {
            let ghost before = char_views(r@);
            let copy = copy_chars(piece);
            r.push(copy);
            assert(char_views(r@) =~= before.push(rv[k as int]));
            assert(char_views(r@) =~= base + kept_pieces(rv.subrange(0, k + 1)));
        } else {
            assert(char_views(r@) =~= base + kept_pieces(rv.subrange(0, k + 1)));
        }
        k += 1;
    }
    assert(rv.subrange(0, raw.len() as int) =~= rv);
    r
}

fn copy_chars(v: &Vec<char>) -> (r: Vec<char>)
    ensures
        r@ == v@,
{
    let mut r: Vec<char> = Vec::new();
    let mut i: usize = 0;
    while i < v.len()
        invariant
            i <= v.len(),
            r@ == v@.subrange(0, i as int),
        decreases v.len() - i,
    {
        r.push(v[i]);
        assert(r@ =~= v@.subrange(0, i + 1));
        i += 1;
    }
    assert(r@ =~= v@);
    r
}

fn same_chars(a: &Vec<char>, b: &Vec<char>) -> (r: bool)
    ensures
        r == (a@ == b@),
{
    if a.len() != b.len() {
        return false;
    }
    let mut i: usize = 0;
    while i < a.len()
        invariant
            i <= a.len() == b.len(),
            forall|j: int| 0 <= j < i ==> a@[j] == b@[j],
        decreases a.len() - i,
    {
        if a[i] != b[i] {
            return false;
        }
        i += 1;
    }
    assert(a@ =~= b@);
    true
}

/// Raw path bytes as characters, one character per byte (`U+0000` to
/// `U+00FF`), so that comparing the characters compares the bytes. The bytes
/// of `/` and `.` are those of the characters `/` and `.`, and no byte of a
/// multi-byte UTF-8 character is either, so the components of the image are
/// the images of the byte components.
pub open spec fn byte_chars(b: Seq<u8>) -> Seq<char> {
    b.map_values(|x: u8| x as char)
}

/// `Path::starts_with` on raw path bytes, as Unix reads them.
pub open spec fn bytes_path_starts_with(p: Seq<u8>, base: Seq<u8>) -> bool {
    path_starts_with(byte_chars(p), byte_chars(base))
}

fn byte_chars_exec(b: &Vec<u8>) -> (r: Vec<char>)
    ensures
        r@ == byte_chars(b@),
{
    let mut r: Vec<char> = Vec::new();
    let mut i: usize = 0;
    while i < b.len()
        invariant
            i <= b.len(),
            r@ == byte_chars(b@.subrange(0, i as int)),
        decreases b.len() - i,
    {
        r.push(b[i] as char);
        assert(r@ =~= byte_chars(b@.subrange(0, i + 1)));
        i += 1;
    }
    assert(b@.subrange(0, b.len() as int) =~= b@);
    r
}

/// `Path::starts_with` on raw path bytes (see [`bytes_path_starts_with`]).
pub fn path_bytes_starts_with(p: &Vec<u8>, base: &Vec<u8>) -> (r: bool)
    ensures
        r == bytes_path_starts_with(p@, base@),
{
    let pv = byte_chars_exec(p);
    let bv = byte_chars_exec(base);
    chars_path_starts_with(&pv, &bv)
}

fn chars_path_starts_with(pv: &Vec<char>, bv: &Vec<char>) -> (r: bool)
    ensures
        r == path_starts_with(pv@, bv@),
{
    let ghost p = pv@;
    let ghost base = bv@;
    let cp = path_components_exec(pv);
    let cb = path_components_exec(bv);
    let ghost vp = char_views(cp@);
    let ghost vb = char_views(cb@);
    assert(vp.len() == cp.len() && vb.len() == cb.len());
    if cb.len() > cp.len() {
        return false;
    }
    let mut i: usize = 0;
    while i < cb.len()
        invariant
            i <= cb.len() <= cp.len(),
            vp == char_views(cp@),
            vb == char_views(cb@),
            p == pv@,
            base == bv@,
            vp == path_components(p),
            vb == path_components(base),
            forall|j: int| 0 <= j < i ==> vp[j] == vb[j],
        decreases cb.len() - i,
    {
        if !same_chars(&cp[i], &cb[i]) {
            assert(vp[i as int] == cp@[i as int]@ && vb[i as int] == cb@[i as int]@);
            assert(vp[i as int] != vb[i as int]);
            assert(vp.subrange(0, vb.len() as int)[i as int] == vp[i as int]);
            assert(vp.subrange(0, vb.len() as int) != vb);
            return false;
        }
        i += 1;
    }
    assert(vp.subrange(0, vb.len() as int) =~= vb);
    true
}

} // verus!
