//! Issue identifiers.
//!
//! An identifier has the form `prefix-hash`, optionally followed by child
//! segments `.N` for hierarchical issues (`bd-abc.1.2`):
//! - the prefix is one or more lowercase ASCII letters or digits;
//! - the hash is 1 to 40 lowercase ASCII letters or digits;
//! - each child segment is a dot followed by one or more ASCII digits.

use vstd::prelude::*;
use crate::text::{chars_of, is_ascii_digit, is_ascii_lower};

verus! {

/// Longest identifier, in bytes, that issue validation accepts.
pub const MAX_ID_LENGTH: usize = 100;

/// Fewest characters in the hash part of an identifier.
pub const MIN_HASH_LENGTH: usize = 1;

/// Most characters in the hash part of an identifier.
pub const MAX_HASH_LENGTH: usize = 40;

pub open spec fn lower_or_digit(c: char) -> bool {
    is_ascii_lower(c) || is_ascii_digit(c)
}

/// `u` is a (possibly empty) sequence of child segments `.N`.
pub open spec fn valid_child_path(u: Seq<char>) -> bool {
    &&& forall|i: int| 0 <= i < u.len() ==> (#[trigger] u[i] == '.' || is_ascii_digit(u[i]))
    &&& u.len() > 0 ==> u[0] == '.' && u.last() != '.'
    &&& forall|i: int| 0 <= i < u.len() - 1 ==> !(#[trigger] u[i] == '.' && u[i + 1] == '.')
}

/// `t` is a hash of `h` characters followed by a child path.
pub open spec fn hash_split(t: Seq<char>, h: int) -> bool {
    &&& MIN_HASH_LENGTH <= h <= MAX_HASH_LENGTH
    &&& h <= t.len()
    &&& forall|i: int| 0 <= i < h ==> lower_or_digit(#[trigger] t[i])
    &&& (h == t.len() || t[h] == '.')
    &&& valid_child_path(t.subrange(h, t.len() as int))
}

/// `s` is a prefix of `d` characters, a dash, then a hash with its child path.
pub open spec fn id_split(s: Seq<char>, d: int) -> bool {
    &&& 0 < d < s.len()
    &&& s[d] == '-'
    &&& forall|i: int| 0 <= i < d ==> lower_or_digit(#[trigger] s[i])
    &&& exists|h: int| #[trigger] hash_split(s.subrange(d + 1, s.len() as int), h)
}

/// `s` has the `prefix-hash[.N]*` form.
pub open spec fn valid_id(s: Seq<char>) -> bool {
    exists|d: int| id_split(s, d)
}

fn is_lower_or_digit(c: char) -> (r: bool)
    ensures
        r == lower_or_digit(c),
{
    ('a' <= c && c <= 'z') || ('0' <= c && c <= '9')
}

/// Whether `v[lo..hi]` is a valid child path.
fn check_child_path(v: &Vec<char>, lo: usize, hi: usize) -> (r: bool)
    requires
        lo <= hi <= v.len(),
    ensures
        r == valid_child_path(v@.subrange(lo as int, hi as int)),
{
    let ghost u = v@.subrange(lo as int, hi as int);
    if lo == hi {
        return true;
    }
    if v[lo] != '.' || v[hi - 1] == '.' {
        return false;
    }
    let mut i = lo;
    while i < hi
        invariant
            lo <= i <= hi <= v.len(),
            u == v@.subrange(lo as int, hi as int),
            forall|k: int| 0 <= k < i - lo ==> (#[trigger] u[k] == '.' || is_ascii_digit(u[k])),
            forall|k: int| 0 <= k < i - lo && k < u.len() - 1 ==> !(#[trigger] u[k] == '.' && u[k + 1] == '.'),
        decreases hi - i,
    {
        let c = v[i];
        if !(c == '.' || ('0' <= c && c <= '9')) {
            assert(!(u[i - lo] == '.' || is_ascii_digit(u[i - lo])));
            return false;
        }
        if c == '.' && i + 1 < hi && v[i + 1] == '.' {
            assert(u[i - lo] == '.' && u[i - lo + 1] == '.');
            return false;
        }
        i += 1;
    }
    true
}

/// Whether `id` has the `prefix-hash[.N]*` form (see the module documentation).
pub fn is_valid_id_format(id: &str) -> (r: bool)
    ensures
        r == valid_id(id@),
{
    let v = chars_of(id);
    let n = v.len();
    let ghost s = v@;
    let mut d: usize = 0;
    while d < n && is_lower_or_digit(v[d])
        invariant
            d <= n == v.len(),
            s == v@,
            forall|i: int| 0 <= i < d ==> lower_or_digit(#[trigger] s[i]),
        decreases n - d,
    {
        d += 1;
    }
    // `d` is the first position that is not a lowercase letter or digit, so
    // it is the only possible position of the dash.
    if d == 0 || d >= n || v[d] != '-' {
        proof {
            if valid_id(s) {
                let d2 = choose|d2: int| id_split(s, d2);
                if d2 < d {
                    assert(lower_or_digit(s[d2]));
                } else if d2 > d {
                    assert(lower_or_digit(s[d as int]));
                }
            }
        }
        return false;
    }
    let h0 = d + 1;
    let ghost t = s.subrange(h0 as int, n as int);
    let mut h = h0;
    while h < n && is_lower_or_digit(v[h])
        invariant
            h0 <= h <= n == v.len(),
            s == v@,
            t == s.subrange(h0 as int, n as int),
            forall|i: int| 0 <= i < h - h0 ==> lower_or_digit(#[trigger] t[i]),
        decreases n - h,
    {
        h += 1;
    }
    let hl = h - h0;
    proof {
        assert forall|d2: int| #[trigger] id_split(s, d2) implies d2 == d by {
            if d2 < d {
                assert(lower_or_digit(s[d2]));
            } else if d2 > d {
                assert(lower_or_digit(s[d as int]));
            }
        }
        // The hash ends at the first character that is not a lowercase letter
        // or digit.
        assert forall|h2: int| #[trigger] hash_split(t, h2) implies h2 == hl by {
            if h2 < hl {
                assert(lower_or_digit(t[h2]));
            } else if h2 > hl {
                assert(lower_or_digit(t[hl as int]));
            }
        }
    }
    if hl < MIN_HASH_LENGTH || hl > MAX_HASH_LENGTH || (h < n && v[h] != '.') {
        proof {
            if valid_id(s) {
                let d2 = choose|d2: int| id_split(s, d2);
                let h2 = choose|h2: int| hash_split(t, h2);
            }
        }
        return false;
    }
    let r = check_child_path(&v, h, n);
    proof {
        assert(t.subrange(hl as int, t.len() as int) =~= s.subrange(h as int, n as int));
        if r {
            assert(hash_split(t, hl as int));
            assert(id_split(s, d as int));
        } else if valid_id(s) {
            let d2 = choose|d2: int| id_split(s, d2);
            let h2 = choose|h2: int| hash_split(t, h2);
        }
    }
    r
}

} // verus!
