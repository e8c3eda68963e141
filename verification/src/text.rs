//! Byte-level text utilities: ASCII case folding, substring search and
//! equality. The discovery logic matches process names, file names and
//! diagnostic-tool output as UTF-8 byte sequences; these are the primitives
//! it is built on.

use vstd::prelude::*;
use vstd::slice::slice_subrange;
use vstd::string::*;

verus! {

/// ASCII lower-casing of a single byte; bytes outside `A`..`Z` are unchanged.
pub open spec fn lower_byte(b: u8) -> u8 {
    if 65 <= b && b <= 90 {
        (b + 32) as u8
    } else {
        b
    }
}

/// ASCII lower-casing of a byte sequence.
pub open spec fn lower_bytes(s: Seq<u8>) -> Seq<u8> {
    s.map_values(|b: u8| lower_byte(b))
}

/// `needle` occurs as a contiguous run of `hay` starting at index `i`.
pub open spec fn matches_at(hay: Seq<u8>, needle: Seq<u8>, i: int) -> bool {
    0 <= i && i + needle.len() <= hay.len() && hay.subrange(i, i + needle.len() as int)
        == needle
}

/// `needle` occurs somewhere inside `hay`.
pub open spec fn contains_seq(hay: Seq<u8>, needle: Seq<u8>) -> bool {
    exists|i: int| matches_at(hay, needle, i)
}

/// Lower-case one byte, ASCII-only.
pub fn to_lower(b: u8) -> (r: u8)
    ensures
        r == lower_byte(b),
{
    if 65 <= b && b <= 90 {
        b + 32
    } else {
        b
    }
}

/// Lower-case a byte string, ASCII-only.
pub fn lower_vec(s: &[u8]) -> (r: Vec<u8>)
    ensures
        r@ == lower_bytes(s@),
{
    let mut r: Vec<u8> = Vec::new();
    let mut i: usize = 0;
    while i < s.len()
        invariant
            i <= s@.len(),
            r@ == lower_bytes(s@.take(i as int)),
        decreases s@.len() - i,
    {
        r.push(to_lower(s[i]));
        i = i + 1;
        proof {
            assert(lower_bytes(s@.take(i as int)) =~= lower_bytes(s@.take(i - 1)).push(
                lower_byte(s@[i - 1]),
            ));
        }
    }
    proof {
        assert(s@.take(s@.len() as int) =~= s@);
    }
    r
}

/// Whether `needle` matches `hay` at position `i`.
fn matches_prefix_at(hay: &[u8], needle: &[u8], i: usize) -> (r: bool)
    requires
        i + needle@.len() <= hay@.len(),
    ensures
        r == matches_at(hay@, needle@, i as int),
{
    let hay_len = hay.len();
    let mut j: usize = 0;
    while j < needle.len()
        invariant
            j <= needle@.len(),
            i + needle@.len() <= hay@.len(),
            hay_len == hay@.len(),
            forall|k: int| 0 <= k < j ==> hay@[i + k] == needle@[k],
        decreases needle@.len() - j,
    {
        if hay[i + j] != needle[j] {
            proof {
                assert(!matches_at(hay@, needle@, i as int)) by {
                    if matches_at(hay@, needle@, i as int) {
                        assert(hay@.subrange(i as int, i + needle@.len() as int)[j as int]
                            == hay@[i + j]);
                    }
                }
            }
            return false;
        }
        j = j + 1;
    }
    proof {
        assert(hay@.subrange(i as int, i + needle@.len() as int) =~= needle@);
    }
    true
}

/// Naive substring search over bytes.
pub fn contains_bytes(hay: &[u8], needle: &[u8]) -> (r: bool)
    ensures
        r == contains_seq(hay@, needle@),
{
    if needle.len() > hay.len() {
        proof {
            assert(forall|i: int| !matches_at(hay@, needle@, i));
        }
        return false;
    }
    if needle.len() == 0 {
        proof {
            assert(matches_at(hay@, needle@, 0)) by {
                assert(hay@.subrange(0, 0) =~= needle@);
            }
        }
        return true;
    }
    let last = hay.len() - needle.len();
    let mut i: usize = 0;
    while i <= last
        invariant
            1 <= needle@.len() <= hay@.len(),
            hay@.len() <= usize::MAX,
            last == hay@.len() - needle@.len(),
            i <= last + 1,
            forall|k: int| 0 <= k < i ==> !matches_at(hay@, needle@, k),
        decreases last + 1 - i,
    {
        if matches_prefix_at(hay, needle, i) {
            proof {
                assert(contains_seq(hay@, needle@)) by {
                    assert(matches_at(hay@, needle@, i as int));
                }
            }
            return true;
        }
        i = i + 1;
    }
    proof {
        assert(forall|k: int| !matches_at(hay@, needle@, k)) by {
            assert(forall|k: int| k >= i ==> !matches_at(hay@, needle@, k));
        }
    }
    false
}

/// Byte-string equality.
pub fn bytes_eq(a: &[u8], b: &[u8]) -> (r: bool)
    ensures
        r == (a@ == b@),
{
    if a.len() != b.len() {
        proof {
            assert(a@ != b@) by {
                if a@ == b@ {
                    assert(a@.len() == b@.len());
                }
            }
        }
        return false;
    }
    let mut i: usize = 0;
    while i < a.len()
        invariant
            a@.len() == b@.len(),
            i <= a@.len(),
            forall|k: int| 0 <= k < i ==> a@[k] == b@[k],
        decreases a@.len() - i,
    {
        if a[i] != b[i] {
            return false;
        }
        i = i + 1;
    }
    proof {
        assert(a@ =~= b@);
    }
    true
}

/// String equality, decided on the UTF-8 bytes.
pub fn str_eq(a: &str, b: &str) -> (r: bool)
    ensures
        r == (a@ == b@),
{
    let r = bytes_eq(a.as_bytes(), b.as_bytes());
    proof {
        vstd::utf8::encode_utf8_decode_utf8(a@);
        vstd::utf8::encode_utf8_decode_utf8(b@);
    }
    r
}

/// Concatenation of `dir`, a backslash separator and `name`.
pub fn join_path(dir: &str, name: &str) -> (r: String)
    ensures
        r@ == dir@ + "\\"@ + name@,
{
    let mut s = String::from_str(dir);
    s.append("\\");
    s.append(name);
    s
}

/// Bytes treated as whitespace in tool output: space, tab, carriage return
/// and line feed.
pub open spec fn is_space(b: u8) -> bool {
    b == 32 || b == 9 || b == 13 || b == 10
}

/// Whether `b` is whitespace.
pub fn is_space_byte(b: u8) -> (r: bool)
    ensures
        r == is_space(b),
{
    b == 32 || b == 9 || b == 13 || b == 10
}

/// `line` with trailing whitespace removed.
pub open spec fn trim_trailing(line: Seq<u8>) -> Seq<u8>
    decreases line.len(),
{
    if line.len() == 0 || !is_space(line.last()) {
        line
    } else {
        trim_trailing(line.drop_last())
    }
}

/// `line` with leading whitespace removed.
pub open spec fn trim_leading(line: Seq<u8>) -> Seq<u8>
    decreases line.len(),
{
    if line.len() == 0 || !is_space(line.first()) {
        line
    } else {
        trim_leading(line.drop_first())
    }
}

/// Where the trailing whitespace of `t.take(e)` begins.
pub fn trim_end_pos(t: &[u8], e: usize) -> (r: usize)
    requires
        e <= t@.len(),
    ensures
        r <= e,
        trim_trailing(t@.take(e as int)) == t@.take(r as int),
    decreases e,
{
    if e == 0 {
        proof {
            assert(t@.take(0) =~= Seq::<u8>::empty());
        }
        return 0;
    }
    if is_space_byte(t[e - 1]) {
        proof {
            assert(t@.take(e as int).last() == t@[e - 1]);
            assert(t@.take(e as int).drop_last() =~= t@.take(e - 1));
        }
        trim_end_pos(t, e - 1)
    } else {
        proof {
            assert(t@.take(e as int).last() == t@[e - 1]);
        }
        e
    }
}

/// Where the leading whitespace of `t.subrange(s0, e)` ends.
pub fn trim_start_pos(t: &[u8], s0: usize, e: usize) -> (r: usize)
    requires
        s0 <= e <= t@.len(),
    ensures
        s0 <= r <= e,
        trim_leading(t@.subrange(s0 as int, e as int)) == t@.subrange(r as int, e as int),
    decreases e - s0,
{
    if s0 == e {
        return s0;
    }
    proof {
        assert(t@.subrange(s0 as int, e as int).first() == t@[s0 as int]);
    }
    if is_space_byte(t[s0]) {
        proof {
            assert(t@.subrange(s0 as int, e as int).drop_first() =~= t@.subrange(
                s0 + 1,
                e as int,
            ));
        }
        trim_start_pos(t, s0 + 1, e)
    } else {
        s0
    }
}

/// A line with leading and trailing whitespace removed, as a slice.
pub fn trim_exec<'a>(line: &'a [u8]) -> (r: &'a [u8])
    ensures
        r@ == trim_leading(trim_trailing(line@)),
{
    let len = line.len();
    proof {
        assert(line@.take(len as int) =~= line@);
    }
    let e = trim_end_pos(line, len);
    proof {
        assert(line@.subrange(0, e as int) =~= line@.take(e as int));
    }
    let s0 = trim_start_pos(line, 0, e);
    slice_subrange(line, s0, e)
}

} // verus!
