//! Parsing of OS network-diagnostic tool output into a "local port is owned
//! by process id" answer. The tool itself is spawned outside the library;
//! only its text output comes in, as bytes.
//!
//! Two formats are understood: the tabular listener dump whose matching
//! lines end in a process id (the `netstat -ano` shape), and the terse
//! one-pid-per-line form (the `lsof -t` shape).

use vstd::prelude::*;
use vstd::slice::slice_subrange;
use vstd::string::*;

use crate::numbers::{dec_bytes, parse_u32, parses_as_u32, u16_to_dec_bytes};
use crate::text::{
    contains_bytes, contains_seq, is_space, is_space_byte, trim_end_pos, trim_exec, trim_leading,
    trim_trailing,
};

verus! {

/// Index of the first occurrence of `b` in `s`, or -1.
pub open spec fn find_byte(s: Seq<u8>, b: u8) -> int
    decreases s.len(),
{
    if s.len() == 0 {
        -1
    } else if s[0] == b {
        0
    } else if find_byte(s.drop_first(), b) < 0 {
        -1
    } else {
        find_byte(s.drop_first(), b) + 1
    }
}

/// `find_byte` returns either -1 with no occurrence present, or the index
/// of the first occurrence.
pub proof fn lemma_find_byte(s: Seq<u8>, b: u8)
    ensures
        -1 <= find_byte(s, b) < s.len(),
        find_byte(s, b) >= 0 ==> s[find_byte(s, b)] == b,
        forall|k: int|
            0 <= k < s.len() && (find_byte(s, b) < 0 || k < find_byte(s, b)) ==> s[k] != b,
    decreases s.len(),
{
    if s.len() > 0 && s[0] != b {
        lemma_find_byte(s.drop_first(), b);
        assert forall|k: int|
            0 <= k < s.len() && (find_byte(s, b) < 0 || k < find_byte(s, b)) implies s[k]
            != b by {
            if k > 0 {
                assert(s.drop_first()[k - 1] == s[k]);
            }
        }
    }
}

/// `s` split on `b`: the runs between occurrences, in order. Always at
/// least one element; the separators themselves are dropped.
pub open spec fn split_on(s: Seq<u8>, b: u8) -> Seq<Seq<u8>>
    decreases s.len(),
    via split_on_decreases
{
    if find_byte(s, b) < 0 {
        seq![s]
    } else {
        seq![s.take(find_byte(s, b))] + split_on(s.skip(find_byte(s, b) + 1), b)
    }
}

#[via_fn]
proof fn split_on_decreases(s: Seq<u8>, b: u8) {
    lemma_find_byte(s, b);
}

/// The maximal run of non-whitespace bytes at the end of `line`; empty when
/// `line` ends in whitespace or is empty.
pub open spec fn tail_run(line: Seq<u8>) -> Seq<u8>
    decreases line.len(),
{
    if line.len() == 0 || is_space(line.last()) {
        Seq::empty()
    } else {
        tail_run(line.drop_last()).push(line.last())
    }
}

/// The last whitespace-separated token of `line`: the trailing
/// non-whitespace run once trailing whitespace is removed.
pub open spec fn last_token(line: Seq<u8>) -> Seq<u8> {
    tail_run(trim_trailing(line))
}

/// Whether a listener-dump line reports the port: it mentions the port
/// preceded by the address separator `:` and carries the LISTENING state.
pub open spec fn selects_port(line: Seq<u8>, port: u16) -> bool {
    contains_seq(line, seq![58u8] + dec_bytes(port as int)) && contains_seq(
        line,
        "LISTENING".spec_bytes(),
    )
}

/// What one listener-dump line contributes: a pid when the line reports the
/// port and its last column parses as one.
pub open spec fn line_owner(line: Seq<u8>, port: u16) -> Option<u32> {
    if selects_port(line, port) {
        parses_as_u32(last_token(line))
    } else {
        None
    }
}

/// The pid contributed by the first line that contributes one.
pub open spec fn owner_in_lines(lines: Seq<Seq<u8>>, port: u16) -> Option<u32>
    decreases lines.len(),
{
    if lines.len() == 0 {
        None
    } else if line_owner(lines[0], port) is Some {
        line_owner(lines[0], port)
    } else {
        owner_in_lines(lines.drop_first(), port)
    }
}

/// The pid owning `port` according to a listener dump.
pub open spec fn netstat_owner(out: Seq<u8>, port: u16) -> Option<u32> {
    owner_in_lines(split_on(out, 10), port)
}

/// The pid reported by a terse one-pid dump: its first line, trimmed,
/// parsed; nothing when the output is empty.
pub open spec fn lsof_owner(out: Seq<u8>) -> Option<u32> {
    if out.len() == 0 {
        None
    } else {
        parses_as_u32(trim_leading(trim_trailing(split_on(out, 10)[0])))
    }
}

/// First occurrence of `b` in `s` at or after `start`.
fn find_byte_from(s: &[u8], b: u8, start: usize) -> (r: Option<usize>)
    requires
        start <= s@.len(),
    ensures
        match r {
            Some(i) => start <= i < s@.len() && s@[i as int] == b && forall|k: int|
                start <= k < i ==> s@[k] != b,
            None => forall|k: int| start <= k < s@.len() ==> s@[k] != b,
        },
{
    let len = s.len();
    let mut i = start;
    while i < len
        invariant
            len == s@.len(),
            start <= i <= len,
            forall|k: int| start <= k < i ==> s@[k] != b,
        decreases len - i,
    {
        if s[i] == b {
            return Some(i);
        }
        i = i + 1;
    }
    None
}

/// `find_byte` on a suffix, characterised by where the occurrences are.
proof fn lemma_find_byte_of_suffix(s: Seq<u8>, b: u8, start: int, i: int)
    requires
        0 <= start <= i <= s.len(),
        forall|k: int| start <= k < i ==> s[k] != b,
        i < s.len() ==> s[i] == b,
    ensures
        i < s.len() ==> find_byte(s.skip(start), b) == i - start,
        i == s.len() ==> find_byte(s.skip(start), b) < 0,
{
    lemma_find_byte(s.skip(start), b);
    let f = find_byte(s.skip(start), b);
    if i < s.len() {
        assert(s.skip(start)[i - start] == b);
        if f < 0 {
            assert(false);
        } else if f < i - start {
            assert(s.skip(start)[f] == b);
            assert(s[start + f] == b);
            assert(false);
        } else if f > i - start {
            assert(s.skip(start)[i - start] != b);
            assert(false);
        }
    } else {
        if f >= 0 {
            assert(s.skip(start)[f] == b);
            assert(s[start + f] == b);
            assert(false);
        }
    }
}

/// Where the trailing non-whitespace run of `t.take(e)` begins.
fn run_start(t: &[u8], e: usize) -> (r: usize)
    requires
        e <= t@.len(),
    ensures
        r <= e,
        tail_run(t@.take(e as int)) == t@.subrange(r as int, e as int),
    decreases e,
{
    if e == 0 {
        proof {
            assert(t@.take(0) =~= Seq::<u8>::empty());
            assert(tail_run(t@.take(0)) =~= t@.subrange(0, 0));
        }
        return 0;
    }
    proof {
        assert(t@.take(e as int).last() == t@[e - 1]);
    }
    if is_space_byte(t[e - 1]) {
        proof {
            assert(tail_run(t@.take(e as int)) =~= t@.subrange(e as int, e as int));
        }
        e
    } else {
        let r = run_start(t, e - 1);
        proof {
            assert(t@.take(e as int).drop_last() =~= t@.take(e - 1));
            assert(tail_run(t@.take(e as int)) == tail_run(t@.take(e - 1)).push(t@[e - 1]));
            assert(tail_run(t@.take(e as int)) =~= t@.subrange(r as int, e as int));
        }
        r
    }
}

/// The last whitespace-separated token of a line, as a slice.
fn last_token_exec<'a>(line: &'a [u8]) -> (r: &'a [u8])
    ensures
        r@ == last_token(line@),
{
    let len = line.len();
    proof {
        assert(line@.take(len as int) =~= line@);
    }
    let e = trim_end_pos(line, len);
    let s0 = run_start(line, e);
    slice_subrange(line, s0, e)
}

/// The pid owning `port` according to a listener dump, or nothing when no
/// line reports the port with a parseable pid column.
pub fn port_owner_from_netstat(out: &[u8], port: u16) -> (r: Option<u32>)
    ensures
        r == netstat_owner(out@, port),
{
    let needle_digits = u16_to_dec_bytes(port);
    let mut needle: Vec<u8> = Vec::new();
    needle.push(58);
    let mut d: usize = 0;
    while d < needle_digits.len()
        invariant
            d <= needle_digits@.len(),
            needle_digits@ == dec_bytes(port as int),
            needle@ == seq![58u8] + needle_digits@.take(d as int),
        decreases needle_digits@.len() - d,
    {
        needle.push(needle_digits[d]);
        d = d + 1;
        proof {
            assert(seq![58u8] + needle_digits@.take(d as int) =~= (seq![58u8]
                + needle_digits@.take(d - 1)).push(needle_digits@[d - 1]));
        }
    }
    proof {
        assert(needle@ =~= seq![58u8] + dec_bytes(port as int));
        assert(out@.skip(0) =~= out@);
    }

    let len = out.len();
    let mut start: usize = 0;
    loop
        invariant
            len == out@.len(),
            start <= len,
            needle@ == seq![58u8] + dec_bytes(port as int),
            netstat_owner(out@, port) == owner_in_lines(
                split_on(out@.skip(start as int), 10),
                port,
            ),
        decreases len - start,
    {
        let line_end = match find_byte_from(out, 10, start) {
            Some(i) => i,
            None => len,
        };
        let line = slice_subrange(out, start, line_end);
        proof {
            lemma_find_byte_of_suffix(out@, 10, start as int, line_end as int);
            if line_end < len {
                assert(out@.skip(start as int).take(line_end - start) =~= line@);
                assert(out@.skip(start as int).skip(line_end - start + 1) =~= out@.skip(
                    line_end + 1,
                ));
                assert(split_on(out@.skip(start as int), 10) == seq![line@] + split_on(
                    out@.skip(line_end + 1),
                    10,
                ));
            } else {
                assert(out@.skip(start as int) =~= line@);
                assert(split_on(out@.skip(start as int), 10) == seq![line@]);
            }
            assert(split_on(out@.skip(start as int), 10)[0] == line@);
        }
        let selected = contains_bytes(line, needle.as_slice()) && contains_bytes(
            line,
            "LISTENING".as_bytes(),
        );
        if selected {
            let token = last_token_exec(line);
            match parse_u32(token) {
                Some(pid) => {
                    return Some(pid);
                },
                None => {},
            }
        }
        proof {
            assert(line_owner(line@, port) is None);
        }
        if line_end == len {
            proof {
                assert(split_on(out@.skip(start as int), 10).drop_first() =~= Seq::<
                    Seq<u8>,
                >::empty());
                assert(owner_in_lines(Seq::<Seq<u8>>::empty(), port) is None);
            }
            return None;
        }
        proof {
            assert(split_on(out@.skip(start as int), 10).drop_first() =~= split_on(
                out@.skip(line_end + 1),
                10,
            ));
        }
        start = line_end + 1;
    }
}

/// The pid reported by a terse one-pid dump.
pub fn port_owner_from_lsof(out: &[u8]) -> (r: Option<u32>)
    ensures
        r == lsof_owner(out@),
{
    let len = out.len();
    if len == 0 {
        return None;
    }
    proof {
        assert(out@.skip(0) =~= out@);
    }
    let line_end = match find_byte_from(out, 10, 0) {
        Some(i) => i,
        None => len,
    };
    let line = slice_subrange(out, 0, line_end);
    proof {
        lemma_find_byte_of_suffix(out@, 10, 0, line_end as int);
        if line_end < len {
            assert(out@.take(line_end as int) =~= line@);
            assert(split_on(out@, 10)[0] == line@);
        } else {
            assert(out@ =~= line@);
            assert(split_on(out@, 10) == seq![line@]);
            assert(split_on(out@, 10)[0] == line@);
        }
    }
    let trimmed = trim_exec(line);
    parse_u32(trimmed)
}

} // verus!
