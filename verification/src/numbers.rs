//! Decimal rendering and parsing of the small unsigned numbers the
//! subsystem handles: TCP ports and process ids. Rendering is specified
//! both over characters (for messages and URLs) and over UTF-8 bytes (for
//! the cache file and diagnostic-tool output).

use vstd::prelude::*;
use vstd::string::*;

verus! {

/// The decimal digit character for `d`.
pub open spec fn dec_digit_char(d: int) -> char {
    if d == 0 {
        '0'
    } else if d == 1 {
        '1'
    } else if d == 2 {
        '2'
    } else if d == 3 {
        '3'
    } else if d == 4 {
        '4'
    } else if d == 5 {
        '5'
    } else if d == 6 {
        '6'
    } else if d == 7 {
        '7'
    } else if d == 8 {
        '8'
    } else {
        '9'
    }
}

/// The decimal rendering of `n` as characters, most significant digit first.
pub open spec fn dec_chars(n: int) -> Seq<char>
    decreases n,
{
    if n < 10 {
        seq![dec_digit_char(n)]
    } else {
        dec_chars(n / 10).push(dec_digit_char(n % 10))
    }
}

/// The decimal rendering of `n` as ASCII bytes, most significant digit
/// first; a negative input renders as zero, though only unsigned values
/// are ever rendered.
pub open spec fn dec_bytes(n: int) -> Seq<u8>
    decreases n,
{
    if n < 10 {
        seq![(48 + if 0 <= n { n } else { 0 }) as u8]
    } else {
        dec_bytes(n / 10).push((48 + n % 10) as u8)
    }
}

/// Whether `b` is an ASCII decimal digit.
pub open spec fn is_digit_byte(b: u8) -> bool {
    48 <= b <= 57
}

/// Whether every byte of `s` is an ASCII decimal digit.
pub open spec fn all_digits(s: Seq<u8>) -> bool {
    forall|i: int| 0 <= i < s.len() ==> is_digit_byte(#[trigger] s[i])
}

/// The value of a digit string, most significant digit first.
pub open spec fn dec_value(s: Seq<u8>) -> int
    decreases s.len(),
{
    if s.len() == 0 {
        0
    } else {
        dec_value(s.drop_last()) * 10 + s.last() - 48
    }
}

/// What `u32::from_str` style parsing yields on a byte string: a value for a
/// non-empty, all-digit string whose value fits, and nothing otherwise.
pub open spec fn parses_as_u32(s: Seq<u8>) -> Option<u32> {
    if s.len() > 0 && all_digits(s) && dec_value(s) <= u32::MAX {
        Some(dec_value(s) as u32)
    } else {
        None
    }
}

/// Likewise for 16-bit port numbers.
pub open spec fn parses_as_u16(s: Seq<u8>) -> Option<u16> {
    if s.len() > 0 && all_digits(s) && dec_value(s) <= u16::MAX {
        Some(dec_value(s) as u16)
    } else {
        None
    }
}

/// Appending one byte to a digit string multiplies its value by ten and
/// adds the digit.
proof fn lemma_dec_value_step(s: Seq<u8>, i: int)
    requires
        0 <= i < s.len(),
    ensures
        dec_value(s.take(i + 1)) == dec_value(s.take(i)) * 10 + s[i] - 48,
{
    assert(s.take(i + 1).drop_last() =~= s.take(i));
    assert(s.take(i + 1).last() == s[i]);
}

/// The value of an all-digit string is no less than the value of any of its
/// prefixes.
proof fn lemma_dec_value_prefix_le(s: Seq<u8>, i: int)
    requires
        all_digits(s),
        0 <= i <= s.len(),
    ensures
        dec_value(s.take(i)) <= dec_value(s),
        dec_value(s.take(i)) >= 0,
    decreases s.len() - i,
{
    if i == s.len() {
        assert(s.take(i) =~= s);
        lemma_dec_value_nonneg(s);
    } else {
        lemma_dec_value_step(s, i);
        lemma_dec_value_prefix_le(s, i + 1);
    }
}

/// An all-digit string has a non-negative value.
proof fn lemma_dec_value_nonneg(s: Seq<u8>)
    requires
        all_digits(s),
    ensures
        dec_value(s) >= 0,
    decreases s.len(),
{
    if s.len() > 0 {
        assert(all_digits(s.drop_last())) by {
            assert(forall|i: int| 0 <= i < s.len() - 1 ==> s.drop_last()[i] == s[i]);
        }
        lemma_dec_value_nonneg(s.drop_last());
    }
}

/// Parse an unsigned 32-bit decimal number, exactly as `str::parse::<u32>`
/// accepts it (digits only, no sign, no surrounding space).
pub fn parse_u32(s: &[u8]) -> (r: Option<u32>)
    ensures
        r == parses_as_u32(s@),
{
    if s.len() == 0 {
        return None;
    }
    let len = s.len();
    let mut acc: u64 = 0;
    let mut i: usize = 0;
    while i < len
        invariant
            len == s@.len(),
            0 < len <= usize::MAX,
            i <= len,
            all_digits(s@.take(i as int)),
            acc == dec_value(s@.take(i as int)),
            acc <= u32::MAX,
        decreases len - i,
    {
        let b = s[i];
        if b < 48 || b > 57 {
            return None;
        }
        proof {
            lemma_dec_value_step(s@, i as int);
        }
        acc = acc * 10 + ((b - 48) as u64);
        i = i + 1;
        if acc > u32::MAX as u64 {
            proof {
                if all_digits(s@) {
                    lemma_dec_value_prefix_le(s@, i as int);
                }
            }
            return None;
        }
    }
    proof {
        assert(s@.take(len as int) =~= s@);
    }
    Some(acc as u32)
}

/// Parse an unsigned 16-bit decimal number, as for a TCP port.
pub fn parse_u16(s: &[u8]) -> (r: Option<u16>)
    ensures
        r == parses_as_u16(s@),
{
    proof {
        if s@.len() > 0 && all_digits(s@) {
            lemma_dec_value_nonneg(s@);
        }
    }
    match parse_u32(s) {
        Some(v) => {
            if v <= 65535 {
                Some(v as u16)
            } else {
                None
            }
        },
        None => None,
    }
}

/// The one-character string for a decimal digit.
fn digit_str(d: u8) -> (r: &'static str)
    requires
        d < 10,
    ensures
        r@ == seq![dec_digit_char(d as int)],
{
    proof {
        reveal_strlit("0");
        reveal_strlit("1");
        reveal_strlit("2");
        reveal_strlit("3");
        reveal_strlit("4");
        reveal_strlit("5");
        reveal_strlit("6");
        reveal_strlit("7");
        reveal_strlit("8");
        reveal_strlit("9");
    }
    let r = match d {
        0 => "0",
        1 => "1",
        2 => "2",
        3 => "3",
        4 => "4",
        5 => "5",
        6 => "6",
        7 => "7",
        8 => "8",
        _ => "9",
    };
    proof {
        assert(r@ =~= seq![dec_digit_char(d as int)]);
    }
    r
}

/// Append the decimal rendering of `n` to `out`.
pub fn append_decimal(out: &mut String, n: u64)
    ensures
        final (out)@ == old(out)@ + dec_chars(n as int),
    decreases n,
{
    if n < 10 {
        out.append(digit_str(n as u8));
    } else {
        append_decimal(out, n / 10);
        out.append(digit_str((n % 10) as u8));
        proof {
            assert(old(out)@ + dec_chars(n as int) =~= (old(out)@ + dec_chars(n as int / 10)).add(
                seq![dec_digit_char(n as int % 10)],
            ));
        }
    }
}

/// The decimal rendering of `n` as a string.
pub fn u64_to_string(n: u64) -> (r: String)
    ensures
        r@ == dec_chars(n as int),
{
    let mut s = String::new();
    append_decimal(&mut s, n);
    proof {
        assert(Seq::<char>::empty() + dec_chars(n as int) =~= dec_chars(n as int));
    }
    s
}

/// The decimal rendering of a port as bytes, as the cache file stores it.
pub fn u16_to_dec_bytes(n: u16) -> (r: Vec<u8>)
    ensures
        r@ == dec_bytes(n as int),
{
    let mut v: Vec<u8> = Vec::new();
    push_decimal_bytes(&mut v, n);
    proof {
        assert(Seq::<u8>::empty() + dec_bytes(n as int) =~= dec_bytes(n as int));
    }
    v
}

/// Append the decimal rendering of `n` to `out`, as bytes.
fn push_decimal_bytes(out: &mut Vec<u8>, n: u16)
    ensures
        final (out)@ == old(out)@ + dec_bytes(n as int),
    decreases n,
{
    if n < 10 {
        out.push(48 + (n as u8));
        proof {
            assert(old(out)@ + dec_bytes(n as int) =~= old(out)@.push((48 + n as int) as u8));
        }
    } else {
        push_decimal_bytes(out, n / 10);
        out.push(48 + ((n % 10) as u8));
        proof {
            assert(old(out)@ + dec_bytes(n as int) =~= (old(out)@ + dec_bytes(n as int / 10)).push(
                (48 + n as int % 10) as u8,
            ));
        }
    }
}

/// Rendering a port and parsing it back yields the port: the port cache
/// file's round trip.
pub proof fn lemma_port_render_parse_round_trip(p: u16)
    ensures
        parses_as_u16(dec_bytes(p as int)) == Some(p),
{
    lemma_dec_bytes_digits(p as int);
    lemma_dec_value_of_dec_bytes(p as int);
}

/// The decimal rendering of a non-negative number is all digits.
proof fn lemma_dec_bytes_digits(n: int)
    requires
        0 <= n,
    ensures
        all_digits(dec_bytes(n)),
        dec_bytes(n).len() > 0,
    decreases n,
{
    if n >= 10 {
        lemma_dec_bytes_digits(n / 10);
        assert(forall|i: int|
            0 <= i < dec_bytes(n).len() - 1 ==> dec_bytes(n)[i] == dec_bytes(n / 10)[i]);
    }
}

/// The value of the decimal rendering of `n` is `n`.
proof fn lemma_dec_value_of_dec_bytes(n: int)
    requires
        0 <= n,
    ensures
        dec_value(dec_bytes(n)) == n,
    decreases n,
{
    if n < 10 {
        assert(dec_bytes(n).drop_last() =~= Seq::<u8>::empty());
        assert(dec_bytes(n).last() == (48 + n) as u8);
        assert(((48 + n) as u8) as int == 48 + n);
        assert(dec_value(dec_bytes(n).drop_last()) == 0);
        assert(dec_value(dec_bytes(n)) == 0 * 10 + (48 + n) - 48);
    } else {
        lemma_dec_value_of_dec_bytes(n / 10);
        assert(dec_bytes(n).drop_last() =~= dec_bytes(n / 10));
        assert(dec_bytes(n).last() == (48 + n % 10) as u8);
        assert(((48 + n % 10) as u8) as int == 48 + n % 10);
        assert(dec_value(dec_bytes(n)) == (n / 10) * 10 + n % 10);
    }
}

} // verus!
