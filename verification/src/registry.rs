//! The registry strategy's decisions: recognising an installed-application
//! entry by its display name, and extracting an executable candidate from
//! its icon value. Reading the registry itself is platform work that
//! happens outside; the entries' strings come in as plain values.

use vstd::prelude::*;
use vstd::string::*;

use crate::names::{is_bitbrowser_process, is_target_name_bytes};

verus! {

/// Whether an uninstall entry's display name names the target: the same
/// patterns as a process name.
pub fn registry_entry_matches(display_name: &str) -> (r: bool)
    ensures
        r == is_target_name_bytes(display_name.spec_bytes()),
{
    is_bitbrowser_process(display_name)
}

/// `s` with trailing quote characters removed.
pub open spec fn trim_quote_end(s: Seq<char>) -> Seq<char>
    decreases s.len(),
{
    if s.len() == 0 || s.last() != '"' {
        s
    } else {
        trim_quote_end(s.drop_last())
    }
}

/// `s` with leading quote characters removed.
pub open spec fn trim_quote_start(s: Seq<char>) -> Seq<char>
    decreases s.len(),
{
    if s.len() == 0 || s.first() != '"' {
        s
    } else {
        trim_quote_start(s.drop_first())
    }
}

/// `s` with quotes removed from both ends, as icon values are often
/// written quoted.
pub open spec fn spec_unquoted(s: Seq<char>) -> Seq<char> {
    trim_quote_start(trim_quote_end(s))
}

/// Whether `s` ends in the executable suffix.
pub open spec fn spec_ends_in_exe(s: Seq<char>) -> bool {
    s.len() >= 4 && s[s.len() - 4] == '.' && s[s.len() - 3] == 'e' && s[s.len() - 2] == 'x'
        && s[s.len() - 1] == 'e'
}

/// The executable candidate in an icon value: the value unquoted, when it
/// ends in the executable suffix; nothing otherwise. Whether a file exists
/// there is the driver's check.
pub open spec fn spec_icon_exe_candidate(s: Seq<char>) -> Option<Seq<char>> {
    if spec_ends_in_exe(spec_unquoted(s)) {
        Some(spec_unquoted(s))
    } else {
        None
    }
}

/// Where the trailing quotes of `s.take(e)` begin.
fn quote_end_pos(s: &str, e: usize) -> (r: usize)
    requires
        e <= s@.len(),
    ensures
        r <= e,
        trim_quote_end(s@.take(e as int)) == s@.take(r as int),
    decreases e,
{
    if e == 0 {
        proof {
            assert(s@.take(0) =~= Seq::<char>::empty());
        }
        return 0;
    }
    proof {
        assert(s@.take(e as int).last() == s@[e - 1]);
    }
    if s.get_char(e - 1) == '"' {
        proof {
            assert(s@.take(e as int).drop_last() =~= s@.take(e - 1));
        }
        quote_end_pos(s, e - 1)
    } else {
        e
    }
}

/// Where the leading quotes of `s.subrange(s0, e)` end.
fn quote_start_pos(s: &str, s0: usize, e: usize) -> (r: usize)
    requires
        s0 <= e <= s@.len(),
    ensures
        s0 <= r <= e,
        trim_quote_start(s@.subrange(s0 as int, e as int)) == s@.subrange(r as int, e as int),
    decreases e - s0,
{
    if s0 == e {
        return s0;
    }
    proof {
        assert(s@.subrange(s0 as int, e as int).first() == s@[s0 as int]);
    }
    if s.get_char(s0) == '"' {
        proof {
            assert(s@.subrange(s0 as int, e as int).drop_first() =~= s@.subrange(
                s0 + 1,
                e as int,
            ));
        }
        quote_start_pos(s, s0 + 1, e)
    } else {
        s0
    }
}

/// Extract the executable candidate from an uninstall entry's icon value.
pub fn icon_exe_candidate(icon: &str) -> (r: Option<String>)
    ensures
        spec_icon_exe_candidate(icon@) matches Some(t) ==> (r matches Some(p) && p@ == t),
        spec_icon_exe_candidate(icon@) is None ==> r is None,
{
    let len = icon.unicode_len();
    proof {
        assert(icon@.take(len as int) =~= icon@);
    }
    let e = quote_end_pos(icon, len);
    proof {
        assert(icon@.subrange(0, e as int) =~= icon@.take(e as int));
    }
    let s0 = quote_start_pos(icon, 0, e);
    let ghost unquoted = icon@.subrange(s0 as int, e as int);
    if e - s0 >= 4 && icon.get_char(e - 4) == '.' && icon.get_char(e - 3) == 'e' && icon.get_char(
        e - 2,
    ) == 'x' && icon.get_char(e - 1) == 'e' {
        proof {
            assert(unquoted.len() == e - s0);
            assert(unquoted[unquoted.len() - 4] == icon@[e - 4]);
            assert(unquoted[unquoted.len() - 3] == icon@[e - 3]);
            assert(unquoted[unquoted.len() - 2] == icon@[e - 2]);
            assert(unquoted[unquoted.len() - 1] == icon@[e - 1]);
        }
        let t = icon.substring_char(s0, e);
        Some(String::from_str(t))
    } else {
        proof {
            if e - s0 >= 4 {
                assert(unquoted[unquoted.len() - 4] == icon@[e - 4]);
                assert(unquoted[unquoted.len() - 3] == icon@[e - 3]);
                assert(unquoted[unquoted.len() - 2] == icon@[e - 2]);
                assert(unquoted[unquoted.len() - 1] == icon@[e - 1]);
            }
        }
        None
    }
}

} // verus!
