//! The durable single-value caches: one for the resolved executable path,
//! one for the resolved API port. Each mirrors one backing file under the
//! user's configuration directory. Staleness is detected lazily: a read
//! hands in whether the stored value still passes its validity check, and a
//! stale entry is discarded on the spot, never returned.

use vstd::prelude::*;
use vstd::string::*;

use crate::numbers::{dec_bytes, is_digit_byte, parse_u16, parses_as_u16};
use crate::text::{is_space, join_path, trim_exec, trim_leading, trim_trailing};

verus! {

/// What a read of a single-value cache yields and leaves behind: the value
/// only when it is still valid; a stale or missing entry leaves nothing.
pub open spec fn spec_cache_read<T>(entry: Option<T>, still_valid: bool) -> (Option<T>, Option<
    T,
>) {
    match entry {
        Some(v) => if still_valid {
            (Some(v), Some(v))
        } else {
            (None, None)
        },
        None => (None, None),
    }
}

/// What a write leaves behind: the new value, unconditionally.
pub open spec fn spec_cache_write<T>(entry: Option<T>, value: T) -> Option<T> {
    Some(value)
}

/// Writing a value and reading it back while it is still valid returns
/// that value and keeps the entry; reading it back once it went stale
/// returns nothing and removes the entry.
pub proof fn lemma_cache_round_trip<T>(entry: Option<T>, value: T)
    ensures
        spec_cache_read(spec_cache_write(entry, value), true) == (
            Some(value),
            Some(value),
        ),
        spec_cache_read(spec_cache_write(entry, value), false) == (
            None::<T>,
            None::<T>,
        ),
{
}

/// The cache of the resolved executable path.
pub struct PathCache {
    pub entry: Option<String>,
}

impl PathCache {
    /// A cache holding what the backing file held, if anything.
    pub fn new(stored: Option<String>) -> (r: PathCache)
        ensures
            r.entry == stored,
    {
        PathCache { entry: stored }
    }

    /// Read the entry. `still_exists` reports whether the stored path still
    /// names a file on disk; a path that no longer does is discarded.
    pub fn read(&mut self, still_exists: bool) -> (r: Option<String>)
        ensures
            (r, final (self).entry) == spec_cache_read(old(self).entry, still_exists),
    {
        if still_exists {
            match &self.entry {
                Some(p) => Some(p.clone()),
                None => None,
            }
        } else {
            self.entry = None;
            None
        }
    }

    /// Overwrite the entry.
    pub fn write(&mut self, value: String)
        ensures
            final (self).entry == spec_cache_write(old(self).entry, value),
    {
        self.entry = Some(value);
    }

    /// Remove the entry, as when a consumer found the cached path wrong.
    pub fn clear(&mut self)
        ensures
            final (self).entry is None,
    {
        self.entry = None;
    }
}

/// The cache of the resolved API port.
pub struct PortCache {
    pub entry: Option<u16>,
}

impl PortCache {
    /// A cache holding what the backing file held, if anything.
    pub fn new(stored: Option<u16>) -> (r: PortCache)
        ensures
            r.entry == stored,
    {
        PortCache { entry: stored }
    }

    /// Read the entry. `still_valid` reports whether the stored port still
    /// passes the liveness probe; one that does not is discarded.
    pub fn read(&mut self, still_valid: bool) -> (r: Option<u16>)
        ensures
            (r, final (self).entry) == spec_cache_read(old(self).entry, still_valid),
    {
        if still_valid {
            self.entry
        } else {
            self.entry = None;
            None
        }
    }

    /// Overwrite the entry.
    pub fn write(&mut self, value: u16)
        ensures
            final (self).entry == spec_cache_write(old(self).entry, value),
    {
        self.entry = Some(value);
    }

    /// Remove the entry.
    pub fn clear(&mut self)
        ensures
            final (self).entry is None,
    {
        self.entry = None;
    }
}

/// The directory under the user's home that holds the cache files.
pub fn cache_dir(home: &str) -> (r: String)
    ensures
        r@ == home@ + "\\"@ + ".bitbrowser"@,
{
    join_path(home, ".bitbrowser")
}

/// The file the resolved path is cached in.
pub fn path_cache_file(home: &str) -> (r: String)
    ensures
        r@ == home@ + "\\"@ + ".bitbrowser"@ + "\\"@ + "bitbrowser_path_cache.txt"@,
{
    let d = cache_dir(home);
    let r = join_path(d.as_str(), "bitbrowser_path_cache.txt");
    proof {
        assert(r@ =~= home@ + "\\"@ + ".bitbrowser"@ + "\\"@ + "bitbrowser_path_cache.txt"@);
    }
    r
}

/// The file the resolved port is cached in.
pub fn port_cache_file(home: &str) -> (r: String)
    ensures
        r@ == home@ + "\\"@ + ".bitbrowser"@ + "\\"@ + "bitbrowser_port_cache.txt"@,
{
    let d = cache_dir(home);
    let r = join_path(d.as_str(), "bitbrowser_port_cache.txt");
    proof {
        assert(r@ =~= home@ + "\\"@ + ".bitbrowser"@ + "\\"@ + "bitbrowser_port_cache.txt"@);
    }
    r
}

/// The port stored in a port-cache file: its content, trimmed, read as a
/// decimal port number.
pub fn port_from_cache_content(content: &[u8]) -> (r: Option<u16>)
    ensures
        r == parses_as_u16(trim_leading(trim_trailing(content@))),
{
    let trimmed = trim_exec(content);
    parse_u16(trimmed)
}

/// A digit is not whitespace.
proof fn lemma_digits_not_space(s: Seq<u8>)
    requires
        forall|i: int| 0 <= i < s.len() ==> is_digit_byte(#[trigger] s[i]),
    ensures
        trim_trailing(s) == s,
        trim_leading(s) == s,
{
    if s.len() > 0 {
        assert(!is_space(s.last()));
        assert(!is_space(s.first()));
    }
}

/// The port-cache file round trip: the rendering of a port, stored and read
/// back, yields the same port.
pub proof fn lemma_port_cache_round_trip(p: u16)
    ensures
        parses_as_u16(trim_leading(trim_trailing(dec_bytes(p as int)))) == Some(p),
{
    crate::numbers::lemma_port_render_parse_round_trip(p);
    assert(forall|i: int|
        0 <= i < dec_bytes(p as int).len() ==> is_digit_byte(#[trigger] dec_bytes(p as int)[i]));
    lemma_digits_not_space(dec_bytes(p as int));
}

} // verus!
