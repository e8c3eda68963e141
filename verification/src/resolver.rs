//! The path-resolution pipeline: an ordered list of independent search
//! strategies, tried one after the other, stopping at the first that finds
//! the executable. The strategies themselves touch the filesystem, the
//! process table or the registry and run outside; the library owns the
//! order, the short-circuiting, the cache bookkeeping, the candidate
//! locations each strategy looks at, and the budget that bounds the deep
//! search.

use vstd::prelude::*;
use vstd::string::*;

use crate::names::{candidate_exe_names, exe_name_candidates};
use crate::text::{bytes_eq, join_path, lower_bytes, lower_vec, str_eq};

verus! {

/// One way of locating the target's executable.
#[derive(Debug, Clone, Copy, PartialEq, Eq, Structural)]
pub enum Strategy {
    /// Read the persisted path, validated against the filesystem.
    CacheLookup,
    /// Take the path of a running target process.
    ProcessScan,
    /// Search installed-application registry entries.
    RegistrySearch,
    /// Check well-known install directories on every drive.
    CommonDirectories,
    /// Search shortcut menus.
    StartMenuSearch,
    /// Walk every drive root, bounded by a wall-clock budget.
    DeepSearch,
}

/// How many strategies the pipeline has.
pub const STRATEGY_COUNT: usize = 6;

/// The fixed priority order of the strategies.
pub open spec fn strategy_order() -> Seq<Strategy> {
    seq![
        Strategy::CacheLookup,
        Strategy::ProcessScan,
        Strategy::RegistrySearch,
        Strategy::CommonDirectories,
        Strategy::StartMenuSearch,
        Strategy::DeepSearch,
    ]
}

/// What the pipeline asks its driver to do next.
#[derive(Debug, Clone)]
pub enum ResolveStep {
    /// Run this strategy and report what it found.
    Try(Strategy),
    /// The pipeline is over. `path` is the result; `cache_update` says
    /// whether the driver must persist it to the path cache (a path that
    /// came out of the cache itself is not written back).
    Finished { path: Option<String>, cache_update: bool },
}

/// The resolver's position in the pipeline: the index of the strategy
/// whose result it waits for.
pub struct Resolver {
    pub current: usize,
}

impl Resolver {
    /// A well-formed resolver waits for one of the strategies.
    pub open spec fn wf(&self) -> bool {
        self.current < strategy_order().len()
    }

    /// Start the pipeline at the cache lookup.
    pub fn new() -> (r: Resolver)
        ensures
            r.wf(),
            r.current == 0,
    {
        Resolver { current: 0 }
    }

    /// The strategy the resolver waits for.
    pub fn pending(&self) -> (r: Strategy)
        requires
            self.wf(),
        ensures
            r == strategy_order()[self.current as int],
    {
        match self.current {
            0 => Strategy::CacheLookup,
            1 => Strategy::ProcessScan,
            2 => Strategy::RegistrySearch,
            3 => Strategy::CommonDirectories,
            4 => Strategy::StartMenuSearch,
            _ => {
                proof {
                    assert(self.current == 5);
                }
                Strategy::DeepSearch
            },
        }
    }

    /// Record what the pending strategy found and say what comes next:
    /// a found path ends the pipeline at once; nothing found moves to the
    /// next strategy, or ends the pipeline empty after the last.
    pub fn advance(&mut self, found: Option<String>) -> (r: ResolveStep)
        requires
            old(self).wf(),
        ensures
            found matches Some(p) ==> (r matches ResolveStep::Finished { path, cache_update }
                && path == Some(p) && cache_update == (old(self).current != 0)),
            found is None && old(self).current + 1 < strategy_order().len() ==> (r matches
                ResolveStep::Try(s) && s == strategy_order()[old(self).current + 1]
                && final (self).wf() && final (self).current == old(self).current + 1),
            found is None && old(self).current + 1 == strategy_order().len() ==> (r matches
                ResolveStep::Finished { path, cache_update } && path is None && !cache_update),
    {
        match found {
            Some(p) => ResolveStep::Finished {
                path: Some(p),
                cache_update: self.current != 0,
            },
            None => {
                if self.current + 1 < STRATEGY_COUNT {
                    self.current = self.current + 1;
                    ResolveStep::Try(self.pending())
                } else {
                    ResolveStep::Finished { path: None, cache_update: false }
                }
            },
        }
    }
}

/// How many strategies a full pipeline run consults, given which of the
/// six would find a path: every strategy before the first successful one,
/// the successful one itself, and no other.
pub open spec fn strategies_consulted(results: Seq<bool>, k: int) -> int
    decreases strategy_order().len() - k,
{
    if k < 0 || k >= strategy_order().len() {
        0
    } else if results[k] {
        1
    } else {
        1 + strategies_consulted(results, k + 1)
    }
}

/// A valid cached path short-circuits the pipeline: when the cache lookup
/// succeeds, exactly one strategy is consulted — no registry, filesystem
/// or deep search runs.
pub proof fn lemma_cache_hit_short_circuits(results: Seq<bool>)
    requires
        results.len() == strategy_order().len(),
        results[0],
    ensures
        strategies_consulted(results, 0) == 1,
{
}

/// The wall-clock budget that bounds the deep search.
#[derive(Debug, Clone, Copy)]
pub struct SearchBudget {
    pub started_at_ms: u64,
    pub timeout_ms: u64,
}

/// The deep search's wall-clock timeout, in milliseconds.
pub const DEEP_SEARCH_TIMEOUT_MS: u64 = 60000;

/// How many entries of a nested directory the deep search examines at most.
pub const NESTED_SCAN_LIMIT: usize = 50;

/// A budget is spent once the elapsed time reaches the timeout.
pub open spec fn spec_budget_spent(b: SearchBudget, now_ms: u64) -> bool {
    now_ms >= b.started_at_ms + b.timeout_ms
}

impl SearchBudget {
    /// Start a budget at the current clock reading.
    pub fn new(now_ms: u64, timeout_ms: u64) -> (r: SearchBudget)
        ensures
            r.started_at_ms == now_ms,
            r.timeout_ms == timeout_ms,
    {
        SearchBudget { started_at_ms: now_ms, timeout_ms }
    }

    /// Whether the budget is spent at clock reading `now_ms`.
    pub fn spent(&self, now_ms: u64) -> (r: bool)
        ensures
            r == spec_budget_spent(*self, now_ms),
    {
        if now_ms < self.started_at_ms {
            false
        } else {
            now_ms - self.started_at_ms >= self.timeout_ms
        }
    }
}

/// What the deep search does at one directory boundary.
#[derive(Debug, Clone, Copy, PartialEq, Eq, Structural)]
pub enum DeepSearchStep {
    /// The budget is spent: stop the whole walk, empty-handed.
    Halt,
    /// A system or hidden directory: pass it over.
    SkipDirectory,
    /// Look into this directory.
    EnterDirectory,
}

/// Directories the deep search never enters: hidden volumes (leading `$`)
/// and the well-known system directories, compared case-insensitively.
pub open spec fn spec_skip_dir(name: Seq<u8>) -> bool {
    let l = lower_bytes(name);
    ||| (l.len() > 0 && l[0] == 36)
    ||| l == "windows".spec_bytes()
    ||| l == "system volume information".spec_bytes()
    ||| l == "recycler".spec_bytes()
}

/// The decision the deep search takes at a directory boundary: the budget
/// is checked first, so a spent budget halts the walk whatever the
/// directory is.
pub open spec fn spec_deep_search_step(spent: bool, skip: bool) -> DeepSearchStep {
    if spent {
        DeepSearchStep::Halt
    } else if skip {
        DeepSearchStep::SkipDirectory
    } else {
        DeepSearchStep::EnterDirectory
    }
}

/// A spent budget halts the deep search at the next directory boundary,
/// whatever directory it stands at: the walk never outlives its timeout by
/// more than the directory iteration in flight.
pub proof fn lemma_deep_search_bounded(skip: bool)
    ensures
        spec_deep_search_step(true, skip) == DeepSearchStep::Halt,
{
}

/// Whether the deep search skips a directory of this name.
pub fn is_skipped_dir(name: &str) -> (r: bool)
    ensures
        r == spec_skip_dir(name.spec_bytes()),
{
    let bytes = name.as_bytes();
    let l = lower_vec(bytes);
    let starts_hidden = l.len() > 0 && l[0] == 36;
    starts_hidden || bytes_eq(l.as_slice(), "windows".as_bytes()) || bytes_eq(
        l.as_slice(),
        "system volume information".as_bytes(),
    ) || bytes_eq(l.as_slice(), "recycler".as_bytes())
}

/// The deep search's decision at one directory boundary.
pub fn deep_search_step(budget: &SearchBudget, now_ms: u64, dir_name: &str) -> (r: DeepSearchStep)
    ensures
        r == spec_deep_search_step(
            spec_budget_spent(*budget, now_ms),
            spec_skip_dir(dir_name.spec_bytes()),
        ),
{
    if budget.spent(now_ms) {
        DeepSearchStep::Halt
    } else if is_skipped_dir(dir_name) {
        DeepSearchStep::SkipDirectory
    } else {
        DeepSearchStep::EnterDirectory
    }
}

/// Whether one of `present` is the string `s`.
pub open spec fn seq_has_string(present: Seq<Seq<char>>, s: Seq<char>) -> bool {
    exists|j: int| 0 <= j < present.len() && present[j] == s
}

/// The first candidate executable name, from the `k`-th on, that occurs in
/// `present`.
pub open spec fn spec_first_candidate(present: Seq<Seq<char>>, k: int) -> Option<Seq<char>>
    decreases candidate_exe_names().len() - k,
{
    if k < 0 || k >= candidate_exe_names().len() {
        None
    } else if seq_has_string(present, candidate_exe_names()[k]) {
        Some(candidate_exe_names()[k])
    } else {
        spec_first_candidate(present, k + 1)
    }
}

/// Whether `v` holds a string equal to `s`.
fn vec_has_str(v: &Vec<String>, s: &str) -> (r: bool)
    ensures
        r == seq_has_string(v@.map_values(|x: String| x@), s@),
{
    let ghost views = v@.map_values(|x: String| x@);
    let mut j: usize = 0;
    while j < v.len()
        invariant
            views == v@.map_values(|x: String| x@),
            j <= v@.len(),
            forall|k: int| 0 <= k < j ==> views[k] != s@,
        decreases v@.len() - j,
    {
        if str_eq(v[j].as_str(), s) {
            proof {
                assert(views[j as int] == s@);
            }
            return true;
        }
        j = j + 1;
    }
    false
}

/// Given the file names present in a directory, the full path of the first
/// candidate executable name among them, joined under `dir`; nothing when
/// none is present. This is the per-directory check every filesystem
/// strategy uses.
pub fn pick_exe_from(dir: &str, present: &Vec<String>) -> (r: Option<String>)
    ensures
        ({
            let views = present@.map_values(|x: String| x@);
            match spec_first_candidate(views, 0) {
                Some(n) => r matches Some(p) && p@ == dir@ + "\\"@ + n,
                None => r is None,
            }
        }),
{
    let ghost views = present@.map_values(|x: String| x@);
    let names = exe_name_candidates();
    let mut k: usize = 0;
    while k < names.len()
        invariant
            views == present@.map_values(|x: String| x@),
            names@.len() == candidate_exe_names().len(),
            forall|i: int| 0 <= i < names@.len() ==> names@[i]@ == candidate_exe_names()[i],
            k <= names@.len(),
            spec_first_candidate(views, 0) == spec_first_candidate(views, k as int),
        decreases names@.len() - k,
    {
        if vec_has_str(present, names[k].as_str()) {
            return Some(join_path(dir, names[k].as_str()));
        }
        k = k + 1;
    }
    None
}

} // verus!
