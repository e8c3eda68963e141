//! Launch planning: starting the target application exactly once. A
//! running target short-circuits the launch; an explicitly supplied path
//! beats auto-resolution; and a failed spawn invalidates the cached path.
//! The spawning itself happens outside; the library decides what to do
//! and how the outcome reads.

use vstd::prelude::*;
use vstd::string::*;

verus! {

/// The outcome of a launch request, as reported outward.
#[derive(Debug, Clone)]
pub struct LaunchResult {
    pub success: bool,
    pub message: String,
}

/// What a launch request must do.
#[derive(Debug)]
pub enum LaunchPlan {
    /// A target process already runs: report success, spawn nothing.
    AlreadyRunning,
    /// Spawn the executable at this path, detached.
    Start { path: String },
    /// No path given and none resolved: report failure, spawn nothing.
    NoPath,
}

/// Decide what a launch request does: an already-running target wins, then
/// the explicitly supplied path, then the auto-resolved one.
pub fn plan_launch(running: bool, explicit: Option<String>, resolved: Option<String>) -> (r:
    LaunchPlan)
    ensures
        running ==> r is AlreadyRunning,
        !running ==> {
            &&& explicit matches Some(p) ==> (r matches LaunchPlan::Start { path } && path == p)
            &&& explicit is None ==> {
                &&& resolved matches Some(p) ==> (r matches LaunchPlan::Start { path } && path
                    == p)
                &&& resolved is None ==> r is NoPath
            }
        },
{
    if running {
        return LaunchPlan::AlreadyRunning;
    }
    match explicit {
        Some(p) => LaunchPlan::Start { path: p },
        None => match resolved {
            Some(p) => LaunchPlan::Start { path: p },
            None => LaunchPlan::NoPath,
        },
    }
}

/// The result a plan settles without spawning anything: both no-spawn plans
/// are final; a `Start` plan has no result until the spawn is attempted.
pub fn launch_result_without_spawn(plan: &LaunchPlan) -> (r: Option<LaunchResult>)
    ensures
        plan is AlreadyRunning ==> (r matches Some(lr) && lr.success && lr.message@
            == "the target application is already running; the API may need a moment"@),
        plan is NoPath ==> (r matches Some(lr) && !lr.success && lr.message@
            == "no install path was found; supply one explicitly"@),
        plan is Start ==> r is None,
{
    match plan {
        LaunchPlan::AlreadyRunning => Some(
            LaunchResult {
                success: true,
                message: String::from_str(
                    "the target application is already running; the API may need a moment",
                ),
            },
        ),
        LaunchPlan::NoPath => Some(
            LaunchResult {
                success: false,
                message: String::from_str("no install path was found; supply one explicitly"),
            },
        ),
        LaunchPlan::Start { .. } => None,
    }
}

/// The result after a spawn attempt, and whether the cached path must be
/// cleared: an accepted spawn succeeds (readiness comes later and is
/// polled separately); a failed spawn fails, and the path it used is
/// presumed invalid, so the cache entry has to go.
pub fn launch_result_after_spawn(spawn_error: &Option<String>) -> (r: (LaunchResult, bool))
    ensures
        spawn_error is None ==> r.0.success && r.0.message@
            == "the target application is starting; the API becomes ready in 20 to 30 seconds"@
            && !r.1,
        spawn_error matches Some(d) ==> !r.0.success && r.0.message@ == "launch failed: "@ + d@
            && r.1,
{
    match spawn_error {
        None => (
            LaunchResult {
                success: true,
                message: String::from_str(
                    "the target application is starting; the API becomes ready in 20 to 30 seconds",
                ),
            },
            false,
        ),
        Some(d) => {
            let mut m = String::from_str("launch failed: ");
            m.append(d.as_str());
            (LaunchResult { success: false, message: m }, true)
        },
    }
}

} // verus!
