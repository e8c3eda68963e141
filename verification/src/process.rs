//! Decisions over a snapshot of the OS process table. The enumeration
//! itself happens outside and hands in plain records; the library finds
//! the target among them, extracts its launch information, picks the
//! processes a kill sweeps up, and resolves a port-owning pid to its
//! process.

use vstd::prelude::*;
use vstd::std_specs::vec::vec_index;
use vstd::string::*;

use crate::names::{is_bitbrowser_process, is_target_name_bytes};
use crate::status::PortOwner;

verus! {

/// One process, as the OS reports it: its id, its name, and its
/// executable's path where the OS exposes one.
#[derive(Debug)]
pub struct ProcessRecord {
    pub pid: u32,
    pub name: String,
    pub exe_path: Option<String>,
}

/// What a lookup of the running target reports.
#[derive(Debug)]
pub struct BitBrowserInfo {
    pub path: Option<String>,
    pub is_running: bool,
    pub process_id: Option<u32>,
}

/// Whether a record's process name belongs to the target.
pub open spec fn spec_is_target_record(r: ProcessRecord) -> bool {
    is_target_name_bytes(vstd::utf8::encode_utf8(r.name@))
}

/// The first record of the target application in the snapshot.
pub open spec fn spec_find_target(procs: Seq<ProcessRecord>) -> Option<ProcessRecord>
    decreases procs.len(),
{
    if procs.len() == 0 {
        None
    } else if spec_is_target_record(procs[0]) {
        Some(procs[0])
    } else {
        spec_find_target(procs.drop_first())
    }
}

/// An exact copy of an optional string.
fn clone_opt_string(o: &Option<String>) -> (r: Option<String>)
    ensures
        r == *o,
{
    match o {
        Some(s) => Some(s.clone()),
        None => None,
    }
}

/// Whether any process in the snapshot belongs to the target application.
pub fn is_bitbrowser_running(procs: &Vec<ProcessRecord>) -> (r: bool)
    ensures
        r == spec_find_target(procs@) is Some,
{
    proof {
        assert(procs@.skip(0) =~= procs@);
    }
    let mut i: usize = 0;
    while i < procs.len()
        invariant
            i <= procs@.len(),
            spec_find_target(procs@) == spec_find_target(procs@.skip(i as int)),
        decreases procs@.len() - i,
    {
        let record = vec_index(procs, i);
        proof {
            assert(procs@.skip(i as int)[0] == procs@[i as int]);
            assert(procs@.skip(i as int).drop_first() =~= procs@.skip(i + 1));
        }
        if is_bitbrowser_process(record.name.as_str()) {
            return true;
        }
        i = i + 1;
    }
    proof {
        assert(procs@.skip(procs@.len() as int) =~= Seq::<ProcessRecord>::empty());
    }
    false
}

/// The first target process in the snapshot, reported with its path and
/// pid; nothing when the target is not running.
pub fn get_running_bitbrowser_info(procs: &Vec<ProcessRecord>) -> (r: Option<BitBrowserInfo>)
    ensures
        spec_find_target(procs@) matches Some(p) ==> (r matches Some(info) && info.path
            == p.exe_path && info.is_running && info.process_id == Some(p.pid)),
        spec_find_target(procs@) is None ==> r is None,
{
    proof {
        assert(procs@.skip(0) =~= procs@);
    }
    let mut i: usize = 0;
    while i < procs.len()
        invariant
            i <= procs@.len(),
            spec_find_target(procs@) == spec_find_target(procs@.skip(i as int)),
        decreases procs@.len() - i,
    {
        let record = vec_index(procs, i);
        proof {
            assert(procs@.skip(i as int)[0] == procs@[i as int]);
            assert(procs@.skip(i as int).drop_first() =~= procs@.skip(i + 1));
        }
        if is_bitbrowser_process(record.name.as_str()) {
            return Some(
                BitBrowserInfo {
                    path: clone_opt_string(&record.exe_path),
                    is_running: true,
                    process_id: Some(record.pid),
                },
            );
        }
        i = i + 1;
    }
    proof {
        assert(procs@.skip(procs@.len() as int) =~= Seq::<ProcessRecord>::empty());
    }
    None
}

/// The pids of every target process in the snapshot: what a kill sweeps.
pub open spec fn spec_target_pids(procs: Seq<ProcessRecord>) -> Seq<u32>
    decreases procs.len(),
{
    if procs.len() == 0 {
        Seq::empty()
    } else if spec_is_target_record(procs[0]) {
        seq![procs[0].pid] + spec_target_pids(procs.drop_first())
    } else {
        spec_target_pids(procs.drop_first())
    }
}

/// The pids a kill of the target must signal, in snapshot order.
pub fn target_pids(procs: &Vec<ProcessRecord>) -> (r: Vec<u32>)
    ensures
        r@ == spec_target_pids(procs@),
{
    proof {
        assert(procs@.skip(0) =~= procs@);
    }
    let mut out: Vec<u32> = Vec::new();
    let mut i: usize = 0;
    while i < procs.len()
        invariant
            i <= procs@.len(),
            spec_target_pids(procs@) == out@ + spec_target_pids(procs@.skip(i as int)),
        decreases procs@.len() - i,
    {
        let record = vec_index(procs, i);
        proof {
            assert(procs@.skip(i as int)[0] == procs@[i as int]);
            assert(procs@.skip(i as int).drop_first() =~= procs@.skip(i + 1));
        }
        if is_bitbrowser_process(record.name.as_str()) {
            out.push(record.pid);
            proof {
                assert(out@ + spec_target_pids(procs@.skip(i + 1)) =~= out@.drop_last() + (seq![
                    procs@[i as int].pid,
                ] + spec_target_pids(procs@.skip(i + 1))));
            }
        }
        i = i + 1;
    }
    proof {
        assert(procs@.skip(procs@.len() as int) =~= Seq::<ProcessRecord>::empty());
        assert(out@ + spec_target_pids(procs@.skip(procs@.len() as int)) =~= out@);
    }
    out
}

/// The outcome of a kill sweep: success when at least one process went
/// down, otherwise the target was not there to kill.
pub fn kill_verdict(killed_any: bool) -> (r: Result<(), String>)
    ensures
        killed_any ==> r is Ok,
        !killed_any ==> (r matches Err(m) && m@ == "no process of the target application found"@),
{
    if killed_any {
        Ok(())
    } else {
        Err(String::from_str("no process of the target application found"))
    }
}

/// The report of killing one process by pid, as surfaced to the user when
/// a conflicting port owner has to go: whether it worked, and why not.
pub fn kill_by_pid_verdict(found: bool, killed: bool, pid: u32) -> (r: (bool, String))
    ensures
        found && killed ==> r.0 && r.1@ == "stopped process "@ + crate::numbers::dec_chars(
            pid as int,
        ),
        found && !killed ==> !r.0 && r.1@ == "could not stop process "@
            + crate::numbers::dec_chars(pid as int),
        !found ==> !r.0 && r.1@ == "no process with pid "@ + crate::numbers::dec_chars(pid as int),
{
    if !found {
        let mut m = String::from_str("no process with pid ");
        crate::numbers::append_decimal(&mut m, pid as u64);
        (false, m)
    } else if killed {
        let mut m = String::from_str("stopped process ");
        crate::numbers::append_decimal(&mut m, pid as u64);
        (true, m)
    } else {
        let mut m = String::from_str("could not stop process ");
        crate::numbers::append_decimal(&mut m, pid as u64);
        (false, m)
    }
}

/// The first record with this pid.
pub open spec fn spec_find_pid(procs: Seq<ProcessRecord>, pid: u32) -> Option<ProcessRecord>
    decreases procs.len(),
{
    if procs.len() == 0 {
        None
    } else if procs[0].pid == pid {
        Some(procs[0])
    } else {
        spec_find_pid(procs.drop_first(), pid)
    }
}

/// Resolve the pid that owns the probed port to its process, as diagnosis
/// wants it; nothing when the process has already gone away.
pub fn resolve_port_owner(procs: &Vec<ProcessRecord>, pid: u32) -> (r: Option<PortOwner>)
    ensures
        spec_find_pid(procs@, pid) matches Some(p) ==> (r matches Some(o) && o.process_id == pid
            && o.process_name == p.name),
        spec_find_pid(procs@, pid) is None ==> r is None,
{
    proof {
        assert(procs@.skip(0) =~= procs@);
    }
    let mut i: usize = 0;
    while i < procs.len()
        invariant
            i <= procs@.len(),
            spec_find_pid(procs@, pid) == spec_find_pid(procs@.skip(i as int), pid),
        decreases procs@.len() - i,
    {
        let record = vec_index(procs, i);
        proof {
            assert(procs@.skip(i as int)[0] == procs@[i as int]);
            assert(procs@.skip(i as int).drop_first() =~= procs@.skip(i + 1));
        }
        if record.pid == pid {
            return Some(PortOwner { process_id: pid, process_name: record.name.clone() });
        }
        i = i + 1;
    }
    proof {
        assert(procs@.skip(procs@.len() as int) =~= Seq::<ProcessRecord>::empty());
    }
    None
}

} // verus!
