//! Port detection: which local TCP port serves the control API. The
//! well-known default port is probed first; when it fails validation, a
//! small fixed set of alternative ports is probed concurrently and the
//! first to validate wins. A port validates only on the API's structural
//! fingerprint, never on reachability alone.

use vstd::prelude::*;
use vstd::string::*;

use crate::numbers::{append_decimal, dec_chars};
use crate::status::{classify_attempt, spec_attempt_succeeds, AttemptOutcome};

verus! {

/// The control API's well-known default port.
pub const DEFAULT_API_PORT: u16 = 54345;

/// The alternative ports probed when the default fails validation: the
/// block directly after the default.
pub open spec fn alternative_port_list() -> Seq<u16> {
    seq![54346u16, 54347u16, 54348u16, 54349u16, 54350u16, 54351u16, 54352u16]
}

/// The alternative candidate ports, in probe order.
pub fn alternative_ports() -> (r: Vec<u16>)
    ensures
        r@ == alternative_port_list(),
{
    let mut v: Vec<u16> = Vec::new();
    v.push(54346);
    v.push(54347);
    v.push(54348);
    v.push(54349);
    v.push(54350);
    v.push(54351);
    v.push(54352);
    proof {
        assert(v@ =~= alternative_port_list());
    }
    v
}

/// Whether one probe outcome validates a port: the structural fingerprint,
/// exactly as the health probe reads it.
pub fn attempt_validates(outcome: &AttemptOutcome) -> (r: bool)
    ensures
        r == spec_attempt_succeeds(*outcome),
{
    classify_attempt(outcome).is_ok()
}

/// The index of the first validated port, from `k` on.
pub open spec fn spec_first_valid(valid: Seq<bool>, k: int) -> Option<int>
    decreases valid.len() - k,
{
    if k < 0 || k >= valid.len() {
        None
    } else if valid[k] {
        Some(k)
    } else {
        spec_first_valid(valid, k + 1)
    }
}

/// What port detection yields, given whether the target runs, whether the
/// default port validated, and which alternatives validated: nothing
/// without a running target; the default port when it validates; else the
/// first validated alternative; else nothing.
pub open spec fn spec_detected_port(
    running: bool,
    default_valid: bool,
    alt_valid: Seq<bool>,
) -> Option<u16> {
    if !running {
        None
    } else if default_valid {
        Some(DEFAULT_API_PORT)
    } else if spec_first_valid(alt_valid, 0) is Some {
        Some(alternative_port_list()[spec_first_valid(alt_valid, 0)->0])
    } else {
        None
    }
}

/// Select the detected port from the probe results. `alt_valid[i]` reports
/// whether the `i`-th alternative port validated; the probes themselves
/// run outside, concurrently.
pub fn select_port(running: bool, default_valid: bool, alt_valid: &Vec<bool>) -> (r: Option<u16>)
    requires
        alt_valid@.len() == alternative_port_list().len(),
    ensures
        r == spec_detected_port(running, default_valid, alt_valid@),
{
    if !running {
        return None;
    }
    if default_valid {
        return Some(DEFAULT_API_PORT);
    }
    let ports = alternative_ports();
    let mut i: usize = 0;
    while i < alt_valid.len()
        invariant
            running,
            !default_valid,
            alt_valid@.len() == alternative_port_list().len(),
            ports@ == alternative_port_list(),
            i <= alt_valid@.len(),
            spec_first_valid(alt_valid@, 0) == spec_first_valid(alt_valid@, i as int),
        decreases alt_valid@.len() - i,
    {
        if alt_valid[i] {
            proof {
                assert(spec_first_valid(alt_valid@, 0) == Some(i as int));
            }
            return Some(ports[i]);
        }
        i = i + 1;
    }
    None
}

/// The fan-out law: when the default port fails validation and exactly the
/// `i`-th alternative validates first, detection returns that alternative,
/// for every pattern of later results — the slower probes cannot change
/// the answer.
pub proof fn lemma_alternative_fan_out(running: bool, alt_valid: Seq<bool>, i: int)
    requires
        alt_valid.len() == alternative_port_list().len(),
        0 <= i < alt_valid.len(),
        alt_valid[i],
        forall|j: int| 0 <= j < i ==> !alt_valid[j],
    ensures
        running ==> spec_detected_port(running, false, alt_valid) == Some(
            alternative_port_list()[i],
        ),
    decreases i,
{
    lemma_first_valid_at(alt_valid, 0, i);
}

/// `spec_first_valid` finds the first validated index.
proof fn lemma_first_valid_at(valid: Seq<bool>, k: int, i: int)
    requires
        0 <= k <= i < valid.len(),
        valid[i],
        forall|j: int| k <= j < i ==> !valid[j],
    ensures
        spec_first_valid(valid, k) == Some(i),
    decreases i - k,
{
    if k < i {
        lemma_first_valid_at(valid, k + 1, i);
    }
}

/// Detection requires a confirmed running target: probing the ports of a
/// service that is not there yields nothing, whatever answers.
pub proof fn lemma_no_probe_without_process(default_valid: bool, alt_valid: Seq<bool>)
    ensures
        spec_detected_port(false, default_valid, alt_valid) is None,
{
}

/// The control API's base URL on a given port.
pub fn api_base_url(port: u16) -> (r: String)
    ensures
        r@ == "http://127.0.0.1:"@ + dec_chars(port as int),
{
    let mut s = String::from_str("http://127.0.0.1:");
    append_decimal(&mut s, port as u64);
    s
}

} // verus!
