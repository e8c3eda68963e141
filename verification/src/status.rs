//! Connection health: classifying one probe attempt, and diagnosing why a
//! failed probe failed. A probe of the control API either succeeds (success
//! status and a body carrying the API's structural fingerprint) or yields an
//! `ApiError`; diagnosis then ranks the evidence: process liveness first,
//! port ownership second, error shape last.

use vstd::prelude::*;
use vstd::string::*;

use crate::json::{spec_shape_ok, BodyShape};
use crate::names::is_target_name_bytes;
use crate::numbers::{append_decimal, dec_chars};

verus! {

/// How many times one probe session attempts the health call.
pub const MAX_PROBE_ATTEMPTS: u32 = 3;

/// Delay between two attempts of one probe session, in milliseconds.
pub const RETRY_DELAY_MS: u64 = 1000;

/// Why one attempt of the health call failed.
#[derive(Debug, Clone)]
pub enum ApiError {
    /// The request never completed: refused, timed out, or failed to send.
    RequestFailed(String),
    /// The call completed with a non-success HTTP status.
    HttpError(u16),
    /// The body of a success response could not be read as JSON.
    ResponseReadFailed(String),
    /// The body read fine but does not carry the API's fingerprint.
    InvalidResponse(String),
}

/// Why the subsystem considers itself disconnected.
#[derive(Debug)]
pub enum DisconnectReason {
    /// No process of the target application is running.
    NotRunning,
    /// A foreign process owns the API port.
    PortOccupied { process_name: String, process_id: u32 },
    /// The target owns the port but the API is not ready yet.
    Initializing,
    /// The target is running yet the API answers wrongly, or not at all
    /// with no one on the port.
    ApiError { error: String },
}

/// The outcome of one probe: connected, or disconnected with a reason.
#[derive(Debug)]
pub enum ConnectionStatus {
    Connected { message: String },
    Disconnected { reason: DisconnectReason, message: String },
}

impl Clone for DisconnectReason {
    /// An exact copy.
    fn clone(&self) -> (r: Self)
        ensures
            r == *self,
    {
        match self {
            DisconnectReason::NotRunning => DisconnectReason::NotRunning,
            DisconnectReason::PortOccupied { process_name, process_id } => {
                DisconnectReason::PortOccupied {
                    process_name: process_name.clone(),
                    process_id: *process_id,
                }
            },
            DisconnectReason::Initializing => DisconnectReason::Initializing,
            DisconnectReason::ApiError { error } => DisconnectReason::ApiError {
                error: error.clone(),
            },
        }
    }
}

impl Clone for ConnectionStatus {
    /// An exact copy.
    fn clone(&self) -> (r: Self)
        ensures
            r == *self,
    {
        match self {
            ConnectionStatus::Connected { message } => ConnectionStatus::Connected {
                message: message.clone(),
            },
            ConnectionStatus::Disconnected { reason, message } => {
                ConnectionStatus::Disconnected {
                    reason: reason.clone(),
                    message: message.clone(),
                }
            },
        }
    }
}

/// What one HTTP attempt of the health call came back with, as plain
/// values: a transport-level failure, or a status code with the inspected
/// body shape.
#[derive(Debug)]
pub enum AttemptOutcome {
    TransportFailure { detail: String },
    Response { status: u16, shape: BodyShape },
}

/// The process that owns the probed port, when one could be resolved.
#[derive(Debug, Clone)]
pub struct PortOwner {
    pub process_id: u32,
    pub process_name: String,
}

/// HTTP success statuses.
pub open spec fn spec_is_success_status(s: u16) -> bool {
    200 <= s <= 299
}

/// One attempt succeeds exactly when the status is a success and the body
/// carries the fingerprint.
pub open spec fn spec_attempt_succeeds(o: AttemptOutcome) -> bool {
    match o {
        AttemptOutcome::TransportFailure { .. } => false,
        AttemptOutcome::Response { status, shape } => spec_is_success_status(status)
            && spec_shape_ok(shape),
    }
}

/// Classify one attempt: success, or the error the attempt earns.
pub fn classify_attempt(outcome: &AttemptOutcome) -> (r: Result<(), ApiError>)
    ensures
        r is Ok == spec_attempt_succeeds(*outcome),
        outcome matches AttemptOutcome::TransportFailure { detail } ==> (r matches Err(
            ApiError::RequestFailed(d),
        ) && d == detail),
        outcome matches AttemptOutcome::Response { status, shape } ==> {
            &&& !spec_is_success_status(*status) ==> (r matches Err(ApiError::HttpError(c)) && c
                == status)
            &&& spec_is_success_status(*status) && !shape.parsed ==> (r matches Err(
                ApiError::ResponseReadFailed(m),
            ) && m@ == "the response body is not JSON"@)
            &&& spec_is_success_status(*status) && shape.parsed && !spec_shape_ok(*shape) ==> (
            r matches Err(ApiError::InvalidResponse(m)) && m@
                == "the response does not carry the API fingerprint"@)
        },
{
    match outcome {
        AttemptOutcome::TransportFailure { detail } => Err(
            ApiError::RequestFailed(detail.clone()),
        ),
        AttemptOutcome::Response { status, shape } => {
            let st = *status;
            if !(200 <= st && st <= 299) {
                Err(ApiError::HttpError(st))
            } else if !shape.parsed {
                Err(ApiError::ResponseReadFailed(String::from_str("the response body is not JSON")))
            } else if shape.has_success && shape.has_data_list {
                Ok(())
            } else {
                Err(
                    ApiError::InvalidResponse(
                        String::from_str("the response does not carry the API fingerprint"),
                    ),
                )
            }
        },
    }
}

/// Validation is structural, not mere reachability: among answered calls a
/// success status alone never validates — the body's fingerprint decides.
pub proof fn lemma_validation_is_structural(status: u16, shape: BodyShape)
    ensures
        spec_is_success_status(status) ==> spec_attempt_succeeds(
            AttemptOutcome::Response { status, shape },
        ) == spec_shape_ok(shape),
        !spec_shape_ok(shape) ==> !spec_attempt_succeeds(
            AttemptOutcome::Response { status, shape },
        ),
{
}

/// Whether a failed attempt should be retried: more attempts remain.
pub fn should_retry(attempt: u32, succeeded: bool) -> (r: bool)
    ensures
        r == (!succeeded && attempt < MAX_PROBE_ATTEMPTS),
{
    !succeeded && attempt < MAX_PROBE_ATTEMPTS
}

/// Errors that point at a service which exists but is not ready: the
/// request never completed, or the server answered 502, 503 or 504.
pub open spec fn spec_is_transient(e: ApiError) -> bool {
    match e {
        ApiError::RequestFailed(_) => true,
        ApiError::HttpError(c) => c == 502 || c == 503 || c == 504,
        _ => false,
    }
}

/// The reason category diagnosis assigns, stripped of its payload.
#[derive(Debug, PartialEq, Eq, Structural)]
pub enum ReasonKind {
    NotRunning,
    PortOccupied,
    Initializing,
    ApiError,
}

/// The category of a reason.
pub open spec fn reason_kind_of(r: DisconnectReason) -> ReasonKind {
    match r {
        DisconnectReason::NotRunning => ReasonKind::NotRunning,
        DisconnectReason::PortOccupied { .. } => ReasonKind::PortOccupied,
        DisconnectReason::Initializing => ReasonKind::Initializing,
        DisconnectReason::ApiError { .. } => ReasonKind::ApiError,
    }
}

/// Whether the port owner is the target application itself, by its name.
pub open spec fn spec_owner_is_target(o: PortOwner) -> bool {
    is_target_name_bytes(vstd::utf8::encode_utf8(o.process_name@))
}

/// The diagnosis order: liveness dominates, then foreign port ownership,
/// then the error's own shape.
pub open spec fn spec_diagnose_kind(
    e: ApiError,
    running: bool,
    owner_present: bool,
    owner_is_target: bool,
) -> ReasonKind {
    if !running {
        ReasonKind::NotRunning
    } else if owner_present && !owner_is_target {
        ReasonKind::PortOccupied
    } else if owner_present && spec_is_transient(e) {
        ReasonKind::Initializing
    } else {
        ReasonKind::ApiError
    }
}

/// A process that is not running dominates diagnosis: whatever the error
/// looked like and whoever sits on the port, the reason is `NotRunning`.
pub proof fn lemma_not_running_dominates(e: ApiError, owner_present: bool, owner_is_target: bool)
    ensures
        spec_diagnose_kind(e, false, owner_present, owner_is_target) == ReasonKind::NotRunning,
{
}

/// When the target itself owns the port, diagnosis never blames a foreign
/// process; and a transport-level failure is then read as `Initializing`.
pub proof fn lemma_own_port_is_never_occupied(e: ApiError, running: bool)
    ensures
        spec_diagnose_kind(e, running, true, true) != ReasonKind::PortOccupied,
        running && spec_is_transient(e) ==> spec_diagnose_kind(e, running, true, true)
            == ReasonKind::Initializing,
{
}

/// The message attached to a `PortOccupied` diagnosis.
pub open spec fn port_occupied_message(port: u16, name: Seq<char>, pid: u32) -> Seq<char> {
    "port "@ + dec_chars(port as int) + " is occupied by "@ + name + " (pid "@ + dec_chars(
        pid as int,
    ) + ")"@
}

/// A human-readable description of an error.
pub open spec fn spec_describe(e: ApiError) -> Seq<char> {
    match e {
        ApiError::RequestFailed(m) => "request failed: "@ + m@,
        ApiError::HttpError(c) => "http error "@ + dec_chars(c as int),
        ApiError::ResponseReadFailed(m) => "response read failed: "@ + m@,
        ApiError::InvalidResponse(m) => "invalid response: "@ + m@,
    }
}

impl ApiError {
    /// Render the error for a message field.
    pub fn describe(&self) -> (r: String)
        ensures
            r@ == spec_describe(*self),
    {
        match self {
            ApiError::RequestFailed(m) => {
                let mut s = String::from_str("request failed: ");
                s.append(m.as_str());
                s
            },
            ApiError::HttpError(c) => {
                let mut s = String::from_str("http error ");
                append_decimal(&mut s, *c as u64);
                s
            },
            ApiError::ResponseReadFailed(m) => {
                let mut s = String::from_str("response read failed: ");
                s.append(m.as_str());
                s
            },
            ApiError::InvalidResponse(m) => {
                let mut s = String::from_str("invalid response: ");
                s.append(m.as_str());
                s
            },
        }
    }
}

/// Diagnose why a probe session failed. `running` says whether any process
/// of the target was seen; `owner` is the process resolved as owning the
/// probed port, when the port had one and its process still existed.
pub fn diagnose_disconnect(e: &ApiError, running: bool, owner: &Option<PortOwner>, port: u16) -> (r:
    ConnectionStatus)
    ensures
        r is Disconnected,
        r matches ConnectionStatus::Disconnected { reason, .. } ==> reason_kind_of(reason)
            == spec_diagnose_kind(
            *e,
            running,
            owner is Some,
            owner matches Some(o) && spec_owner_is_target(*o),
        ),
        !running ==> (r matches ConnectionStatus::Disconnected { reason, message } && message@
            == "the target application is not running"@),
        owner matches Some(o) ==> {
            &&& running && !spec_owner_is_target(*o) ==> (r matches
                ConnectionStatus::Disconnected {
                    reason: DisconnectReason::PortOccupied { process_name, process_id },
                    message,
                } && process_name == o.process_name && process_id == o.process_id && message@
                == port_occupied_message(port, o.process_name@, o.process_id))
            &&& running && spec_owner_is_target(*o) && !spec_is_transient(*e) ==> (r matches
                ConnectionStatus::Disconnected {
                    reason: DisconnectReason::ApiError { error },
                    ..
                } && error@ == spec_describe(*e))
            &&& running && spec_owner_is_target(*o) && (e matches ApiError::RequestFailed(_))
                ==> (r matches ConnectionStatus::Disconnected { message, .. } && message@
                == "the target application is starting, the API is not ready yet"@)
            &&& running && spec_owner_is_target(*o) && spec_is_transient(*e) && (e matches
                ApiError::HttpError(_)) ==> (r matches ConnectionStatus::Disconnected {
                    message,
                    ..
                } && message@ == "the API is initializing"@)
        },
        running && owner is None ==> (r matches ConnectionStatus::Disconnected {
            reason: DisconnectReason::ApiError { error },
            ..
        } && error@ == spec_describe(*e)),
{
    if !running {
        return ConnectionStatus::Disconnected {
            reason: DisconnectReason::NotRunning,
            message: String::from_str("the target application is not running"),
        };
    }
    match owner {
        Some(o) => {
            if crate::names::is_bitbrowser_process(o.process_name.as_str()) {
                match e {
                    ApiError::RequestFailed(_) => ConnectionStatus::Disconnected {
                        reason: DisconnectReason::Initializing,
                        message: String::from_str(
                            "the target application is starting, the API is not ready yet",
                        ),
                    },
                    ApiError::HttpError(c) => {
                        let code = *c;
                        if code == 502 || code == 503 || code == 504 {
                            ConnectionStatus::Disconnected {
                                reason: DisconnectReason::Initializing,
                                message: String::from_str("the API is initializing"),
                            }
                        } else {
                            ConnectionStatus::Disconnected {
                                reason: DisconnectReason::ApiError { error: e.describe() },
                                message: String::from_str("the API answered abnormally"),
                            }
                        }
                    },
                    _ => ConnectionStatus::Disconnected {
                        reason: DisconnectReason::ApiError { error: e.describe() },
                        message: String::from_str("the API answered abnormally"),
                    },
                }
            } else {
                let mut m = String::from_str("port ");
                append_decimal(&mut m, port as u64);
                m.append(" is occupied by ");
                m.append(o.process_name.as_str());
                m.append(" (pid ");
                append_decimal(&mut m, o.process_id as u64);
                m.append(")");
                proof {
                    assert(m@ =~= port_occupied_message(port, o.process_name@, o.process_id));
                }
                ConnectionStatus::Disconnected {
                    reason: DisconnectReason::PortOccupied {
                        process_name: o.process_name.clone(),
                        process_id: o.process_id,
                    },
                    message: m,
                }
            }
        },
        None => ConnectionStatus::Disconnected {
            reason: DisconnectReason::ApiError { error: e.describe() },
            message: String::from_str(
                "the target application is running but the API cannot be reached",
            ),
        },
    }
}

/// The status reported when a probe session succeeded.
pub fn connected_status() -> (r: ConnectionStatus)
    ensures
        r matches ConnectionStatus::Connected { message } && message@
            == "the control API is reachable"@,
{
    ConnectionStatus::Connected { message: String::from_str("the control API is reachable") }
}

/// The status after a whole probe session: connected when no error
/// remains, otherwise the diagnosis of the error that does.
pub fn status_after_probe(
    probe_error: &Option<ApiError>,
    running: bool,
    owner: &Option<PortOwner>,
    port: u16,
) -> (r: ConnectionStatus)
    ensures
        r is Connected <==> probe_error is None,
        probe_error matches Some(e) ==> (r matches ConnectionStatus::Disconnected { reason, .. }
            && reason_kind_of(reason) == spec_diagnose_kind(
            *e,
            running,
            owner is Some,
            owner matches Some(o) && spec_owner_is_target(*o),
        )),
{
    match probe_error {
        None => connected_status(),
        Some(e) => diagnose_disconnect(e, running, owner, port),
    }
}

} // verus!
