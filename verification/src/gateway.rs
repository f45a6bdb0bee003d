//! The decision core of each HTTP endpoint the gateway exposes.
//!
//! Every function here is a total, verified map from what the gateway has
//! seen (its state, the request, the upstream's observed outcome) to what
//! it must answer: exact status codes, exact bodies, and the new readiness
//! value. The unverified shell performs the outbound calls and feeds the
//! outcome in as a plain value, so these contracts hold whatever the
//! network did.

use vstd::prelude::*;
use crate::readiness::{next_ready, ReadinessEvent};

verus! {

/// The status the gateway answers on plain success.
pub const STATUS_OK: u16 = 200;

/// The status the gateway answers when the upstream call failed.
pub const STATUS_BAD_GATEWAY: u16 = 502;

/// An HTTP success status, as upstream status lines are classified.
pub open spec fn is_success_status(status: u16) -> bool {
    200 <= status < 300
}

/// What came of one forwarded generation request.
pub enum UpstreamOutcome {
    /// The upstream answered and its body was read in full.
    Reply { status: u16, body: String },
    /// The upstream answered a status line but its body could not be read.
    BodyUnreadable { status: u16 },
    /// The upstream could not be reached at all.
    Unreachable,
}

/// What came of one pull request sent upstream.
pub enum PullOutcome {
    /// The upstream answered with this status.
    Reply { status: u16 },
    /// The upstream could not be reached at all.
    Unreachable,
}

/// Why a pull failed.
#[derive(Clone, Copy, PartialEq, Eq, Structural, Debug)]
pub enum PullError {
    /// The upstream answered, but not with a success status.
    UpstreamStatus,
    /// The upstream could not be reached.
    Transport,
}

/// A pull counts as successful exactly when the upstream answered a
/// success status.
pub open spec fn pull_succeeded(outcome: PullOutcome) -> bool {
    outcome matches PullOutcome::Reply { status } && is_success_status(status)
}

/// The readiness event one pull outcome amounts to.
pub open spec fn pull_event(outcome: PullOutcome) -> ReadinessEvent {
    if pull_succeeded(outcome) {
        ReadinessEvent::PullSucceeded
    } else {
        ReadinessEvent::PullFailed
    }
}

/// The readiness event one pull outcome amounts to, as a value the
/// preload task can feed to the readiness machine.
pub fn pull_event_of(outcome: &PullOutcome) -> (e: ReadinessEvent)
    ensures
        e == pull_event(*outcome),
{
    match ollama_pull(outcome) {
        Ok(_) => ReadinessEvent::PullSucceeded,
        Err(_) => ReadinessEvent::PullFailed,
    }
}

/// The liveness answer: always success, immediately, whatever the backend
/// is doing — this endpoint consults nothing.
pub fn health() -> (r: (u16, &'static str))
    ensures
        r.0 == STATUS_OK,
        r.1@ == "ok"@,
{
    (STATUS_OK, "ok")
}

/// The readiness answer: success, with the current signal as a JSON body.
pub fn ready(is_ready: bool) -> (r: (u16, &'static str))
    ensures
        r.0 == STATUS_OK,
        is_ready ==> r.1@ == "{\"ready\":true}"@,
        !is_ready ==> r.1@ == "{\"ready\":false}"@,
{
    if is_ready {
        (STATUS_OK, "{\"ready\":true}")
    } else {
        (STATUS_OK, "{\"ready\":false}")
    }
}

/// Classify a pull outcome: success exactly on an upstream success status,
/// and the error names whether the upstream answered or was unreachable.
pub fn ollama_pull(outcome: &PullOutcome) -> (r: Result<(), PullError>)
    ensures
        r is Ok <==> pull_succeeded(*outcome),
        *outcome is Unreachable ==> r == Result::<(), PullError>::Err(PullError::Transport),
        (*outcome matches PullOutcome::Reply { status } && !is_success_status(status)) ==> r
            == Result::<(), PullError>::Err(PullError::UpstreamStatus),
{
    match outcome {
        PullOutcome::Reply { status } => {
            if 200 <= *status && *status < 300 {
                Ok(())
            } else {
                Err(PullError::UpstreamStatus)
            }
        },
        PullOutcome::Unreachable => Err(PullError::Transport),
    }
}

/// The on-demand pull endpoint's whole decision: answer `200 "pulled"` and
/// raise readiness on success; answer `502 "pull failed"` and leave
/// readiness untouched otherwise. The returned readiness is exactly one
/// step of the readiness machine, so its monotonicity laws apply.
pub fn pull(is_ready: bool, outcome: &PullOutcome) -> (r: (u16, &'static str, bool))
    ensures
        pull_succeeded(*outcome) ==> r.0 == STATUS_OK && r.1@ == "pulled"@ && r.2,
        !pull_succeeded(*outcome) ==> r.0 == STATUS_BAD_GATEWAY && r.1@ == "pull failed"@
            && r.2 == is_ready,
        r.2 == next_ready(is_ready, pull_event(*outcome)),
{
    match ollama_pull(outcome) {
        Ok(_) => (STATUS_OK, "pulled", true),
        Err(_) => (STATUS_BAD_GATEWAY, "pull failed", is_ready),
    }
}

/// The model a generation request is forwarded for: the caller's when
/// present, otherwise the configured default.
pub fn effective_model(model: Option<String>, default_model: &String) -> (r: String)
    ensures
        model matches Some(m) ==> r@ == m@,
        model is None ==> r@ == default_model@,
{
    match model {
        Some(m) => m,
        None => default_model.clone(),
    }
}

/// The generation endpoint's answer for one observed upstream outcome: the
/// upstream's own status and body passed through unchanged, or a
/// bad-gateway answer with a fixed text when the upstream was unreachable
/// or its body could not be read.
pub fn generate(outcome: UpstreamOutcome) -> (r: (u16, String))
    ensures
        outcome matches UpstreamOutcome::Reply { status, body } ==> r.0 == status && r.1@
            == body@,
        outcome is BodyUnreadable ==> r.0 == STATUS_BAD_GATEWAY && r.1@
            == "upstream read error"@,
        outcome is Unreachable ==> r.0 == STATUS_BAD_GATEWAY && r.1@ == "upstream error"@,
{
    match outcome {
        UpstreamOutcome::Reply { status, body } => (status, body),
        UpstreamOutcome::BodyUnreadable { status: _ } => (
            STATUS_BAD_GATEWAY,
            String::from_str("upstream read error"),
        ),
        UpstreamOutcome::Unreachable => (
            STATUS_BAD_GATEWAY,
            String::from_str("upstream error"),
        ),
    }
}

/// The upstream generation endpoint for a base URL.
pub fn api_generate_url(base: &str) -> (u: String)
    ensures
        u@ == base@ + "/api/generate"@,
{
    let mut u = String::from_str(base);
    u.append("/api/generate");
    u
}

/// The upstream model-pull endpoint for a base URL.
pub fn api_pull_url(base: &str) -> (u: String)
    ensures
        u@ == base@ + "/api/pull"@,
{
    let mut u = String::from_str(base);
    u.append("/api/pull");
    u
}

} // verus!
