//! The backend lifecycle policy: ensure the backend process is reachable,
//! and probe it periodically afterwards.
//!
//! The decisions live here, verified; the unverified shell performs each
//! decided action (probe, spawn, sleep) and reports what it observed. One
//! `ensure_running` pass is a small state machine: probe first, spawn only
//! if unreachable, then re-probe with a bounded retry budget and declare
//! `StartupTimeout` when the budget is spent. A startup failure is
//! non-fatal to the gateway by design: it still binds and serves, and
//! proxying fails upstream until an operator fixes the backend.
//!
//! The periodic health loop is stateless from tick to tick and never
//! touches readiness — these functions neither take nor return the
//! readiness signal, so a health blip cannot demote it.

use vstd::prelude::*;
use crate::config::BackendConfig;

verus! {

/// Why an `ensure_running` pass gave up.
#[derive(Clone, Copy, PartialEq, Eq, Structural, Debug)]
pub enum SupervisionError {
    /// The backend never answered the reachability probe within the
    /// startup retry budget.
    StartupTimeout,
}

/// Where one `ensure_running` pass stands.
#[derive(Clone, Copy, PartialEq, Eq, Structural, Debug)]
pub struct SupervisorState {
    /// Failed probes counted since the process was spawned.
    pub attempts: u64,
    /// Whether this pass has already spawned the backend process.
    pub spawned: bool,
}

/// What the shell must do next in an `ensure_running` pass.
#[derive(Clone, Copy, PartialEq, Eq, Structural, Debug)]
pub enum SupervisorAction {
    /// The backend answered: the pass is over, successfully.
    Done,
    /// The backend is unreachable and nothing was spawned yet: spawn it,
    /// then probe again.
    Spawn,
    /// The freshly spawned backend is not answering yet: wait one backoff
    /// interval, then probe again.
    Retry,
    /// The retry budget is spent: the pass is over, with `StartupTimeout`.
    Fail,
}

/// The fresh state an `ensure_running` pass starts from.
pub open spec fn supervisor_start() -> SupervisorState {
    SupervisorState { attempts: 0, spawned: false }
}

/// The supervision step relation: what one probe observation does to an
/// `ensure_running` pass.
pub open spec fn next_supervisor(state: SupervisorState, probe_ok: bool, budget: u64) -> (
    SupervisorAction,
    SupervisorState,
) {
    if probe_ok {
        (SupervisorAction::Done, state)
    } else if !state.spawned {
        (SupervisorAction::Spawn, SupervisorState { attempts: state.attempts, spawned: true })
    } else if state.attempts < budget {
        (
            SupervisorAction::Retry,
            SupervisorState { attempts: (state.attempts + 1) as u64, spawned: true },
        )
    } else {
        (SupervisorAction::Fail, state)
    }
}

/// Start a fresh `ensure_running` pass.
pub fn start_ensure_running() -> (s: SupervisorState)
    ensures
        s == supervisor_start(),
{
    SupervisorState { attempts: 0, spawned: false }
}

/// Advance an `ensure_running` pass by one probe observation. `budget` is
/// the pass's retry budget, `BackendConfig::startup_retries`.
pub fn ensure_running_step(state: SupervisorState, probe_ok: bool, budget: u64) -> (r: (
    SupervisorAction,
    SupervisorState,
))
    ensures
        r == next_supervisor(state, probe_ok, budget),
{
    if probe_ok {
        (SupervisorAction::Done, state)
    } else if !state.spawned {
        (SupervisorAction::Spawn, SupervisorState { attempts: state.attempts, spawned: true })
    } else if state.attempts < budget {
        (SupervisorAction::Retry, SupervisorState { attempts: state.attempts + 1, spawned: true })
    } else {
        (SupervisorAction::Fail, state)
    }
}

/// How far an `ensure_running` pass still has to go.
pub open spec fn supervisor_measure(state: SupervisorState, budget: u64) -> int {
    (if state.attempts <= budget {
        2 * (budget - state.attempts + 1)
    } else {
        0
    }) + (if state.spawned {
        0int
    } else {
        1int
    })
}

/// Every step that keeps the pass going strictly shrinks its measure, so
/// an `ensure_running` pass always ends, in `Done` or `Fail`, after at
/// most the budgeted number of probes.
pub proof fn lemma_supervision_bounded(state: SupervisorState, probe_ok: bool, budget: u64)
    ensures
        ({
            let (action, next) = next_supervisor(state, probe_ok, budget);
            &&& (action is Spawn || action is Retry) ==> supervisor_measure(next, budget)
                < supervisor_measure(state, budget)
            &&& (action is Spawn || action is Retry) ==> supervisor_measure(next, budget) >= 0
        }),
{
}

/// A pass whose budget is spent can only end: with the probe still
/// failing and the process already spawned, the action is `Fail`.
pub proof fn lemma_budget_spent_fails(state: SupervisorState, budget: u64)
    requires
        state.spawned,
        state.attempts >= budget,
    ensures
        next_supervisor(state, false, budget).0 is Fail,
{
}

/// What one health tick decides.
#[derive(Clone, Copy, PartialEq, Eq, Structural, Debug)]
pub enum HealthTickAction {
    /// The probe answered: nothing to do until the next tick.
    NoAction,
    /// The probe failed: run an `ensure_running` pass, then carry on.
    EnsureRunning,
}

/// One tick of the health loop. Each tick is independent: there is no
/// failure counter and no circuit breaker, and readiness is not involved.
pub fn health_tick(probe_ok: bool) -> (a: HealthTickAction)
    ensures
        a is EnsureRunning <==> !probe_ok,
{
    if probe_ok {
        HealthTickAction::NoAction
    } else {
        HealthTickAction::EnsureRunning
    }
}

/// The decimal digit character for `d`.
pub open spec fn digit_char(d: int) -> char
    recommends
        0 <= d < 10,
{
    if d == 0 {
        '0'
    } else if d == 1 {
        '1'
    } else if d == 2 {
        '2'
    } else if d == 3 {
        '3'
    } else if d == 4 {
        '4'
    } else if d == 5 {
        '5'
    } else if d == 6 {
        '6'
    } else if d == 7 {
        '7'
    } else if d == 8 {
        '8'
    } else {
        '9'
    }
}

/// The decimal rendering of `n`, most significant digit first, no sign
/// and no leading zero.
pub open spec fn decimal_chars(n: int) -> Seq<char>
    recommends
        n >= 0,
    decreases n,
{
    if n < 10 {
        seq![digit_char(n)]
    } else {
        decimal_chars(n / 10).push(digit_char(n % 10))
    }
}

/// The one-character string for a decimal digit.
fn digit_str(d: u16) -> (r: &'static str)
    requires
        d < 10,
    ensures
        r@ == seq![digit_char(d as int)],
{
    let r: &'static str = if d == 0 {
        "0"
    } else if d == 1 {
        "1"
    } else if d == 2 {
        "2"
    } else if d == 3 {
        "3"
    } else if d == 4 {
        "4"
    } else if d == 5 {
        "5"
    } else if d == 6 {
        "6"
    } else if d == 7 {
        "7"
    } else if d == 8 {
        "8"
    } else {
        "9"
    };
    proof {
        reveal_strlit("0");
        reveal_strlit("1");
        reveal_strlit("2");
        reveal_strlit("3");
        reveal_strlit("4");
        reveal_strlit("5");
        reveal_strlit("6");
        reveal_strlit("7");
        reveal_strlit("8");
        reveal_strlit("9");
        assert(r@ =~= seq![digit_char(d as int)]);
    }
    r
}

/// Render `n` in decimal.
pub fn u16_to_string(n: u16) -> (r: String)
    ensures
        r@ == decimal_chars(n as int),
    decreases n,
{
    if n < 10 {
        String::from_str(digit_str(n))
    } else {
        let mut r = u16_to_string(n / 10);
        r.append(digit_str(n % 10));
        proof {
            assert(r@ =~= decimal_chars(n as int));
        }
        r
    }
}

/// The URL the reachability probe asks, built from the backend's host,
/// port and probe path: `http://<host>:<port><path>`.
pub fn probe_url(config: &BackendConfig) -> (u: String)
    ensures
        u@ == "http://"@ + config.host@ + ":"@ + decimal_chars(config.port as int)
            + config.probe_path@,
{
    let mut u = String::from_str("http://");
    u.append(config.host.as_str());
    u.append(":");
    let port = u16_to_string(config.port);
    u.append(port.as_str());
    u.append(config.probe_path.as_str());
    u
}

} // verus!
