//! Health monitoring core for an LLM inference endpoint.
//!
//! One probe attempt walks a fixed lifecycle: a `run` ping is emitted, the
//! endpoint is probed, the probe outcome is classified, and exactly one
//! terminal ping (`complete` or `fail`) follows, together with a process exit
//! code.  This crate holds the verified logic of that lifecycle: outcome
//! classification, ping-URL construction (including percent-encoding of
//! messages), and derivation of the monitoring backend's monitor-definition
//! document from local alerting settings.  The network and subprocess I/O
//! around it lives outside the library and hands plain values in and out.
use vstd::prelude::*;

pub mod cli;
pub mod encoding;
pub mod exporters;
pub mod probes;

verus! {

use vstd::string::StringExecFns;
use crate::cli::{Config, ConfigError};

/// Result of one probe attempt against the monitored endpoint.
#[derive(Debug, Clone, PartialEq)]
pub enum ProbeResult {
    /// The endpoint answered with a success status.
    Success,
    /// The endpoint answered with the given non-success HTTP status code.
    Error(u16),
    /// The transport reported a timeout before a response arrived.
    Timeout,
    /// The transport failed before a response arrived, with a description.
    NetworkError(String),
}

/// Lifecycle state carried by a single ping to the monitoring backend.
#[derive(Debug, Clone, Copy, PartialEq, Eq, Structural)]
pub enum PingState {
    Run,
    Complete,
    Fail,
}

impl PingState {
    /// The wire name of the state, as it appears in a ping URL.
    pub fn as_str(&self) -> (r: &'static str)
        ensures
            r@ == self.spec_str(),
    {
        match self {
            PingState::Run => "run",
            PingState::Complete => "complete",
            PingState::Fail => "fail",
        }
    }

    /// The wire name of the state as a character sequence.
    pub open spec fn spec_str(self) -> Seq<char> {
        match self {
            PingState::Run => "run"@,
            PingState::Complete => "complete"@,
            PingState::Fail => "fail"@,
        }
    }
}

/// One notification to be sent to the monitoring backend.
#[derive(Debug, PartialEq)]
pub struct PingEvent {
    /// Lifecycle state the ping reports.
    pub state: PingState,
    /// Status code the ping carries.
    pub status_code: u16,
    /// Free-text message, percent-encoded into the ping URL when present.
    pub message: Option<String>,
}

// ---------------------------------------------------------------------------
// Classifying a probe result
// ---------------------------------------------------------------------------

/// The lifecycle state of the terminal ping for a probe result.
pub open spec fn terminal_state_of(result: ProbeResult) -> PingState {
    if result is Success {
        PingState::Complete
    } else {
        PingState::Fail
    }
}

/// The status code of the terminal ping for a probe result.
pub open spec fn terminal_code_of(result: ProbeResult) -> u16 {
    match result {
        ProbeResult::Success => 0,
        ProbeResult::Error(code) => code,
        ProbeResult::Timeout => 124,
        ProbeResult::NetworkError(_) => 1,
    }
}

/// The message of the terminal ping for a probe result.
pub open spec fn terminal_message_of(result: ProbeResult) -> Option<Seq<char>> {
    match result {
        ProbeResult::Success => None,
        ProbeResult::Error(_) => None,
        ProbeResult::Timeout => Some("Request timeout"@),
        ProbeResult::NetworkError(desc) => Some("Network error: "@ + desc@),
    }
}

/// The process exit code for a probe result.
pub open spec fn exit_code_of(result: ProbeResult) -> i32 {
    match result {
        ProbeResult::Success => 0,
        ProbeResult::Error(_) => 1,
        ProbeResult::Timeout => 124,
        ProbeResult::NetworkError(_) => 1,
    }
}

/// The lifecycle states of the pings one probe attempt emits, in order.
pub open spec fn attempt_ping_states(result: ProbeResult) -> Seq<PingState> {
    seq![PingState::Run, terminal_state_of(result)]
}

/// The exit code of a whole attempt, given how the two notification
/// deliveries went.  It is a function of the probe result alone.
pub open spec fn attempt_exit(
    result: ProbeResult,
    run_delivery: exporters::PingDelivery,
    terminal_delivery: exporters::PingDelivery,
) -> int {
    exit_code_of(result) as int
}

// ---------------------------------------------------------------------------
// One probe attempt
// ---------------------------------------------------------------------------

/// Where a probe attempt stands in its lifecycle.
#[derive(Debug, Clone, Copy, PartialEq, Eq, Structural)]
pub enum AttemptPhase {
    NotStarted,
    Running,
    Completed,
    Failed,
}

/// The lifecycle of one probe attempt: beginning it yields the run ping,
/// and finishing it with the probe result yields the single terminal ping
/// and the exit code.
#[derive(Debug)]
pub struct Attempt {
    /// Current lifecycle phase.
    pub phase: AttemptPhase,
}

impl Attempt {
    /// A fresh attempt, not yet begun.
    pub fn new() -> (r: Attempt)
        ensures
            r.phase is NotStarted,
    {
        Attempt { phase: AttemptPhase::NotStarted }
    }

    /// Begins the attempt, yielding the run ping that must be sent before
    /// the endpoint is probed.
    pub fn begin(&mut self) -> (r: PingEvent)
        requires
            old(self).phase is NotStarted,
        ensures
            final(self).phase is Running,
            r.state is Run,
            r.state == attempt_ping_states(ProbeResult::Success)[0],
            r.status_code == 0,
            r.message is None,
    {
        self.phase = AttemptPhase::Running;
        PingEvent { state: PingState::Run, status_code: 0, message: None }
    }

    /// Finishes the attempt with the probe result, yielding the terminal
    /// ping and the process exit code mandated by the result.
    pub fn finish(&mut self, result: ProbeResult) -> (r: (PingEvent, i32))
        requires
            old(self).phase is Running,
        ensures
            final(self).phase == (if result is Success {
                AttemptPhase::Completed
            } else {
                AttemptPhase::Failed
            }),
            r.0.state == terminal_state_of(result),
            r.0.state == attempt_ping_states(result)[1],
            r.0.status_code == terminal_code_of(result),
            r.0.message is Some <==> terminal_message_of(result) is Some,
            r.0.message matches Some(m) ==> m@ == terminal_message_of(result)->Some_0,
            r.1 == exit_code_of(result),
    {
        match result {
            ProbeResult::Success => {
                self.phase = AttemptPhase::Completed;
                (PingEvent { state: PingState::Complete, status_code: 0, message: None }, 0)
            },
            ProbeResult::Error(code) => {
                self.phase = AttemptPhase::Failed;
                (PingEvent { state: PingState::Fail, status_code: code, message: None }, 1)
            },
            ProbeResult::Timeout => {
                self.phase = AttemptPhase::Failed;
                (
                    PingEvent {
                        state: PingState::Fail,
                        status_code: 124,
                        message: Some("Request timeout".to_owned()),
                    },
                    124,
                )
            },
            ProbeResult::NetworkError(desc) => {
                self.phase = AttemptPhase::Failed;
                let mut message = "Network error: ".to_owned();
                message.append(desc.as_str());
                (PingEvent { state: PingState::Fail, status_code: 1, message: Some(message) }, 1)
            },
        }
    }
}

/// The exit code of a whole attempt.  The delivery reports are taken so the
/// decision provably cannot depend on them: a failed notification never
/// changes the exit code.
pub fn final_exit_code(
    result: &ProbeResult,
    run_delivery: &exporters::PingDelivery,
    terminal_delivery: &exporters::PingDelivery,
) -> (r: i32)
    ensures
        r as int == attempt_exit(*result, *run_delivery, *terminal_delivery),
        r == exit_code_of(*result),
{
    match result {
        ProbeResult::Success => 0,
        ProbeResult::Error(_) => 1,
        ProbeResult::Timeout => 124,
        ProbeResult::NetworkError(_) => 1,
    }
}

// ---------------------------------------------------------------------------
// The orchestrator
// ---------------------------------------------------------------------------

/// Main monitoring orchestrator: one exporter and one probe, fixed at
/// construction.
#[derive(Debug)]
pub struct Monitor {
    /// The exporter pings are addressed through.
    pub exporter: exporters::Cronitor,
    /// The probe this monitor drives.
    pub probe: probes::AnyProbe,
}

impl Monitor {
    /// Builds the orchestrator for the configured probe kind, with the
    /// process identifier that enters the series identifier; fails exactly
    /// when the configuration is not well-formed.
    pub fn new(config: Config, pid: u32) -> (r: Result<Monitor, ConfigError>)
        ensures
            r is Ok <==> config.wf(),
            r matches Ok(m) ==> m.exporter.config == config && m.exporter.series_pid == pid,
            r matches Ok(m) ==> (config.endpoint_type is Newman ==> (m.probe matches
                probes::AnyProbe::Newman(p) && p.config == config)),
            r matches Ok(m) ==> (!(config.endpoint_type is Newman) ==> (m.probe matches
                probes::AnyProbe::OpenAI(p) && p.config == config)),
            r matches Err(e) ==> e is InvalidTimeout,
    {
        let exporter = match exporters::Cronitor::new(config.clone(), pid) {
            Ok(e) => e,
            Err(e) => {
                return Err(e);
            },
        };
        let probe = match config.endpoint_type {
            probes::Type::Newman => match probes::Newman::new(config) {
                Ok(p) => probes::AnyProbe::Newman(p),
                Err(e) => {
                    return Err(e);
                },
            },
            _ => match probes::OpenAI::new(config) {
                Ok(p) => probes::AnyProbe::OpenAI(p),
                Err(e) => {
                    return Err(e);
                },
            },
        };
        Ok(Monitor { exporter, probe })
    }

    /// Whether this monitor repeats on a fixed interval; a zero interval
    /// runs one attempt and exits.
    pub fn continuous_mode(&self) -> (r: bool)
        ensures
            r == (self.exporter.config.interval_seconds > 0),
    {
        self.exporter.config.interval_seconds > 0
    }
}

/// How long the scheduling loop still waits before the next attempt: the
/// interval is measured from the start of one iteration to the start of the
/// next, so the wait is what remains of it after the attempt's own duration,
/// and nothing when the attempt ran longer than the interval.
pub fn next_wait_millis(interval_millis: u64, elapsed_millis: u64) -> (r: u64)
    ensures
        r == if elapsed_millis >= interval_millis {
            0u64
        } else {
            (interval_millis - elapsed_millis) as u64
        },
{
    if elapsed_millis >= interval_millis {
        0
    } else {
        interval_millis - elapsed_millis
    }
}

// ---------------------------------------------------------------------------
// Lifecycle laws
// ---------------------------------------------------------------------------

/// For every probe result, one attempt emits exactly two pings: the run
/// ping first, then exactly one terminal ping, whose state, status code,
/// message and exit code follow the result: success completes with code 0
/// and exit 0; an HTTP error fails with the status code and exit 1; a
/// timeout fails with code 124, the timeout message and exit 124; a network
/// error fails with code 1, a message naming the error and exit 1.
pub proof fn lemma_run_before_terminal(result: ProbeResult)
    ensures
        attempt_ping_states(result).len() == 2,
        attempt_ping_states(result)[0] is Run,
        !(attempt_ping_states(result)[1] is Run),
        result is Success ==> attempt_ping_states(result)[1] is Complete && terminal_code_of(
            result,
        ) == 0 && terminal_message_of(result) is None && exit_code_of(result) == 0,
        result matches ProbeResult::Error(code) ==> attempt_ping_states(result)[1] is Fail
            && terminal_code_of(result) == code && terminal_message_of(result) is None
            && exit_code_of(result) == 1,
        result is Timeout ==> attempt_ping_states(result)[1] is Fail && terminal_code_of(result)
            == 124 && terminal_message_of(result) == Some("Request timeout"@) && exit_code_of(
            result,
        ) == 124,
        result matches ProbeResult::NetworkError(desc) ==> attempt_ping_states(result)[1] is Fail
            && terminal_code_of(result) == 1 && terminal_message_of(result) == Some(
            "Network error: "@ + desc@,
        ) && exit_code_of(result) == 1,
{
}

/// How the two notification deliveries went never changes the attempt's
/// exit code: the code is a function of the probe result alone.
pub proof fn lemma_delivery_independent(
    result: ProbeResult,
    run_a: exporters::PingDelivery,
    terminal_a: exporters::PingDelivery,
    run_b: exporters::PingDelivery,
    terminal_b: exporters::PingDelivery,
)
    ensures
        attempt_exit(result, run_a, terminal_a) == attempt_exit(result, run_b, terminal_b),
{
}

} // verus!
