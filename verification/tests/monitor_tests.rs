use ai_vitals::cli::{Config, ConfigError};
use ai_vitals::exporters::PingDelivery;
use ai_vitals::probes::{AnyProbe, TransportOutcome, Type};
use ai_vitals::{
    Attempt, AttemptPhase, Monitor, PingState, ProbeResult, final_exit_code, next_wait_millis,
};

#[test]
fn test_monitor_creation() {
    let config = Config::default();
    let monitor = Monitor::new(config, 4242);
    assert!(monitor.is_ok());
}

#[test]
fn test_monitor_selects_probe_by_kind() {
    let monitor = Monitor::new(Config::default(), 1).unwrap();
    assert!(matches!(monitor.probe, AnyProbe::OpenAI(_)));

    let newman_config = Config {
        endpoint_type: Type::Newman,
        ..Default::default()
    };
    let monitor = Monitor::new(newman_config, 1).unwrap();
    assert!(matches!(monitor.probe, AnyProbe::Newman(_)));
}

#[test]
fn test_monitor_rejects_invalid_timeout() {
    let config = Config {
        timeout_seconds: 0,
        ..Default::default()
    };
    assert_eq!(Monitor::new(config, 1).unwrap_err(), ConfigError::InvalidTimeout);
}

#[test]
fn test_ping_state_wire_names() {
    assert_eq!(PingState::Run.as_str(), "run");
    assert_eq!(PingState::Complete.as_str(), "complete");
    assert_eq!(PingState::Fail.as_str(), "fail");
}

/// Runs one attempt's lifecycle for a probe result and returns the pings
/// and the exit code, checking the run ping always comes first.
fn run_lifecycle(result: ProbeResult) -> (PingState, u16, Option<String>, i32) {
    let mut attempt = Attempt::new();
    assert_eq!(attempt.phase, AttemptPhase::NotStarted);
    let run_ping = attempt.begin();
    assert_eq!(run_ping.state, PingState::Run);
    assert_eq!(run_ping.status_code, 0);
    assert_eq!(run_ping.message, None);
    assert_eq!(attempt.phase, AttemptPhase::Running);
    let (terminal, exit_code) = attempt.finish(result);
    assert_ne!(terminal.state, PingState::Run);
    (terminal.state, terminal.status_code, terminal.message, exit_code)
}

#[test]
fn test_lifecycle_success() {
    // A 200 response on the chat endpoint completes with status 0, exit 0.
    let probe = ai_vitals::probes::OpenAI::new(Config::default()).unwrap();
    let result = probe.classify(TransportOutcome::Response { status: 200 });
    assert_eq!(result, ProbeResult::Success);
    let (state, code, message, exit) = run_lifecycle(result);
    assert_eq!(state, PingState::Complete);
    assert_eq!(code, 0);
    assert_eq!(message, None);
    assert_eq!(exit, 0);
}

#[test]
fn test_lifecycle_http_error() {
    // A 420 response on the embeddings endpoint fails with its status, exit 1.
    let config = Config {
        endpoint_type: Type::OpenAIEmbedding,
        ..Default::default()
    };
    let probe = ai_vitals::probes::OpenAI::new(config).unwrap();
    let result = probe.classify(TransportOutcome::Response { status: 420 });
    assert_eq!(result, ProbeResult::Error(420));
    let (state, code, message, exit) = run_lifecycle(result);
    assert_eq!(state, PingState::Fail);
    assert_eq!(code, 420);
    assert_eq!(message, None);
    assert_eq!(exit, 1);
}

#[test]
fn test_lifecycle_timeout() {
    // A transport timeout fails with status 124 and the timeout message.
    let probe = ai_vitals::probes::OpenAI::new(Config::default()).unwrap();
    let result = probe.classify(TransportOutcome::TimedOut);
    assert_eq!(result, ProbeResult::Timeout);
    let (state, code, message, exit) = run_lifecycle(result);
    assert_eq!(state, PingState::Fail);
    assert_eq!(code, 124);
    assert_eq!(message, Some("Request timeout".to_string()));
    assert_eq!(exit, 124);
}

#[test]
fn test_lifecycle_network_error() {
    // A transport failure fails with status 1 and a message naming the error.
    let probe = ai_vitals::probes::OpenAI::new(Config::default()).unwrap();
    let result = probe.classify(TransportOutcome::Failed {
        description: "invalid port".to_string(),
    });
    let (state, code, message, exit) = run_lifecycle(result);
    assert_eq!(state, PingState::Fail);
    assert_eq!(code, 1);
    let message = message.unwrap();
    assert!(!message.is_empty());
    assert!(message.contains("Network error:"));
    assert_eq!(message, "Network error: invalid port");
    assert_eq!(exit, 1);
}

#[test]
fn test_lifecycle_phases_terminal() {
    let mut attempt = Attempt::new();
    attempt.begin();
    attempt.finish(ProbeResult::Success);
    assert_eq!(attempt.phase, AttemptPhase::Completed);

    let mut attempt = Attempt::new();
    attempt.begin();
    attempt.finish(ProbeResult::Error(503));
    assert_eq!(attempt.phase, AttemptPhase::Failed);
}

#[test]
fn test_continuous_mode_flag() {
    let monitor = Monitor::new(Config::default(), 1).unwrap();
    assert!(!monitor.continuous_mode());

    let config = Config {
        interval_seconds: 300,
        ..Default::default()
    };
    let monitor = Monitor::new(config, 1).unwrap();
    assert!(monitor.continuous_mode());
}

#[test]
fn test_next_wait_millis() {
    assert_eq!(next_wait_millis(300_000, 12_000), 288_000);
    assert_eq!(next_wait_millis(300_000, 300_000), 0);
    assert_eq!(next_wait_millis(300_000, 400_000), 0);
    assert_eq!(next_wait_millis(0, 5), 0);
}

#[test]
fn test_exit_code_ignores_delivery() {
    // A failed notification must not change the exit code.
    let result = ProbeResult::Error(500);
    let delivered = final_exit_code(&result, &PingDelivery::Accepted, &PingDelivery::Accepted);
    let undelivered =
        final_exit_code(&result, &PingDelivery::Unreachable, &PingDelivery::Unreachable);
    assert_eq!(delivered, undelivered);
    assert_eq!(delivered, 1);

    let result = ProbeResult::Success;
    let rejected = final_exit_code(
        &result,
        &PingDelivery::Rejected { status: 404 },
        &PingDelivery::Unreachable,
    );
    assert_eq!(rejected, 0);
}
