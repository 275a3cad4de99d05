use ai_vitals::PingState;
use ai_vitals::cli::Config;
use ai_vitals::exporters::{Cronitor, PingDelivery};

#[test]
fn test_cronitor_client_creation() {
    let config = Config::default();
    let client = Cronitor::new(config, 4242);
    assert!(client.is_ok());
}

#[test]
fn test_cronitor_ping_url_construction_without_message() {
    let config = Config::default();
    let client = Cronitor::new(config, 4242).unwrap();

    let url = client.build_ping_url(PingState::Run, 0, None);

    assert!(url.contains("https://cronitor.link/test-monitor"));
    assert!(url.contains("state=run"));
    assert!(url.contains("status_code=0"));
    assert!(url.contains("env=test"));
    assert!(url.contains("series="));
    assert!(url.contains("host="));
    assert!(!url.contains("message="));
}

#[test]
fn test_cronitor_ping_url_construction_with_message() {
    let config = Config::default();
    let client = Cronitor::new(config, 4242).unwrap();

    let url = client.build_ping_url(PingState::Fail, 500, Some("Test error"));

    assert!(url.contains("https://cronitor.link/test-monitor"));
    assert!(url.contains("state=fail"));
    assert!(url.contains("status_code=500"));
    assert!(url.contains("env=test"));
    assert!(url.contains("message=Test%20error")); // URL encoded
}

#[test]
fn test_cronitor_ping_url_special_characters() {
    let config = Config::default();
    let client = Cronitor::new(config, 4242).unwrap();

    let url = client.build_ping_url(PingState::Fail, 500, Some("Error: 500 & timeout!"));

    assert!(url.contains("message=Error%3A%20500%20%26%20timeout%21"));
}

#[test]
fn test_cronitor_ping_url_non_ascii_message() {
    let config = Config::default();
    let client = Cronitor::new(config, 1).unwrap();

    // Each UTF-8 byte of a non-ASCII character is percent-encoded.
    let url = client.build_ping_url(PingState::Fail, 1, Some("h\u{e9}llo"));
    assert!(url.contains("message=h%C3%A9llo"));
}

#[test]
fn test_cronitor_ping_url_series_identifier() {
    let config = Config::default();
    let client = Cronitor::new(config, 987654).unwrap();

    let url = client.build_ping_url(PingState::Run, 0, None);

    // The series identifier ends with the dash-separated process component.
    assert!(url.contains("&series="));
    assert!(url.contains("-987654&status_code="));
}

#[test]
fn test_cronitor_ping_url_states() {
    let config = Config::default();
    let client = Cronitor::new(config, 1).unwrap();
    assert!(client.build_ping_url(PingState::Run, 0, None).contains("?state=run&"));
    assert!(client.build_ping_url(PingState::Complete, 0, None).contains("?state=complete&"));
    assert!(client.build_ping_url(PingState::Fail, 1, None).contains("?state=fail&"));
}

#[test]
fn test_monitor_payload_base_fields() {
    let config = Config::default();
    let client = Cronitor::new(config, 1).unwrap();
    let payload = client.get_monitor_update_payload();

    assert_eq!(payload.monitor_type, "job");
    assert_eq!(payload.key, "test-monitor");
    assert_eq!(payload.failure_tolerance, Some(1));
    assert_eq!(payload.realert_interval, Some(9999));
    // Default timeout is 10 seconds: the duration assertion doubles it.
    assert_eq!(payload.assertions[0], "metric.duration < 20s");
    // Default minimum success frequency is 60 minutes.
    assert_eq!(payload.assertions.len(), 2);
    assert_eq!(payload.assertions[1], "job.completes < 60 minute");
}

#[test]
fn test_monitor_payload_schedule_tolerance_both_set() {
    let config = Config {
        schedule: Some("0 * * * *".to_string()),
        consecutive_missing: Some(3),
        ..Default::default()
    };
    let client = Cronitor::new(config, 1).unwrap();
    let payload = client.get_monitor_update_payload();
    assert_eq!(payload.schedule, Some("0 * * * *".to_string()));
    assert_eq!(payload.schedule_tolerance, Some(3));
}

#[test]
fn test_monitor_payload_schedule_tolerance_missing_schedule() {
    let config = Config {
        schedule: None,
        consecutive_missing: Some(3),
        ..Default::default()
    };
    let client = Cronitor::new(config, 1).unwrap();
    let payload = client.get_monitor_update_payload();
    assert_eq!(payload.schedule, None);
    assert_eq!(payload.schedule_tolerance, None);
}

#[test]
fn test_monitor_payload_schedule_tolerance_missing_tolerance() {
    let config = Config {
        schedule: Some("every 5 minutes".to_string()),
        consecutive_missing: None,
        ..Default::default()
    };
    let client = Cronitor::new(config, 1).unwrap();
    let payload = client.get_monitor_update_payload();
    assert_eq!(payload.schedule_tolerance, None);
}

#[test]
fn test_monitor_payload_no_success_freq_single_assertion() {
    let config = Config {
        min_success_freq: None,
        monitor_group: Some("llm".to_string()),
        ..Default::default()
    };
    let client = Cronitor::new(config, 1).unwrap();
    let payload = client.get_monitor_update_payload();
    assert_eq!(payload.assertions.len(), 1);
    assert_eq!(payload.group, Some("llm".to_string()));
}

#[test]
fn test_should_update_monitor_only_on_run_with_key() {
    let with_key = Config {
        cronitor_api_key: Some("test-api-key".to_string()),
        ..Default::default()
    };
    let client = Cronitor::new(with_key, 1).unwrap();
    assert!(client.should_update_monitor(PingState::Run));
    assert!(!client.should_update_monitor(PingState::Complete));
    assert!(!client.should_update_monitor(PingState::Fail));

    let without_key = Config::default();
    let client = Cronitor::new(without_key, 1).unwrap();
    assert!(!client.should_update_monitor(PingState::Run));
}

#[test]
fn test_classify_delivery() {
    assert_eq!(Cronitor::classify_delivery(Some(200)), PingDelivery::Accepted);
    assert_eq!(Cronitor::classify_delivery(Some(299)), PingDelivery::Accepted);
    assert_eq!(
        Cronitor::classify_delivery(Some(500)),
        PingDelivery::Rejected { status: 500 }
    );
    assert_eq!(Cronitor::classify_delivery(None), PingDelivery::Unreachable);
}

#[test]
fn test_cronitor_invalid_timeout_rejected() {
    let config = Config {
        timeout_seconds: 0,
        ..Default::default()
    };
    let client = Cronitor::new(config, 1);
    assert!(client.is_err());
}
