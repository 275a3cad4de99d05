use ai_vitals::ProbeResult;
use ai_vitals::cli::{Config, ConfigError};
use ai_vitals::probes::{Newman, OpenAI, ProbePayload, RunnerOutcome, TransportOutcome, Type};

#[test]
fn test_openai_creation() {
    let config = Config::default();
    let probe = OpenAI::new(config);
    assert!(probe.is_ok());
}

#[test]
fn test_openai_chat_endpoint_url() {
    let config = Config {
        endpoint_type: Type::OpenAIChatCompletion,
        server_url: "https://api.openai.com".to_string(),
        ..Default::default()
    };
    let probe = OpenAI::new(config).unwrap();

    let url = probe.build_endpoint_url();
    assert_eq!(url, "https://api.openai.com/v1/chat/completions");
}

#[test]
fn test_openai_embedding_endpoint_url() {
    let config = Config {
        endpoint_type: Type::OpenAIEmbedding,
        server_url: "https://api.example.com".to_string(),
        ..Default::default()
    };
    let probe = OpenAI::new(config).unwrap();

    let url = probe.build_endpoint_url();
    assert_eq!(url, "https://api.example.com/v1/embeddings");
}

#[test]
fn test_openai_chat_payload() {
    let config = Config {
        endpoint_type: Type::OpenAIChatCompletion,
        model_name: "a-piece-of-cheese".to_string(),
        ..Default::default()
    };
    let probe = OpenAI::new(config).unwrap();

    let payload = probe.build_payload();
    let expected = ProbePayload::ChatCompletion {
        model: "a-piece-of-cheese".to_string(),
        role: "user".to_string(),
        content: "test".to_string(),
        max_tokens: 1,
        priority: -100,
    };

    assert_eq!(payload, expected);
}

#[test]
fn test_openai_embedding_payload() {
    let config = Config {
        endpoint_type: Type::OpenAIEmbedding,
        model_name: "text-embedding-ada-002".to_string(),
        ..Default::default()
    };
    let probe = OpenAI::new(config).unwrap();

    let payload = probe.build_payload();
    let expected = ProbePayload::Embedding {
        model: "text-embedding-ada-002".to_string(),
        input: "test".to_string(),
        priority: -100,
    };

    assert_eq!(payload, expected);
}

#[test]
fn test_openai_rejects_newman_kind() {
    let config = Config {
        endpoint_type: Type::Newman,
        ..Default::default()
    };
    assert_eq!(OpenAI::new(config).unwrap_err(), ConfigError::ProbeKindMismatch);
}

#[test]
fn test_openai_rejects_zero_timeout() {
    let config = Config {
        timeout_seconds: 0,
        ..Default::default()
    };
    assert_eq!(OpenAI::new(config).unwrap_err(), ConfigError::InvalidTimeout);
}

#[test]
fn test_openai_classification() {
    let probe = OpenAI::new(Config::default()).unwrap();
    assert_eq!(
        probe.classify(TransportOutcome::Response { status: 200 }),
        ProbeResult::Success
    );
    assert_eq!(
        probe.classify(TransportOutcome::Response { status: 420 }),
        ProbeResult::Error(420)
    );
    assert_eq!(probe.classify(TransportOutcome::TimedOut), ProbeResult::Timeout);
    let network = probe.classify(TransportOutcome::Failed {
        description: "connection refused".to_string(),
    });
    assert_eq!(network, ProbeResult::NetworkError("connection refused".to_string()));
}

#[test]
fn test_newman_probe_creation() {
    let config = Config {
        endpoint_type: Type::Newman,
        collection_path: "test-collection.json".to_string(),
        environment_path: Some("test-environment.json".to_string()),
        ..Default::default()
    };
    let probe = Newman::new(config);
    assert!(probe.is_ok());
}

#[test]
fn test_newman_rejects_other_kind() {
    let config = Config::default();
    assert_eq!(Newman::new(config).unwrap_err(), ConfigError::ProbeKindMismatch);
}

#[test]
fn test_newman_command_args_minimal() {
    let config = Config {
        endpoint_type: Type::Newman,
        ..Default::default()
    };
    let probe = Newman::new(config).unwrap();
    let args = probe.command_args();
    // Timeout of 10 seconds is handed to the runner in milliseconds.
    assert_eq!(args, vec!["run", "collection.json", "--timeout-request", "10000"]);
}

#[test]
fn test_newman_command_args_full() {
    let config = Config {
        endpoint_type: Type::Newman,
        collection_path: "suite.json".to_string(),
        environment_path: Some("env.json".to_string()),
        request_delay_milliseconds: Some(250),
        timeout_seconds: 3,
        ..Default::default()
    };
    let probe = Newman::new(config).unwrap();
    let args = probe.command_args();
    assert_eq!(
        args,
        vec![
            "run",
            "suite.json",
            "--timeout-request",
            "3000",
            "-e",
            "env.json",
            "--delay-request",
            "250",
        ]
    );
}

#[test]
fn test_newman_classification() {
    let config = Config {
        endpoint_type: Type::Newman,
        ..Default::default()
    };
    let probe = Newman::new(config).unwrap();
    assert_eq!(
        probe.classify(RunnerOutcome::Exited { success: true }),
        ProbeResult::Success
    );
    assert_eq!(
        probe.classify(RunnerOutcome::Exited { success: false }),
        ProbeResult::Error(1)
    );
    assert_eq!(probe.classify(RunnerOutcome::Failed), ProbeResult::Error(1));
}
