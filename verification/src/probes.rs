//! The two probe kinds: an HTTP probe against an OpenAI-style endpoint, and
//! a subprocess probe running an external collection runner.  Each builds its
//! request from the configuration and classifies a transport outcome into a
//! [`ProbeResult`](crate::ProbeResult); the transport itself is driven
//! outside the library and reports back as plain values.
use vstd::prelude::*;

verus! {

use vstd::string::StringExecFns;
use crate::ProbeResult;
use crate::cli::{Config, ConfigError};
use crate::encoding::{dec_bytes, ascii_chars_of, u64_to_string};

/// Kind of endpoint to probe.
#[derive(Debug, Clone, Copy, PartialEq, Eq, Structural)]
pub enum Type {
    OpenAIChatCompletion,
    OpenAIEmbedding,
    Newman,
}

/// What the HTTP transport reported for one request.
#[derive(Debug, PartialEq)]
pub enum TransportOutcome {
    /// A response arrived, with this status code.
    Response { status: u16 },
    /// The transport reported a timeout before any response arrived.
    TimedOut,
    /// The transport failed before any response arrived.
    Failed { description: String },
}

/// The request body of an HTTP probe: a minimal fixed query of the
/// configured model, with a low scheduling priority hint.
#[derive(Debug, PartialEq)]
pub enum ProbePayload {
    /// A chat-completion request with a single fixed user message and a
    /// one-token cap.
    ChatCompletion { model: String, role: String, content: String, max_tokens: u64, priority: i64 },
    /// An embedding request with a fixed input string.
    Embedding { model: String, input: String, priority: i64 },
}

/// HTTP probe against an OpenAI-style endpoint.
#[derive(Debug)]
pub struct OpenAI {
    pub config: Config,
}

impl OpenAI {
    /// Builds the probe; fails when the configured probe kind is not an
    /// OpenAI-style endpoint or the timeout is invalid.
    pub fn new(config: Config) -> (r: Result<OpenAI, ConfigError>)
        ensures
            r is Ok <==> (config.wf() && !(config.endpoint_type is Newman)),
            r matches Ok(p) ==> p.config == config,
            r matches Err(e) ==> e == (if config.endpoint_type is Newman {
                ConfigError::ProbeKindMismatch
            } else {
                ConfigError::InvalidTimeout
            }),
    {
        match config.endpoint_type {
            Type::Newman => Err(ConfigError::ProbeKindMismatch),
            _ => {
                if config.timeout_seconds >= 1 && config.timeout_seconds <= u64::MAX / 1000 {
                    Ok(OpenAI { config })
                } else {
                    Err(ConfigError::InvalidTimeout)
                }
            },
        }
    }

    /// The URL the probe posts to, selected by the configured probe kind.
    pub fn build_endpoint_url(&self) -> (r: String)
        requires
            !(self.config.endpoint_type is Newman),
        ensures
            self.config.endpoint_type is OpenAIChatCompletion ==> r@ == self.config.server_url@
                + "/v1/chat/completions"@,
            self.config.endpoint_type is OpenAIEmbedding ==> r@ == self.config.server_url@
                + "/v1/embeddings"@,
    {
        let mut url = self.config.server_url.clone();
        match self.config.endpoint_type {
            Type::OpenAIChatCompletion => {
                url.append("/v1/chat/completions");
            },
            _ => {
                url.append("/v1/embeddings");
            },
        }
        url
    }

    /// The request body for the configured probe kind.
    pub fn build_payload(&self) -> (r: ProbePayload)
        requires
            !(self.config.endpoint_type is Newman),
        ensures
            self.config.endpoint_type is OpenAIChatCompletion ==> (r matches
                ProbePayload::ChatCompletion { model, role, content, max_tokens, priority }
                && model@ == self.config.model_name@ && role@ == "user"@ && content@ == "test"@
                && max_tokens == 1 && priority == -100),
            self.config.endpoint_type is OpenAIEmbedding ==> (r matches ProbePayload::Embedding {
                model,
                input,
                priority,
            } && model@ == self.config.model_name@ && input@ == "test"@ && priority == -100),
    {
        match self.config.endpoint_type {
            Type::OpenAIChatCompletion => ProbePayload::ChatCompletion {
                model: self.config.model_name.clone(),
                role: "user".to_owned(),
                content: "test".to_owned(),
                max_tokens: 1,
                priority: -100,
            },
            _ => ProbePayload::Embedding {
                model: self.config.model_name.clone(),
                input: "test".to_owned(),
                priority: -100,
            },
        }
    }

    /// Classifies what the transport reported, in priority order: timeout,
    /// then transport failure, then the response's status range.
    pub fn classify(&self, outcome: TransportOutcome) -> (r: ProbeResult)
        ensures
            outcome matches TransportOutcome::Response { status } ==> (if 200 <= status < 300 {
                r is Success
            } else {
                r matches ProbeResult::Error(c) && c == status
            }),
            outcome is TimedOut ==> r is Timeout,
            outcome matches TransportOutcome::Failed { description } ==> (r matches
                ProbeResult::NetworkError(d) && d@ == description@),
    {
        match outcome {
            TransportOutcome::TimedOut => ProbeResult::Timeout,
            TransportOutcome::Failed { description } => ProbeResult::NetworkError(description),
            TransportOutcome::Response { status } => {
                if 200 <= status && status < 300 {
                    ProbeResult::Success
                } else {
                    ProbeResult::Error(status)
                }
            },
        }
    }
}

/// How the subprocess probe's collection-runner invocation ended.
#[derive(Debug, Clone, Copy, PartialEq, Eq, Structural)]
pub enum RunnerOutcome {
    /// The process ran to completion; `success` is whether it exited zero.
    Exited { success: bool },
    /// The process could not be spawned or waited on.
    Failed,
}

/// Subprocess probe invoking an external collection runner.
#[derive(Debug)]
pub struct Newman {
    pub config: Config,
}

impl Newman {
    /// Builds the probe; fails when the configured probe kind is not the
    /// collection runner or the timeout is invalid.
    pub fn new(config: Config) -> (r: Result<Newman, ConfigError>)
        ensures
            r is Ok <==> (config.wf() && config.endpoint_type is Newman),
            r matches Ok(p) ==> p.config == config,
            r matches Err(e) ==> e == (if !(config.endpoint_type is Newman) {
                ConfigError::ProbeKindMismatch
            } else {
                ConfigError::InvalidTimeout
            }),
    {
        match config.endpoint_type {
            Type::Newman => {
                if config.timeout_seconds >= 1 && config.timeout_seconds <= u64::MAX / 1000 {
                    Ok(Newman { config })
                } else {
                    Err(ConfigError::InvalidTimeout)
                }
            },
            _ => Err(ConfigError::ProbeKindMismatch),
        }
    }

    /// The argument list for the collection runner: the collection, the
    /// timeout converted to milliseconds, and the optional environment file
    /// and inter-request delay.
    pub fn command_args(&self) -> (r: Vec<String>)
        requires
            self.config.wf(),
        ensures
            ({
                let n_env: int = if self.config.environment_path is Some {
                    2
                } else {
                    0
                };
                let n_delay: int = if self.config.request_delay_milliseconds is Some {
                    2
                } else {
                    0
                };
                &&& r@.len() == 4 + n_env + n_delay
                &&& r@[0]@ == "run"@
                &&& r@[1]@ == self.config.collection_path@
                &&& r@[2]@ == "--timeout-request"@
                &&& r@[3]@ == ascii_chars_of(
                    dec_bytes((self.config.timeout_seconds * 1000) as nat),
                )
                &&& self.config.environment_path matches Some(e) ==> (r@[4]@ == "-e"@ && r@[5]@
                    == e@)
                &&& self.config.request_delay_milliseconds matches Some(d) ==> (r@[4 + n_env]@
                    == "--delay-request"@ && r@[5 + n_env]@ == ascii_chars_of(
                    dec_bytes(d as nat),
                ))
            }),
    {
        let mut args: Vec<String> = Vec::new();
        args.push("run".to_owned());
        args.push(self.config.collection_path.clone());
        args.push("--timeout-request".to_owned());
        args.push(u64_to_string(self.config.timeout_seconds * 1000));
        match &self.config.environment_path {
            Some(e) => {
                args.push("-e".to_owned());
                args.push(e.clone());
            },
            None => (),
        }
        match self.config.request_delay_milliseconds {
            Some(d) => {
                args.push("--delay-request".to_owned());
                args.push(u64_to_string(d));
            },
            None => (),
        }
        args
    }

    /// Classifies how the runner ended: a clean zero exit is a success and
    /// everything else is the probe's fixed failure sentinel, which never
    /// distinguishes timeouts from other failures.
    pub fn classify(&self, outcome: RunnerOutcome) -> (r: ProbeResult)
        ensures
            outcome matches RunnerOutcome::Exited { success } && success ==> r is Success,
            outcome matches RunnerOutcome::Exited { success } && !success ==> (r matches
                ProbeResult::Error(c) && c == 1),
            outcome is Failed ==> (r matches ProbeResult::Error(c) && c == 1),
    {
        match outcome {
            RunnerOutcome::Exited { success: true } => ProbeResult::Success,
            _ => ProbeResult::Error(1),
        }
    }
}

/// The closed set of probes a monitor can drive.
#[derive(Debug)]
pub enum AnyProbe {
    OpenAI(OpenAI),
    Newman(Newman),
}

} // verus!
