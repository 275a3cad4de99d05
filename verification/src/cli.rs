//! Monitoring configuration: the tunables a run is started with, and the
//! well-formedness condition the constructors enforce.
use vstd::prelude::*;

verus! {

use crate::probes::Type as ProbeType;

/// Why a monitor or probe could not be constructed from a configuration.
#[derive(Debug, PartialEq, Eq, Structural)]
pub enum ConfigError {
    /// The request timeout is zero or too large to convert to milliseconds.
    InvalidTimeout,
    /// The configured probe kind does not match the probe being built.
    ProbeKindMismatch,
}

/// Configuration for one monitoring process.
///
/// Alerting tunables only take effect when an API key is present, and the
/// missing-ping tolerance only when a schedule is also set; both rules are
/// enforced where the monitor definition is derived, not here.
#[derive(Debug, PartialEq)]
pub struct Config {
    /// Base URL of the monitoring backend, e.g. `https://cronitor.link`.
    pub cronitor_base_url: String,
    /// API key for the monitoring backend; enables monitor enrichment.
    pub cronitor_api_key: Option<String>,
    /// Monitor name / code at the monitoring backend.
    pub monitor_name: String,
    /// Base URL of the server to probe.
    pub server_url: String,
    /// Which probe to run against the target.
    pub endpoint_type: ProbeType,
    /// Name of the model to query.
    pub model_name: String,
    /// Environment descriptor reported with every ping.
    pub env: String,
    /// Request timeout in seconds.
    pub timeout_seconds: u64,
    /// A successful ping is required once per this many minutes.
    pub min_success_freq: Option<u8>,
    /// Schedule expression displayed by the backend.
    pub schedule: Option<String>,
    /// How often to resend alerts after the first, in hours.
    pub realert_interval: Option<u16>,
    /// How many failed pings are needed to trigger an alert.
    pub consecutive_failures: Option<u8>,
    /// How many missing pings are needed to trigger an alert; requires a
    /// schedule to be set.
    pub consecutive_missing: Option<u8>,
    /// Group to put the monitor in.
    pub monitor_group: Option<String>,
    /// Path to the collection file for the subprocess probe.
    pub collection_path: String,
    /// Path to the environment file for the subprocess probe.
    pub environment_path: Option<String>,
    /// Delay between subprocess-probe requests, in milliseconds.
    pub request_delay_milliseconds: Option<u64>,
    /// Seconds between probe attempts in continuous mode; zero runs once.
    pub interval_seconds: u64,
}

impl Config {
    /// A configuration the constructors accept: the timeout is positive and
    /// its millisecond conversion (and its doubling, for the duration
    /// assertion) stays within `u64`.
    pub open spec fn wf(self) -> bool {
        1 <= self.timeout_seconds && self.timeout_seconds * 1000 <= u64::MAX
    }
}

impl Clone for Config {
    /// An exact copy of the configuration.
    fn clone(&self) -> (res: Self)
        ensures
            res == *self,
    {
        Config {
            cronitor_base_url: self.cronitor_base_url.clone(),
            cronitor_api_key: clone_opt_string(&self.cronitor_api_key),
            monitor_name: self.monitor_name.clone(),
            server_url: self.server_url.clone(),
            endpoint_type: self.endpoint_type,
            model_name: self.model_name.clone(),
            env: self.env.clone(),
            timeout_seconds: self.timeout_seconds,
            min_success_freq: self.min_success_freq,
            schedule: clone_opt_string(&self.schedule),
            realert_interval: self.realert_interval,
            consecutive_failures: self.consecutive_failures,
            consecutive_missing: self.consecutive_missing,
            monitor_group: clone_opt_string(&self.monitor_group),
            collection_path: self.collection_path.clone(),
            environment_path: clone_opt_string(&self.environment_path),
            request_delay_milliseconds: self.request_delay_milliseconds,
            interval_seconds: self.interval_seconds,
        }
    }
}

/// An exact copy of an optional string.
fn clone_opt_string(s: &Option<String>) -> (res: Option<String>)
    ensures
        res == *s,
{
    match s {
        Some(v) => Some(v.clone()),
        None => None,
    }
}

impl Default for Config {
    /// The configuration used when nothing is specified: the public backend
    /// URL, a chat-completion probe of `gpt-4`, a ten-second timeout, and
    /// mild alerting defaults.
    fn default() -> (r: Self)
        ensures
            r.cronitor_base_url@ == "https://cronitor.link"@,
            r.cronitor_api_key is None,
            r.monitor_name@ == "test-monitor"@,
            r.server_url@ == "https://api.openai.com"@,
            r.endpoint_type is OpenAIChatCompletion,
            r.model_name@ == "gpt-4"@,
            r.env@ == "test"@,
            r.timeout_seconds == 10,
            r.min_success_freq == Some(60u8),
            r.schedule is None,
            r.realert_interval == Some(9999u16),
            r.consecutive_failures == Some(1u8),
            r.consecutive_missing == Some(1u8),
            r.monitor_group is None,
            r.collection_path@ == "collection.json"@,
            r.environment_path is None,
            r.request_delay_milliseconds is None,
            r.interval_seconds == 0,
            r.wf(),
    {
        Config {
            cronitor_base_url: "https://cronitor.link".to_owned(),
            cronitor_api_key: None,
            monitor_name: "test-monitor".to_owned(),
            server_url: "https://api.openai.com".to_owned(),
            endpoint_type: ProbeType::OpenAIChatCompletion,
            model_name: "gpt-4".to_owned(),
            env: "test".to_owned(),
            timeout_seconds: 10,
            min_success_freq: Some(60),
            schedule: None,
            realert_interval: Some(9999),
            consecutive_failures: Some(1),
            consecutive_missing: Some(1),
            monitor_group: None,
            collection_path: "collection.json".to_owned(),
            environment_path: None,
            request_delay_milliseconds: None,
            interval_seconds: 0,
        }
    }
}

} // verus!
