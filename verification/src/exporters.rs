//! The exporter toward the monitoring backend: it owns the per-instance
//! series identifier and hostname, builds the ping URLs, and derives the
//! monitor-definition document from the alerting configuration.  Sending the
//! requests is left to the caller, which reports back what happened.
use vstd::prelude::*;

verus! {

use vstd::string::StringExecFns;
use vstd::slice::slice_to_vec;
use vstd::utf8::{valid_utf8, encode_utf8, encode_utf8_valid_utf8, valid_utf8_concat};
use crate::PingState;
use crate::cli::{Config, ConfigError};
use crate::encoding::{
    dec_bytes,
    dec_bytes_signed,
    ascii_chars_of,
    pct_encode,
    percent_encode,
    u64_to_string,
    utf8_to_string,
    lemma_dec_bytes_digits,
    lemma_ascii_bytes_utf8,
    lemma_pct_encode_output,
    lemma_dec_bytes_injective,
    lemma_pct_encode_injective,
    lemma_encode_utf8_injective,
    lemma_encode_utf8_first_ascii,
};

/// The trailing message parameter of a ping URL: the percent-encoded
/// message when one is supplied, nothing otherwise.
pub open spec fn message_part(message: Option<Seq<char>>) -> Seq<u8> {
    match message {
        Some(m) => encode_utf8("&message="@) + pct_encode(encode_utf8(m)),
        None => Seq::<u8>::empty(),
    }
}

/// How the backend answered one notification request.
#[derive(Debug, Clone, Copy, PartialEq, Eq, Structural)]
pub enum PingDelivery {
    /// The backend answered with a success status.
    Accepted,
    /// The backend answered with this non-success status.
    Rejected { status: u16 },
    /// The request failed before any response arrived.
    Unreachable,
}

/// The monitor-definition document pushed to the backend on a run ping:
/// the backend-side record of schedule, tolerances and assertions derived
/// from the local alerting configuration.
#[derive(Debug, PartialEq)]
pub struct MonitorDefinition {
    /// The backend's monitor type; always the job type.
    pub monitor_type: String,
    /// The monitor's key at the backend.
    pub key: String,
    /// Failed pings needed to trigger an alert, when configured.
    pub failure_tolerance: Option<u8>,
    /// Schedule expression, when configured.
    pub schedule: Option<String>,
    /// Hours between repeated alerts, when configured.
    pub realert_interval: Option<u16>,
    /// Missing pings tolerated before alerting; present only when both the
    /// missing-ping tolerance and a schedule are configured.
    pub schedule_tolerance: Option<u8>,
    /// Group label, when configured.
    pub group: Option<String>,
    /// Assertion expressions the backend checks on every series.
    pub assertions: Vec<String>,
}

/// Client state for the monitoring backend: the configuration, the local
/// hostname, and the series identifier components fixed at construction.
#[derive(Debug)]
pub struct Cronitor {
    pub config: Config,
    /// Hostname reported with every ping.
    pub host: String,
    /// Time component of the series identifier, fixed at construction.
    pub series_ts: i64,
    /// Process component of the series identifier, fixed at construction.
    pub series_pid: u32,
}

/// Relies on `hostname::get`: returns the system hostname; any failure
/// falls back to an empty name.
#[verifier::external_body]
fn current_hostname() -> (r: String) {
    hostname::get().map(|h| h.to_string_lossy().into_owned()).unwrap_or_default()
}

/// Relies on `std::time::SystemTime::now`: the wall clock read as whole
/// seconds from the Unix epoch, negative when the clock stands before it,
/// saturating at the `i64` range.  Never panics, whatever the clock says.
#[verifier::external_body]
fn unix_timestamp_now() -> (r: i64) {
    match std::time::SystemTime::now().duration_since(std::time::UNIX_EPOCH) {
        Ok(since) => i64::try_from(since.as_secs()).unwrap_or(i64::MAX),
        Err(before) => i64::try_from(before.duration().as_secs()).map_or(i64::MIN, |s| -s),
    }
}

impl Cronitor {
    /// Builds the client, fixing the hostname and the series identifier for
    /// this instance; fails when the timeout is invalid.
    pub fn new(config: Config, pid: u32) -> (r: Result<Cronitor, ConfigError>)
        ensures
            r is Ok <==> config.wf(),
            r matches Ok(c) ==> c.config == config && c.series_pid == pid,
            r matches Err(e) ==> e is InvalidTimeout,
    {
        if config.timeout_seconds >= 1 && config.timeout_seconds <= u64::MAX / 1000 {
            let host = current_hostname();
            let series_ts = unix_timestamp_now();
            Ok(Cronitor { config, host, series_ts, series_pid: pid })
        } else {
            Err(ConfigError::InvalidTimeout)
        }
    }

    /// The series identifier as bytes: the time component, a dash, and the
    /// process component.
    pub open spec fn series_bytes(self) -> Seq<u8> {
        dec_bytes_signed(self.series_ts as int) + seq![0x2Du8] + dec_bytes(self.series_pid as nat)
    }

    /// The bytes of the ping URL for one notification: base, monitor name,
    /// then the state, series, status code, environment and host parameters,
    /// and the percent-encoded message exactly when one is supplied.
    pub open spec fn ping_url_bytes(
        self,
        state: PingState,
        status_code: u16,
        message: Option<Seq<char>>,
    ) -> Seq<u8> {
        encode_utf8(self.config.cronitor_base_url@) + encode_utf8("/"@) + encode_utf8(
            self.config.monitor_name@,
        ) + encode_utf8("?state="@) + encode_utf8(state.spec_str()) + encode_utf8("&series="@)
            + self.series_bytes() + encode_utf8("&status_code="@) + dec_bytes(status_code as nat)
            + encode_utf8("&env="@) + encode_utf8(self.config.env@) + encode_utf8("&host="@)
            + encode_utf8(self.host@) + message_part(message)
    }

    /// The ping URL for one notification.
    pub fn build_ping_url(&self, state: PingState, status_code: u16, message: Option<&str>) -> (r:
        String)
        ensures
            encode_utf8(r@) == self.ping_url_bytes(
                state,
                status_code,
                match message {
                    Some(m) => Some(m@),
                    None => None,
                },
            ),
    {
        let mut url: Vec<u8> = Vec::new();
        proof {
            assert(url@ =~= Seq::<u8>::empty());
        }
        push_str_bytes(&mut url, self.config.cronitor_base_url.as_str());
        push_str_bytes(&mut url, "/");
        push_str_bytes(&mut url, self.config.monitor_name.as_str());
        push_str_bytes(&mut url, "?state=");
        push_str_bytes(&mut url, state.as_str());
        push_str_bytes(&mut url, "&series=");
        push_signed(&mut url, self.series_ts);
        push_ascii_byte(&mut url, 0x2D);
        push_number(&mut url, self.series_pid as u64);
        push_str_bytes(&mut url, "&status_code=");
        push_number(&mut url, status_code as u64);
        push_str_bytes(&mut url, "&env=");
        push_str_bytes(&mut url, self.config.env.as_str());
        push_str_bytes(&mut url, "&host=");
        push_str_bytes(&mut url, self.host.as_str());
        match message {
            Some(msg) => {
                push_str_bytes(&mut url, "&message=");
                push_pct_encoded(&mut url, msg);
            },
            None => (),
        }
        proof {
            assert(Seq::<u8>::empty() + encode_utf8(self.config.cronitor_base_url@)
                =~= encode_utf8(self.config.cronitor_base_url@));
        }
        utf8_to_string(url)
    }

    /// Whether a ping in this state must be followed by a monitor-definition
    /// update: only on the run state, and only when an API key is configured.
    pub fn should_update_monitor(&self, state: PingState) -> (r: bool)
        ensures
            r == (state is Run && self.config.cronitor_api_key is Some),
    {
        match state {
            PingState::Run => self.config.cronitor_api_key.is_some(),
            _ => false,
        }
    }

    /// Classifies how a notification request ended; the caller logs it and
    /// carries on either way.
    pub fn classify_delivery(status: Option<u16>) -> (r: PingDelivery)
        ensures
            status matches Some(s) ==> (if 200 <= s < 300 {
                r is Accepted
            } else {
                r matches PingDelivery::Rejected { status: s2 } && s2 == s
            }),
            status is None ==> r is Unreachable,
    {
        match status {
            Some(s) => {
                if 200 <= s && s < 300 {
                    PingDelivery::Accepted
                } else {
                    PingDelivery::Rejected { status: s }
                }
            },
            None => PingDelivery::Unreachable,
        }
    }

    /// Derives the monitor-definition document from the configuration,
    /// fresh on every call.  The schedule tolerance is included exactly when
    /// both the missing-ping tolerance and a schedule are set; the duration
    /// assertion is always included, and the completion assertion exactly
    /// when a minimum success frequency is set.
    pub fn get_monitor_update_payload(&self) -> (r: MonitorDefinition)
        requires
            self.config.wf(),
        ensures
            r.monitor_type@ == "job"@,
            r.key@ == self.config.monitor_name@,
            r.failure_tolerance == self.config.consecutive_failures,
            r.schedule is Some <==> self.config.schedule is Some,
            r.schedule matches Some(s) ==> self.config.schedule matches Some(c) && s@ == c@,
            r.realert_interval == self.config.realert_interval,
            r.schedule_tolerance == (if self.config.consecutive_missing is Some
                && self.config.schedule is Some {
                self.config.consecutive_missing
            } else {
                None
            }),
            r.group is Some <==> self.config.monitor_group is Some,
            r.group matches Some(g) ==> self.config.monitor_group matches Some(c) && g@ == c@,
            r.assertions@.len() == (if self.config.min_success_freq is Some {
                2int
            } else {
                1int
            }),
            r.assertions@[0]@ == "metric.duration < "@ + ascii_chars_of(
                dec_bytes((self.config.timeout_seconds * 2) as nat),
            ) + "s"@,
            self.config.min_success_freq matches Some(f) ==> r.assertions@[1]@
                == "job.completes < "@ + ascii_chars_of(dec_bytes(f as nat)) + " minute"@,
    {
        let schedule = match &self.config.schedule {
            Some(s) => Some(s.clone()),
            None => None,
        };
        let group = match &self.config.monitor_group {
            Some(g) => Some(g.clone()),
            None => None,
        };
        let schedule_tolerance = if self.config.consecutive_missing.is_some()
            && self.config.schedule.is_some() {
            self.config.consecutive_missing
        } else {
            None
        };

        let mut assertions: Vec<String> = Vec::new();
        let mut duration = "metric.duration < ".to_owned();
        duration.append(u64_to_string(self.config.timeout_seconds * 2).as_str());
        duration.append("s");
        assertions.push(duration);
        match self.config.min_success_freq {
            Some(f) => {
                let mut completes = "job.completes < ".to_owned();
                completes.append(u64_to_string(f as u64).as_str());
                completes.append(" minute");
                assertions.push(completes);
            },
            None => (),
        }

        MonitorDefinition {
            monitor_type: "job".to_owned(),
            key: self.config.monitor_name.clone(),
            failure_tolerance: self.config.consecutive_failures,
            schedule,
            realert_interval: self.config.realert_interval,
            schedule_tolerance,
            group,
            assertions,
        }
    }
}

// ---------------------------------------------------------------------------
// Injectivity of the ping URL
// ---------------------------------------------------------------------------

/// Dropping a common prefix from two equal concatenations leaves equal
/// remainders.
proof fn lemma_seq_cancel_front(p: Seq<u8>, a: Seq<u8>, b: Seq<u8>)
    requires
        p + a == p + b,
    ensures
        a == b,
{
    assert((p + a).len() == p.len() + a.len());
    assert((p + b).len() == p.len() + b.len());
    assert(a.len() == b.len());
    assert forall|i: int| 0 <= i < a.len() implies a[i] == b[i] by {
        assert((p + a)[p.len() + i] == a[i]);
        assert((p + b)[p.len() + i] == b[i]);
    }
    assert(a =~= b);
}

/// In two equal concatenations of a digit run followed by a `&`-led
/// remainder, the digit runs agree and so do the remainders.
proof fn lemma_digit_token_boundary(a1: Seq<u8>, r1: Seq<u8>, a2: Seq<u8>, r2: Seq<u8>)
    requires
        a1 + r1 == a2 + r2,
        forall|i: int| 0 <= i < a1.len() ==> 0x30 <= #[trigger] a1[i] <= 0x39,
        forall|i: int| 0 <= i < a2.len() ==> 0x30 <= #[trigger] a2[i] <= 0x39,
        r1.len() > 0,
        r1[0] == 0x26,
        r2.len() > 0,
        r2[0] == 0x26,
    ensures
        a1 == a2,
        r1 == r2,
{
    if a1.len() < a2.len() {
        assert((a1 + r1)[a1.len() as int] == r1[0]);
        assert((a2 + r2)[a1.len() as int] == a2[a1.len() as int]);
        assert(false);
    } else if a2.len() < a1.len() {
        assert((a2 + r2)[a2.len() as int] == r2[0]);
        assert((a1 + r1)[a2.len() as int] == a1[a2.len() as int]);
        assert(false);
    }
    assert forall|i: int| 0 <= i < a1.len() implies a1[i] == a2[i] by {
        assert((a1 + r1)[i] == a1[i]);
        assert((a2 + r2)[i] == a2[i]);
    }
    assert(a1 =~= a2);
    lemma_seq_cancel_front(a1, r1, r2);
}

/// The wire name of each state starts with a distinct byte.
proof fn lemma_state_first_byte(s: PingState)
    ensures
        encode_utf8(s.spec_str()).len() > 0,
        encode_utf8(s.spec_str())[0] == (match s {
            PingState::Run => 114u8,
            PingState::Complete => 99u8,
            PingState::Fail => 102u8,
        }),
{
    match s {
        PingState::Run => {
            reveal_strlit("run");
            assert("run"@[0] == 'r');
            lemma_encode_utf8_first_ascii("run"@);
        },
        PingState::Complete => {
            reveal_strlit("complete");
            assert("complete"@[0] == 'c');
            lemma_encode_utf8_first_ascii("complete"@);
        },
        PingState::Fail => {
            reveal_strlit("fail");
            assert("fail"@[0] == 'f');
            lemma_encode_utf8_first_ascii("fail"@);
        },
    }
}

/// The query literals that bound the variable fields: both start with `&`.
proof fn lemma_query_lit_facts()
    ensures
        encode_utf8("&env="@).len() > 0,
        encode_utf8("&env="@)[0] == 0x26u8,
        encode_utf8("&message="@).len() > 0,
        encode_utf8("&message="@)[0] == 0x26u8,
{
    reveal_strlit("&env=");
    reveal_strlit("&message=");
    assert("&env="@[0] == '&');
    assert("&message="@[0] == '&');
    lemma_encode_utf8_first_ascii("&env="@);
    lemma_encode_utf8_first_ascii("&message="@);
}

impl Cronitor {
    /// The ping URL reassociated into a shared prefix and a right-nested
    /// tail, for peeling components off the front.
    proof fn lemma_ping_url_decompose(self, state: PingState, code: u16, message: Option<Seq<char>>)
        ensures
            self.ping_url_bytes(state, code, message) == (encode_utf8(
                self.config.cronitor_base_url@,
            ) + encode_utf8("/"@) + encode_utf8(self.config.monitor_name@) + encode_utf8(
                "?state="@,
            )) + (encode_utf8(state.spec_str()) + (encode_utf8("&series="@) + (self.series_bytes()
                + (encode_utf8("&status_code="@) + (dec_bytes(code as nat) + (encode_utf8("&env="@)
                + (encode_utf8(self.config.env@) + (encode_utf8("&host="@) + (encode_utf8(
                self.host@,
            ) + message_part(message)))))))))),
    {
        let st = encode_utf8(state.spec_str());
        let es = encode_utf8("&series="@);
        let sr = self.series_bytes();
        let sc = encode_utf8("&status_code="@);
        let d = dec_bytes(code as nat);
        let ee = encode_utf8("&env="@);
        let ev = encode_utf8(self.config.env@);
        let eh = encode_utf8("&host="@);
        let ho = encode_utf8(self.host@);
        let m = message_part(message);
        let p = encode_utf8(self.config.cronitor_base_url@) + encode_utf8("/"@) + encode_utf8(
            self.config.monitor_name@,
        ) + encode_utf8("?state="@);
        let x4 = p + st;
        let x5 = x4 + es;
        let x6 = x5 + sr;
        let x7 = x6 + sc;
        let x8 = x7 + d;
        let x9 = x8 + ee;
        let x10 = x9 + ev;
        let x11 = x10 + eh;
        let x12 = x11 + ho;
        assert(self.ping_url_bytes(state, code, message) == x12 + m);
        vstd::seq_lib::lemma_concat_associative(x11, ho, m);
        vstd::seq_lib::lemma_concat_associative(x10, eh, ho + m);
        vstd::seq_lib::lemma_concat_associative(x9, ev, eh + (ho + m));
        vstd::seq_lib::lemma_concat_associative(x8, ee, ev + (eh + (ho + m)));
        vstd::seq_lib::lemma_concat_associative(x7, d, ee + (ev + (eh + (ho + m))));
        vstd::seq_lib::lemma_concat_associative(x6, sc, d + (ee + (ev + (eh + (ho + m)))));
        vstd::seq_lib::lemma_concat_associative(x5, sr, sc + (d + (ee + (ev + (eh + (ho + m))))));
        vstd::seq_lib::lemma_concat_associative(
            x4,
            es,
            sr + (sc + (d + (ee + (ev + (eh + (ho + m)))))),
        );
        vstd::seq_lib::lemma_concat_associative(
            p,
            st,
            es + (sr + (sc + (d + (ee + (ev + (eh + (ho + m))))))),
        );
    }

    /// Ping URLs are injective in what varies between notifications of one
    /// client: equal URLs carry the same state, the same status code, and
    /// the same message, and the message parameter is present exactly when
    /// a message was supplied.  The state, series, status code, environment
    /// and host parameters are always present, by construction of
    /// [`Cronitor::ping_url_bytes`].
    pub proof fn lemma_ping_url_injective(
        self,
        s1: PingState,
        c1: u16,
        m1: Option<Seq<char>>,
        s2: PingState,
        c2: u16,
        m2: Option<Seq<char>>,
    )
        requires
            self.ping_url_bytes(s1, c1, m1) == self.ping_url_bytes(s2, c2, m2),
        ensures
            s1 == s2,
            c1 == c2,
            m1 == m2,
    {
        let base = encode_utf8(self.config.cronitor_base_url@);
        let slash = encode_utf8("/"@);
        let name = encode_utf8(self.config.monitor_name@);
        let qstate = encode_utf8("?state="@);
        let eser = encode_utf8("&series="@);
        let ser = self.series_bytes();
        let esc = encode_utf8("&status_code="@);
        let eenv = encode_utf8("&env="@);
        let env = encode_utf8(self.config.env@);
        let ehost = encode_utf8("&host="@);
        let host = encode_utf8(self.host@);
        let emsg = encode_utf8("&message="@);
        let p = base + slash + name + qstate;

        let st1 = encode_utf8(s1.spec_str());
        let st2 = encode_utf8(s2.spec_str());
        let d1 = dec_bytes(c1 as nat);
        let d2 = dec_bytes(c2 as nat);
        let msg1 = message_part(m1);
        let msg2 = message_part(m2);
        let t1 = d1 + (eenv + (env + (ehost + (host + msg1))));
        let t2 = d2 + (eenv + (env + (ehost + (host + msg2))));
        let u1 = st1 + (eser + (ser + (esc + t1)));
        let u2 = st2 + (eser + (ser + (esc + t2)));
        self.lemma_ping_url_decompose(s1, c1, m1);
        self.lemma_ping_url_decompose(s2, c2, m2);
        assert(self.ping_url_bytes(s1, c1, m1) == p + u1);
        assert(self.ping_url_bytes(s2, c2, m2) == p + u2);
        lemma_seq_cancel_front(p, u1, u2);

        lemma_state_first_byte(s1);
        lemma_state_first_byte(s2);
        assert(u1[0] == st1[0]);
        assert(u2[0] == st2[0]);
        assert(s1 == s2);
        lemma_seq_cancel_front(st1, eser + (ser + (esc + t1)), eser + (ser + (esc + t2)));
        lemma_seq_cancel_front(eser, ser + (esc + t1), ser + (esc + t2));
        lemma_seq_cancel_front(ser, esc + t1, esc + t2);
        lemma_seq_cancel_front(esc, t1, t2);

        lemma_query_lit_facts();
        lemma_dec_bytes_digits(c1 as nat);
        lemma_dec_bytes_digits(c2 as nat);
        let r1 = eenv + (env + (ehost + (host + msg1)));
        let r2 = eenv + (env + (ehost + (host + msg2)));
        assert(r1[0] == eenv[0]);
        assert(r2[0] == eenv[0]);
        lemma_digit_token_boundary(d1, r1, d2, r2);
        lemma_dec_bytes_injective(c1 as nat, c2 as nat);

        lemma_seq_cancel_front(eenv, env + (ehost + (host + msg1)), env + (ehost + (host + msg2)));
        lemma_seq_cancel_front(env, ehost + (host + msg1), ehost + (host + msg2));
        lemma_seq_cancel_front(ehost, host + msg1, host + msg2);
        lemma_seq_cancel_front(host, msg1, msg2);

        match (m1, m2) {
            (None, None) => {},
            (Some(x1), Some(x2)) => {
                lemma_seq_cancel_front(
                    emsg,
                    pct_encode(encode_utf8(x1)),
                    pct_encode(encode_utf8(x2)),
                );
                lemma_pct_encode_injective(encode_utf8(x1), encode_utf8(x2));
                lemma_encode_utf8_injective(x1, x2);
            },
            (Some(x1), None) => {
                assert(msg1.len() >= emsg.len());
                assert(false);
            },
            (None, Some(x2)) => {
                assert(msg2.len() >= emsg.len());
                assert(false);
            },
        }
    }
}

/// Appends the UTF-8 bytes of a string, keeping the buffer valid UTF-8.
fn push_str_bytes(out: &mut Vec<u8>, s: &str)
    requires
        valid_utf8(old(out)@),
    ensures
        final(out)@ == old(out)@ + encode_utf8(s@),
        valid_utf8(final(out)@),
{
    let mut piece = slice_to_vec(s.as_bytes());
    proof {
        assert(piece@ == encode_utf8(s@));
        encode_utf8_valid_utf8(s@);
        valid_utf8_concat(old(out)@, piece@);
    }
    out.append(&mut piece);
}

/// Appends one ASCII byte, keeping the buffer valid UTF-8.
fn push_ascii_byte(out: &mut Vec<u8>, b: u8)
    requires
        valid_utf8(old(out)@),
        b < 0x80,
    ensures
        final(out)@ == old(out)@ + seq![b],
        valid_utf8(final(out)@),
{
    proof {
        lemma_ascii_bytes_utf8(seq![b]);
        valid_utf8_concat(old(out)@, seq![b]);
    }
    out.push(b);
    assert(final(out)@ =~= old(out)@ + seq![b]);
}

/// Appends the decimal digits of `n`, keeping the buffer valid UTF-8.
fn push_number(out: &mut Vec<u8>, n: u64)
    requires
        valid_utf8(old(out)@),
    ensures
        final(out)@ == old(out)@ + dec_bytes(n as nat),
        valid_utf8(final(out)@),
{
    proof {
        lemma_dec_bytes_digits(n as nat);
        lemma_ascii_bytes_utf8(dec_bytes(n as nat));
        valid_utf8_concat(old(out)@, dec_bytes(n as nat));
    }
    crate::encoding::push_decimal_u64(out, n);
}

/// Appends the decimal digits of a signed value, keeping the buffer valid
/// UTF-8.
fn push_signed(out: &mut Vec<u8>, n: i64)
    requires
        valid_utf8(old(out)@),
    ensures
        final(out)@ == old(out)@ + dec_bytes_signed(n as int),
        valid_utf8(final(out)@),
{
    proof {
        lemma_dec_bytes_digits((if n < 0 {
            -(n as int)
        } else {
            n as int
        }) as nat);
        assert forall|i: int| 0 <= i < dec_bytes_signed(n as int).len() implies #[trigger]
        dec_bytes_signed(n as int)[i] < 0x80 by {
            if n < 0 {
                if i == 0 {
                    assert(dec_bytes_signed(n as int)[0] == 0x2Du8);
                } else {
                    assert(dec_bytes_signed(n as int)[i] == dec_bytes((-(n as int)) as nat)[i
                        - 1]);
                }
            }
        }
        lemma_ascii_bytes_utf8(dec_bytes_signed(n as int));
        valid_utf8_concat(old(out)@, dec_bytes_signed(n as int));
    }
    crate::encoding::push_decimal_i64(out, n);
}

/// Appends the percent-encoding of a string's UTF-8 bytes, keeping the
/// buffer valid UTF-8.
fn push_pct_encoded(out: &mut Vec<u8>, s: &str)
    requires
        valid_utf8(old(out)@),
    ensures
        final(out)@ == old(out)@ + pct_encode(encode_utf8(s@)),
        valid_utf8(final(out)@),
{
    let mut piece = percent_encode(s.as_bytes());
    proof {
        lemma_pct_encode_output(encode_utf8(s@));
        lemma_ascii_bytes_utf8(piece@);
        valid_utf8_concat(old(out)@, piece@);
    }
    out.append(&mut piece);
}

} // verus!
