//! The server's configuration: logging settings, the HTTP endpoint, and the
//! NATS connection together with its retry policy.

use vstd::prelude::*;
use rand::Rng;

use crate::text::{concat3, lowercase, owned, str_eq, to_lowercase, unwrap_or_str, view_opt};

verus! {

/// How the NATS client obtains its credentials.
#[allow(non_camel_case_types)]
#[derive(Clone, Copy, Debug, PartialEq, Eq, Structural)]
pub enum AuthType {
    NIL,
    KEYCLOAK,
}

/// The authentication type named by an optional configuration value: only
/// `keycloak`, in any case, selects Keycloak.
pub open spec fn auth_type_of(value: Option<Seq<char>>) -> AuthType {
    match value {
        Some(v) => if lowercase(v) == "keycloak"@ {
            AuthType::KEYCLOAK
        } else {
            AuthType::NIL
        },
        None => AuthType::NIL,
    }
}

impl AuthType {
    /// The authentication type named by an optional configuration value.
    pub fn from_value(value: Option<String>) -> (r: AuthType)
        ensures
            r == auth_type_of(view_opt(value)),
    {
        match value {
            Some(val) => {
                let lower = to_lowercase(val.as_str());
                if str_eq(lower.as_str(), "keycloak") {
                    AuthType::KEYCLOAK
                } else {
                    AuthType::NIL
                }
            },
            None => AuthType::NIL,
        }
    }
}

impl Default for AuthType {
    fn default() -> (r: AuthType)
        ensures
            r == AuthType::NIL,
    {
        AuthType::NIL
    }
}

impl From<Option<String>> for AuthType {
    fn from(value: Option<String>) -> (r: AuthType) {
        AuthType::from_value(value)
    }
}

impl vstd::std_specs::convert::FromSpecImpl<Option<String>> for AuthType {
    open spec fn obeys_from_spec() -> bool {
        true
    }

    open spec fn from_spec(v: Option<String>) -> AuthType {
        auth_type_of(view_opt(v))
    }
}

/// The log level of one module.
#[derive(Clone, Debug)]
pub struct ModuleLogLevel {
    pub module: String,
    pub level: String,
}

/// Logging settings of the application.
#[derive(Clone, Debug)]
pub struct OESAppSettings {
    pub log_level: String,
    pub log_file: Option<String>,
    pub colored: Option<bool>,
    pub app_name: String,
    pub module_log_levels: Option<Vec<ModuleLogLevel>>,
}

impl OESAppSettings {
    /// `info` level, no log file, no colors, named `oes_app`.
    pub fn new() -> (r: OESAppSettings)
        ensures
            r.log_level@ == "info"@,
            r.log_file is None,
            r.colored == Some(false),
            r.app_name@ == "oes_app"@,
            r.module_log_levels is None,
    {
        OESAppSettings {
            log_level: owned("info"),
            log_file: None,
            colored: Some(false),
            app_name: owned("oes_app"),
            module_log_levels: None,
        }
    }

    /// Whether log lines are colored; off unless set.
    pub fn colored(&self) -> (r: bool)
        ensures
            r == (self.colored == Some(true)),
    {
        match self.colored {
            Some(b) => b,
            None => false,
        }
    }
}

/// The HTTP endpoint of the HMI server.
#[derive(Clone, Debug)]
pub struct HmiConfig {
    server_port: u16,
    server_host: Option<String>,
    ssl_cert: Option<String>,
    ssl_key: Option<String>,
}

/// The character view of an [`HmiConfig`].
pub struct HmiConfigView {
    pub server_port: u16,
    pub server_host: Option<Seq<char>>,
    pub ssl_cert: Option<Seq<char>>,
    pub ssl_key: Option<Seq<char>>,
}

impl View for HmiConfig {
    type V = HmiConfigView;

    closed spec fn view(&self) -> HmiConfigView {
        HmiConfigView {
            server_port: self.server_port,
            server_host: view_opt(self.server_host),
            ssl_cert: view_opt(self.ssl_cert),
            ssl_key: view_opt(self.ssl_key),
        }
    }
}

impl Default for HmiConfig {
    fn default() -> (r: HmiConfig)
        ensures
            r@.server_port == 80,
            r@.server_host == Some("0.0.0.0"@),
            r@.ssl_cert is None,
            r@.ssl_key is None,
    {
        HmiConfig {
            server_port: 80,
            server_host: Some(owned("0.0.0.0")),
            ssl_cert: None,
            ssl_key: None,
        }
    }
}

impl HmiConfig {
    /// An endpoint with the given parts.
    pub fn new(
        server_port: u16,
        server_host: Option<String>,
        ssl_cert: Option<String>,
        ssl_key: Option<String>,
    ) -> (r: HmiConfig)
        ensures
            r@.server_port == server_port,
            r@.server_host == view_opt(server_host),
            r@.ssl_cert == view_opt(ssl_cert),
            r@.ssl_key == view_opt(ssl_key),
    {
        HmiConfig { server_port, server_host, ssl_cert, ssl_key }
    }

    /// The host to bind; `0.0.0.0` when unset.
    pub fn server_host(&self) -> (r: String)
        ensures
            r@ == (match self@.server_host {
                Some(h) => h,
                None => "0.0.0.0"@,
            }),
    {
        unwrap_or_str(&self.server_host, "0.0.0.0")
    }

    pub fn server_port(&self) -> (r: u16)
        ensures
            r == self@.server_port,
    {
        self.server_port
    }

    /// The TLS certificate path; empty when unset.
    pub fn ssl_cert(&self) -> (r: String)
        ensures
            r@ == (match self@.ssl_cert {
                Some(c) => c,
                None => ""@,
            }),
    {
        unwrap_or_str(&self.ssl_cert, "")
    }

    /// The TLS key path; empty when unset.
    pub fn ssl_key(&self) -> (r: String)
        ensures
            r@ == (match self@.ssl_key {
                Some(k) => k,
                None => ""@,
            }),
    {
        unwrap_or_str(&self.ssl_key, "")
    }
}

/// The server's whole configuration.
pub struct Configuration {
    pub oes_settings: OESAppSettings,
    pub hmi: HmiConfig,
    pub nats: NatsConfiguration,
}

/// A message to be published.
#[derive(Clone, Debug)]
pub struct PublishingMessage {
    /// The subject this message publishes to.
    pub subject: String,
    /// The message contents.
    pub data: Vec<u8>,
}

/// A message handed to the publisher.
#[derive(Clone, Debug)]
pub struct PubMessage(pub PublishingMessage);

/// Where and how to reach the NATS broker.
#[derive(Clone, Debug)]
pub struct NatsConfiguration {
    pub connection_url: String,
    pub creds: String,
    pub auth: AuthType,
}

/// The broker URL built from the platform's node address and NATS port,
/// with `nats://localhost` and `4222` standing in for missing values.
pub open spec fn platform_url(node_ip: Option<Seq<char>>, nats_port: Option<Seq<char>>) -> Seq<
    char,
> {
    let ip = match node_ip {
        Some(v) => v,
        None => "nats://localhost"@,
    };
    let port = match nats_port {
        Some(v) => v,
        None => "4222"@,
    };
    ip + ":"@ + port
}

impl NatsConfiguration {
    /// The configuration used when none is given: the platform's node
    /// address and NATS port, no credentials file, no Keycloak.
    pub fn from_platform(node_ip: Option<String>, nats_port: Option<String>) -> (r:
        NatsConfiguration)
        ensures
            r.connection_url@ == platform_url(view_opt(node_ip), view_opt(nats_port)),
            r.creds@ == ""@,
            r.auth == AuthType::NIL,
    {
        let ip = unwrap_or_str(&node_ip, "nats://localhost");
        let port = unwrap_or_str(&nats_port, "4222");
        NatsConfiguration {
            connection_url: concat3(ip.as_str(), ":", port.as_str()),
            creds: owned(""),
            auth: AuthType::NIL,
        }
    }

    /// A connector for this configuration, without a retry limit or a
    /// custom backoff.
    pub fn connector<F>(&self) -> (r: NatsConnector<F>)
        ensures
            r.connection_url@ == self.connection_url@,
            r.creds@ == self.creds@,
            r.auth == self.auth,
            r.backoff_callback is None,
            r.max_attempts is None,
    {
        NatsConnector::new(self)
    }
}

/// How the client authenticates when it connects.
pub enum ConnectCredentials {
    /// The client's default options.
    Default,
    /// Credentials read from this file.
    CredentialsFile(String),
    /// A token obtained from Keycloak at connect time.
    KeycloakToken,
}

/// Connects to NATS with a retry limit and a backoff between attempts.
pub struct NatsConnector<F> {
    pub connection_url: String,
    pub creds: String,
    pub auth: AuthType,
    /// Computes the next delay (milliseconds) from the attempt number and
    /// the previous delay.
    pub backoff_callback: Option<F>,
    /// Stop after this many failed attempts; retry forever when `None`.
    pub max_attempts: Option<i32>,
}

/// The first delay between attempts, in milliseconds.
pub const INITIAL_DELAY_MS: u64 = 1000;

/// The longest delay between attempts, in milliseconds.
pub const MAX_DELAY_MS: u64 = 30000;

/// The largest random jitter added to a default delay, in milliseconds.
pub const MAX_JITTER_MS: u64 = 1000;

/// What to do after a failed connection attempt.
#[derive(Clone, Copy, Debug, PartialEq, Eq, Structural)]
pub enum RetryDecision {
    /// Report the error.
    GiveUp,
    /// Sleep this long, then try again with `next_delay_ms` as the delay.
    RetryAfter { sleep_ms: u64, next_delay_ms: u64 },
}

/// The default exponential backoff: sleep the delay plus jitter, at most
/// 30 s; double the delay, at most 30 s.
pub open spec fn default_backoff_spec(delay_ms: int, jitter_ms: int) -> (int, int) {
    let sleep = if delay_ms + jitter_ms < MAX_DELAY_MS {
        delay_ms + jitter_ms
    } else {
        MAX_DELAY_MS as int
    };
    let next = if 2 * delay_ms < MAX_DELAY_MS {
        2 * delay_ms
    } else {
        MAX_DELAY_MS as int
    };
    (sleep, next)
}

/// Whether the retry limit is reached after attempt `attempt`.
pub open spec fn exhausted(max_attempts: Option<i32>, attempt: i32) -> bool {
    match max_attempts {
        Some(max) => attempt >= max,
        None => false,
    }
}

/// The default backoff step: how long to sleep and the next delay.
pub fn default_backoff(delay_ms: u64, jitter_ms: u64) -> (r: (u64, u64))
    ensures
        (r.0 as int, r.1 as int) == default_backoff_spec(delay_ms as int, jitter_ms as int),
{
    let sleep = if delay_ms < MAX_DELAY_MS && jitter_ms < MAX_DELAY_MS - delay_ms {
        delay_ms + jitter_ms
    } else {
        MAX_DELAY_MS
    };
    let next = if delay_ms < MAX_DELAY_MS / 2 {
        2 * delay_ms
    } else {
        MAX_DELAY_MS
    };
    (sleep, next)
}

/// Draws the random jitter of a default backoff step.
///
/// Calls `rand::rng()` and `Rng::random_range(0..=1000)`. The contract
/// states only the range that `random_range` documents for an inclusive
/// range; the value itself is random.
#[verifier::external_body]
fn random_jitter_ms() -> (r: u64)
    ensures
        r <= MAX_JITTER_MS,
{
    rand::rng().random_range(0..=MAX_JITTER_MS)
}

impl<F> NatsConnector<F> {
    /// A connector for a configuration.
    pub fn new(pub_sub: &NatsConfiguration) -> (r: NatsConnector<F>)
        ensures
            r.connection_url@ == pub_sub.connection_url@,
            r.creds@ == pub_sub.creds@,
            r.auth == pub_sub.auth,
            r.backoff_callback is None,
            r.max_attempts is None,
    {
        NatsConnector {
            connection_url: pub_sub.connection_url.clone(),
            creds: pub_sub.creds.clone(),
            auth: pub_sub.auth,
            max_attempts: None,
            backoff_callback: None,
        }
    }

    /// Stops retrying after `attempts` failed attempts.
    pub fn max_attempts(self, attempts: i32) -> (r: NatsConnector<F>)
        ensures
            r.max_attempts == Some(attempts),
            r.backoff_callback == self.backoff_callback,
            r.connection_url == self.connection_url,
            r.creds == self.creds,
            r.auth == self.auth,
    {
        NatsConnector { max_attempts: Some(attempts), ..self }
    }

    /// Computes each delay with `f` instead of the default backoff.
    pub fn backoff(self, f: F) -> (r: NatsConnector<F>)
        ensures
            r.backoff_callback == Some(f),
            r.max_attempts == self.max_attempts,
            r.connection_url == self.connection_url,
            r.creds == self.creds,
            r.auth == self.auth,
    {
        NatsConnector { backoff_callback: Some(f), ..self }
    }

    /// How the client authenticates: a credentials file when one is
    /// configured, else a Keycloak token when Keycloak is selected, else the
    /// default options.
    pub fn options(&self) -> (r: ConnectCredentials)
        ensures
            self.creds@.len() > 0 ==> (r matches ConnectCredentials::CredentialsFile(f) && f@
                == self.creds@),
            self.creds@.len() == 0 && self.auth == AuthType::KEYCLOAK ==> r is KeycloakToken,
            self.creds@.len() == 0 && self.auth == AuthType::NIL ==> r is Default,
    {
        if !self.creds.as_str().is_empty() {
            return ConnectCredentials::CredentialsFile(self.creds.clone());
        }
        match self.auth {
            AuthType::NIL => ConnectCredentials::Default,
            AuthType::KEYCLOAK => ConnectCredentials::KeycloakToken,
        }
    }
}

impl<F: Fn(i32, u64) -> u64> NatsConnector<F> {
    /// The decision after failed attempt number `attempt` with the previous
    /// delay `delay_ms`: give up once the limit is reached; otherwise sleep
    /// the custom backoff's delay, or the default backoff's with `jitter_ms`.
    pub fn after_failure(&self, attempt: i32, delay_ms: u64, jitter_ms: u64) -> (r: RetryDecision)
        requires
            self.backoff_callback matches Some(f) ==> call_requires(f, (attempt, delay_ms)),
        ensures
            exhausted(self.max_attempts, attempt) ==> r is GiveUp,
            !exhausted(self.max_attempts, attempt) ==> match self.backoff_callback {
                Some(f) => r matches RetryDecision::RetryAfter { sleep_ms, next_delay_ms }
                    && sleep_ms == next_delay_ms && call_ensures(f, (attempt, delay_ms), sleep_ms),
                None => r matches RetryDecision::RetryAfter { sleep_ms, next_delay_ms } && (
                sleep_ms as int, next_delay_ms as int) == default_backoff_spec(
                    delay_ms as int,
                    jitter_ms as int,
                ),
            },
    {
        if let Some(max) = self.max_attempts {
            if attempt >= max {
                return RetryDecision::GiveUp;
            }
        }
        match &self.backoff_callback {
            Some(cb) => {
                let d = cb(attempt, delay_ms);
                RetryDecision::RetryAfter { sleep_ms: d, next_delay_ms: d }
            },
            None => {
                let (sleep, next) = default_backoff(delay_ms, jitter_ms);
                RetryDecision::RetryAfter { sleep_ms: sleep, next_delay_ms: next }
            },
        }
    }

    /// [`Self::after_failure`] with a freshly drawn jitter of at most 1 s.
    pub fn next_retry(&self, attempt: i32, delay_ms: u64) -> (r: RetryDecision)
        requires
            self.backoff_callback matches Some(f) ==> call_requires(f, (attempt, delay_ms)),
        ensures
            exhausted(self.max_attempts, attempt) ==> r is GiveUp,
            !exhausted(self.max_attempts, attempt) ==> match self.backoff_callback {
                Some(f) => r matches RetryDecision::RetryAfter { sleep_ms, next_delay_ms }
                    && sleep_ms == next_delay_ms && call_ensures(f, (attempt, delay_ms), sleep_ms),
                None => r matches RetryDecision::RetryAfter { sleep_ms, next_delay_ms } && exists|
                    j: int,
                | 0 <= j <= MAX_JITTER_MS && (sleep_ms as int, next_delay_ms as int)
                    == default_backoff_spec(delay_ms as int, j),
            },
    {
        let jitter = random_jitter_ms();
        let r = self.after_failure(attempt, delay_ms, jitter);
        proof {
            if !exhausted(self.max_attempts, attempt) && self.backoff_callback is None {
                assert(0 <= jitter as int <= MAX_JITTER_MS);
            }
        }
        r
    }
}

/// With the default backoff, no sleep exceeds 30 s, the delay never exceeds
/// 30 s, and a delay within bounds never shrinks.
pub proof fn law_default_backoff_bounded(delay_ms: int, jitter_ms: int)
    requires
        0 <= delay_ms,
        0 <= jitter_ms,
    ensures
        default_backoff_spec(delay_ms, jitter_ms).0 <= MAX_DELAY_MS,
        default_backoff_spec(delay_ms, jitter_ms).1 <= MAX_DELAY_MS,
        delay_ms <= MAX_DELAY_MS ==> delay_ms <= default_backoff_spec(delay_ms, jitter_ms).1,
        delay_ms <= MAX_DELAY_MS ==> delay_ms <= default_backoff_spec(delay_ms, jitter_ms).0,
{
}

/// Starting from the initial delay, the default backoff doubles the delay at
/// each step until it reaches 30 s.
pub proof fn law_default_backoff_doubles(delay_ms: int, jitter_ms: int)
    requires
        0 <= delay_ms,
        2 * delay_ms < MAX_DELAY_MS,
    ensures
        default_backoff_spec(delay_ms, jitter_ms).1 == 2 * delay_ms,
{
}

/// With a retry limit, the connector gives up at the limit and not before.
pub proof fn law_give_up_at_limit(max: i32, attempt: i32)
    ensures
        exhausted(Some(max), attempt) <==> attempt >= max,
        !exhausted(None, attempt),
{
}

} // verus!
