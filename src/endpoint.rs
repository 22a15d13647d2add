//! Endpoint descriptions and the run configuration that lists them.

use vstd::prelude::*;
use vstd::string::StringExecFns;

verus! {

/// Timeout, in seconds, of an endpoint whose configuration gives none.
pub const DEFAULT_TIMEOUT_SECS: u64 = 10;

/// Lowest status code an endpoint may expect.
pub const MIN_STATUS_CODE: u16 = 100;

/// Highest status code an endpoint may expect.
pub const MAX_STATUS_CODE: u16 = 599;

/// The HTTP request method of a probe.
#[derive(Clone, Copy, Debug, PartialEq, Eq, Structural)]
pub enum Method {
    Get,
    Post,
}

/// The method named by a configuration text: `POST` is a POST, anything else a GET.
pub open spec fn method_named(s: Seq<char>) -> Method {
    if s == "POST"@ {
        Method::Post
    } else {
        Method::Get
    }
}

impl Method {
    /// Reads a method name; an unrecognised name falls back to GET.
    pub fn parse(s: &str) -> (r: Method)
        ensures
            r == method_named(s@),
    {
        let given = String::from_str(s);
        let post = String::from_str("POST");
        if given == post {
            Method::Post
        } else {
            Method::Get
        }
    }
}

/// One monitored endpoint.
#[derive(Clone, Debug)]
pub struct Server {
    /// Display label.
    pub name: String,
    /// Absolute address probed.
    pub url: String,
    /// Method name as configured (`GET` or `POST`).
    pub method: String,
    /// Total request deadline, in seconds.
    pub timeout: u64,
    /// The status code a healthy endpoint answers with.
    pub status_code: u16,
    /// Destination token of the notification channel.
    pub slack_webhook: String,
    /// Channel that receives alerts.
    pub slack_channel_alert: String,
    /// Channel that receives success logs.
    pub slack_channel_log: String,
}

/// The timeout used for an endpoint, given the configured one if any.
pub open spec fn timeout_or_default(t: Option<u64>) -> u64 {
    match t {
        Some(v) => v,
        None => DEFAULT_TIMEOUT_SECS,
    }
}

/// Fills in the default timeout of an endpoint whose configuration gives none.
pub fn resolve_timeout(t: Option<u64>) -> (r: u64)
    ensures
        r == timeout_or_default(t),
{
    match t {
        Some(v) => v,
        None => DEFAULT_TIMEOUT_SECS,
    }
}

/// The whole run configuration: one polling interval and an ordered list of endpoints.
#[derive(Clone, Debug)]
pub struct Config {
    /// Seconds slept before each tick.
    pub interval: u64,
    /// Endpoints probed on each tick, in order.
    pub servers: Vec<Server>,
}

/// What makes a configuration unusable.
#[derive(Clone, Copy, Debug, PartialEq, Eq, Structural)]
pub enum ConfigError {
    /// The polling interval is zero.
    ZeroInterval,
    /// The endpoint at this index has an empty name.
    EmptyName(usize),
    /// The endpoint at this index has an empty address.
    EmptyUrl(usize),
    /// The address of the endpoint at this index is not an absolute URL.
    InvalidUrl(usize),
    /// The endpoint at this index has a zero timeout.
    ZeroTimeout(usize),
    /// The endpoint at this index expects a status code outside 100..=599.
    StatusCodeOutOfRange(usize),
}

/// Whether a text parses as an absolute URL.
pub uninterp spec fn is_absolute_url(s: Seq<char>) -> bool;

/// Relies on `reqwest::Url::parse` (the url crate's), which fails exactly when
/// it cannot parse an absolute URL from the text; the answer depends on the
/// text alone.
#[verifier::external_body]
fn parses_as_absolute_url(s: &str) -> (r: bool)
    ensures
        r == is_absolute_url(s@),
{
    reqwest::Url::parse(s).is_ok()
}

/// The first defect of one endpoint, if any.
pub open spec fn server_defect(s: Server, i: usize) -> Option<ConfigError> {
    if s.name@.len() == 0 {
        Some(ConfigError::EmptyName(i))
    } else if s.url@.len() == 0 {
        Some(ConfigError::EmptyUrl(i))
    } else if !is_absolute_url(s.url@) {
        Some(ConfigError::InvalidUrl(i))
    } else if s.timeout == 0 {
        Some(ConfigError::ZeroTimeout(i))
    } else if s.status_code < MIN_STATUS_CODE || s.status_code > MAX_STATUS_CODE {
        Some(ConfigError::StatusCodeOutOfRange(i))
    } else {
        None
    }
}

/// An endpoint that can be probed and reported on.
pub open spec fn server_valid(s: Server) -> bool {
    server_defect(s, 0).is_none()
}

/// A configuration that the watcher can run on.
pub open spec fn config_valid(c: Config) -> bool {
    &&& c.interval > 0
    &&& forall|i: int| 0 <= i < c.servers@.len() ==> server_valid(#[trigger] c.servers@[i])
}

impl Server {
    /// Checks this endpoint, reporting its first defect under index `i`.
    pub fn check(&self, i: usize) -> (r: Result<(), ConfigError>)
        ensures
            r == (match server_defect(*self, i) {
                Some(e) => Err(e),
                None => Ok(()),
            }),
    {
        if self.name.as_str().is_empty() {
            Err(ConfigError::EmptyName(i))
        } else if self.url.as_str().is_empty() {
            Err(ConfigError::EmptyUrl(i))
        } else if !parses_as_absolute_url(self.url.as_str()) {
            Err(ConfigError::InvalidUrl(i))
        } else if self.timeout == 0 {
            Err(ConfigError::ZeroTimeout(i))
        } else if self.status_code < MIN_STATUS_CODE || self.status_code > MAX_STATUS_CODE {
            Err(ConfigError::StatusCodeOutOfRange(i))
        } else {
            Ok(())
        }
    }
}

impl Config {
    /// Checks the configuration: `Ok` exactly when it is valid, else the
    /// first defect found, taking the interval first and then the endpoints
    /// in order.
    pub fn validate(&self) -> (r: Result<(), ConfigError>)
        ensures
            r is Ok <==> config_valid(*self),
            r == Err::<(), ConfigError>(ConfigError::ZeroInterval) <==> self.interval == 0,
            forall|i: usize|
                #![trigger server_defect(self.servers@[i as int], i)]
                r is Err && self.interval > 0 && (i as int) < self.servers@.len()
                    && server_defect(self.servers@[i as int], i) is Some
                    && (forall|j: int| 0 <= j < i ==> server_valid(#[trigger] self.servers@[j]))
                    ==> r == Err::<(), ConfigError>(server_defect(self.servers@[i as int], i)->0),
    {
        if self.interval == 0 {
            return Err(ConfigError::ZeroInterval);
        }
        let mut i: usize = 0;
        while i < self.servers.len()
            invariant
                self.interval > 0,
                i <= self.servers@.len(),
                forall|j: int| 0 <= j < i ==> server_valid(#[trigger] self.servers@[j]),
            decreases self.servers@.len() - i,
        {
            let checked = self.servers[i].check(i);
            if checked.is_err() {
                assert(server_defect(self.servers@[i as int], i) is Some);
                return checked;
            }
            i = i + 1;
        }
        Ok(())
    }
}

} // verus!
