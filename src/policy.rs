//! What one probe outcome turns into: the channel it is reported to, whether
//! everyone there is mentioned, and the text of the message.

use vstd::prelude::*;
use vstd::string::StringExecFns;
use crate::endpoint::Server;

verus! {

/// What a probe observed: a status code, or a transport failure described in words.
#[derive(Clone, Debug)]
pub enum Observation {
    /// The endpoint answered with this HTTP status code.
    Status(u16),
    /// No answer came (refused, unresolved, timed out, ...), for this reason.
    Failure(String),
}

/// The result of probing one endpoint on one tick.
#[derive(Clone, Debug)]
pub struct ProbeOutcome {
    /// Index of the probed endpoint in the configuration.
    pub endpoint: usize,
    /// What the probe observed.
    pub observation: Observation,
    /// Local time at which the probe started, as text.
    pub timestamp: String,
}

/// A status code is one that an HTTP response can carry.
pub open spec fn observation_valid(o: Observation) -> bool {
    match o {
        Observation::Status(c) => 100 <= c <= 999,
        Observation::Failure(_) => true,
    }
}

/// A message ready to be delivered.
#[derive(Clone, Debug)]
pub struct Notification {
    /// Channel the message goes to.
    pub channel: String,
    /// Destination token through which it is delivered.
    pub webhook: String,
    /// Whether the message mentions everyone on the channel.
    pub mention_all: bool,
    /// The message body.
    pub text: String,
}

/// The mathematical value of a notification.
pub struct NotificationView {
    pub channel: Seq<char>,
    pub webhook: Seq<char>,
    pub mention_all: bool,
    pub text: Seq<char>,
}

impl View for Notification {
    type V = NotificationView;

    open spec fn view(&self) -> NotificationView {
        NotificationView {
            channel: self.channel@,
            webhook: self.webhook@,
            mention_all: self.mention_all,
            text: self.text@,
        }
    }
}

/// The text that HTTP's `StatusCode` displays for a code: the code and its
/// canonical reason phrase.
pub uninterp spec fn status_text_of(code: u16) -> Seq<char>;

/// Relies on `reqwest::StatusCode` (http's): `from_u16` accepts every code in
/// 100..=999, and its `Display` writes the code with its reason phrase, a text
/// that depends on the code alone.
#[verifier::external_body]
fn status_text(code: u16) -> (r: String)
    requires
        100 <= code <= 999,
    ensures
        r@ == status_text_of(code),
{
    format!("{}", reqwest::StatusCode::from_u16(code).unwrap())
}

/// The message body: a mention line when the outcome is not healthy, then a
/// fenced block with the endpoint, its status and the time of the probe.
pub open spec fn message_text(
    is_ok: bool,
    name: Seq<char>,
    url: Seq<char>,
    status: Seq<char>,
    timestamp: Seq<char>,
) -> Seq<char> {
    (if is_ok { Seq::empty() } else { "@channel\n"@ }) + "```\n"@ + name + ": "@ + url
        + "\nStatus: "@ + status + "\n"@ + timestamp + "\n```"@
}

/// Formats the message for an endpoint with the given status text and timestamp.
pub fn make_message(is_ok: bool, server: &Server, status: &str, timestamp: &str) -> (r: String)
    ensures
        r@ == message_text(is_ok, server.name@, server.url@, status@, timestamp@),
{
    let mut text = String::new();
    if !is_ok {
        text.append("@channel\n");
    }
    text.append("```\n");
    text.append(server.name.as_str());
    text.append(": ");
    text.append(server.url.as_str());
    text.append("\nStatus: ");
    text.append(status);
    text.append("\n");
    text.append(timestamp);
    text.append("\n```");
    proof {
        assert(Seq::<char>::empty() + "```\n"@ =~= "```\n"@);
    }
    text
}

/// An outcome is healthy when the endpoint answered with the expected code.
pub open spec fn is_healthy(s: Server, o: Observation) -> bool {
    match o {
        Observation::Status(c) => c == s.status_code,
        Observation::Failure(_) => false,
    }
}

/// The status text a message shows for an observation.
pub open spec fn status_shown(o: Observation) -> Seq<char> {
    match o {
        Observation::Status(c) => status_text_of(c),
        Observation::Failure(reason) => reason@,
    }
}

/// The success policy: a healthy outcome goes quietly to the log channel,
/// anything else to the alert channel with everyone mentioned.
pub open spec fn routed(s: Server, o: ProbeOutcome) -> NotificationView {
    let ok = is_healthy(s, o.observation);
    NotificationView {
        channel: if ok { s.slack_channel_log@ } else { s.slack_channel_alert@ },
        webhook: s.slack_webhook@,
        mention_all: !ok,
        text: message_text(ok, s.name@, s.url@, status_shown(o.observation), o.timestamp@),
    }
}

/// Applies the success policy to the outcome of probing `server`.
pub fn route(server: &Server, outcome: &ProbeOutcome) -> (r: Notification)
    requires
        observation_valid(outcome.observation),
    ensures
        r@ == routed(*server, *outcome),
{
    let (ok, status) = match &outcome.observation {
        Observation::Status(c) => (*c == server.status_code, status_text(*c)),
        Observation::Failure(reason) => (false, reason.clone()),
    };
    let channel = if ok {
        server.slack_channel_log.clone()
    } else {
        server.slack_channel_alert.clone()
    };
    let text = make_message(ok, server, status.as_str(), outcome.timestamp.as_str());
    Notification { channel, webhook: server.slack_webhook.clone(), mention_all: !ok, text }
}

/// Routing is a function of the outcome: two notifications that both meet
/// the policy for one endpoint and one outcome are the same.
pub proof fn lemma_routing_is_pure(s: Server, o: ProbeOutcome, a: Notification, b: Notification)
    requires
        a@ == routed(s, o),
        b@ == routed(s, o),
    ensures
        a@ == b@,
{
}

/// Formatting is a function of its inputs: equal inputs give the same text.
pub proof fn lemma_message_is_deterministic(
    is_ok: bool,
    s: Server,
    status: Seq<char>,
    timestamp: Seq<char>,
    a: Seq<char>,
    b: Seq<char>,
)
    requires
        a == message_text(is_ok, s.name@, s.url@, status, timestamp),
        b == message_text(is_ok, s.name@, s.url@, status, timestamp),
    ensures
        a == b,
{
}

} // verus!
