//! One tick of the watcher: a probe request for every endpoint, and the
//! notifications that the outcomes of those probes turn into.

use vstd::prelude::*;
use crate::endpoint::{Config, Method, method_named};
use crate::policy::{observation_valid, route, routed, Notification, Observation, ProbeOutcome};

verus! {

/// Everything one probe needs, taken from its endpoint when the tick starts.
#[derive(Clone, Debug)]
pub struct ProbeRequest {
    /// Index of the endpoint in the configuration.
    pub endpoint: usize,
    /// Address probed.
    pub url: String,
    /// Request method.
    pub method: Method,
    /// Total request deadline, in seconds.
    pub timeout_secs: u64,
    /// Local time at which the probe starts, as text.
    pub timestamp: String,
}

/// Relies on `chrono::Local::now` and the `Display` of `DateTime<Local>`: the
/// current local date and time with its offset. Nothing is claimed of its value.
#[verifier::external_body]
fn local_now_text() -> (r: String) {
    chrono::Local::now().to_string()
}

/// `plan` holds one request for each endpoint of `c`, in order, each carrying
/// the endpoint's address, method and timeout.
pub open spec fn planned(c: Config, plan: Seq<ProbeRequest>) -> bool {
    &&& plan.len() == c.servers@.len()
    &&& forall|i: int|
        0 <= i < plan.len() ==> {
            let q = #[trigger] plan[i];
            let s = c.servers@[i];
            &&& q.endpoint == i
            &&& q.url@ == s.url@
            &&& q.method == method_named(s.method@)
            &&& q.timeout_secs == s.timeout
        }
}

/// Starts a tick: one probe request per endpoint, stamped with the local time.
pub fn plan_tick(c: &Config) -> (r: Vec<ProbeRequest>)
    ensures
        planned(*c, r@),
        forall|i: int, j: int|
            0 <= i < r@.len() && 0 <= j < r@.len() && i != j ==> #[trigger] r@[i].endpoint
                != #[trigger] r@[j].endpoint,
{
    let mut plan: Vec<ProbeRequest> = Vec::new();
    let mut i: usize = 0;
    while i < c.servers.len()
        invariant
            i <= c.servers@.len(),
            plan@.len() == i,
            forall|k: int|
                0 <= k < i ==> {
                    let q = #[trigger] plan@[k];
                    let s = c.servers@[k];
                    &&& q.endpoint == k
                    &&& q.url@ == s.url@
                    &&& q.method == method_named(s.method@)
                    &&& q.timeout_secs == s.timeout
                },
        decreases c.servers@.len() - i,
    {
        let s = &c.servers[i];
        let request = ProbeRequest {
            endpoint: i,
            url: s.url.clone(),
            method: Method::parse(s.method.as_str()),
            timeout_secs: s.timeout,
            timestamp: local_now_text(),
        };
        plan.push(request);
        i = i + 1;
    }
    plan
}

impl ProbeRequest {
    /// The outcome of this request, once the probe observed `observation`.
    pub fn finish(self, observation: Observation) -> (r: ProbeOutcome)
        ensures
            r.endpoint == self.endpoint,
            r.observation == observation,
            r.timestamp@ == self.timestamp@,
    {
        ProbeOutcome { endpoint: self.endpoint, observation, timestamp: self.timestamp }
    }
}

/// The outcomes of a tick can be routed: each names an endpoint of `c` and
/// carries a status code that HTTP allows.
pub open spec fn outcomes_valid(c: Config, outcomes: Seq<ProbeOutcome>) -> bool {
    forall|i: int|
        0 <= i < outcomes.len() ==> {
            &&& (#[trigger] outcomes[i]).endpoint < c.servers@.len()
            &&& observation_valid(outcomes[i].observation)
        }
}

/// Ends a tick: the notification of every outcome, in the same order, each
/// routed by the policy of its own endpoint alone.
pub fn route_all(c: &Config, outcomes: &Vec<ProbeOutcome>) -> (r: Vec<Notification>)
    requires
        outcomes_valid(*c, outcomes@),
    ensures
        r@.len() == outcomes@.len(),
        forall|i: int|
            0 <= i < r@.len() ==> (#[trigger] r@[i])@ == routed(
                c.servers@[outcomes@[i].endpoint as int],
                outcomes@[i],
            ),
{
    let mut notes: Vec<Notification> = Vec::new();
    let mut i: usize = 0;
    while i < outcomes.len()
        invariant
            outcomes_valid(*c, outcomes@),
            i <= outcomes@.len(),
            notes@.len() == i,
            forall|k: int|
                0 <= k < i ==> (#[trigger] notes@[k])@ == routed(
                    c.servers@[outcomes@[k].endpoint as int],
                    outcomes@[k],
                ),
        decreases outcomes@.len() - i,
    {
        let o = &outcomes[i];
        let note = route(&c.servers[o.endpoint], o);
        notes.push(note);
        i = i + 1;
    }
    notes
}

/// Every endpoint of a tick is probed exactly once: the outcomes gathered
/// from a tick's plan, one per request and in its order, are as many as the
/// endpoints, the one at position `e` names endpoint `e`, and no two name the
/// same endpoint.
pub proof fn lemma_one_outcome_per_endpoint(
    c: Config,
    plan: Seq<ProbeRequest>,
    outcomes: Seq<ProbeOutcome>,
)
    requires
        planned(c, plan),
        outcomes.len() == plan.len(),
        forall|i: int| 0 <= i < outcomes.len() ==> #[trigger] outcomes[i].endpoint == plan[i].endpoint,
    ensures
        outcomes.len() == c.servers@.len(),
        forall|e: int| 0 <= e < c.servers@.len() ==> #[trigger] outcomes[e].endpoint == e,
        forall|i: int, j: int|
            0 <= i < outcomes.len() && 0 <= j < outcomes.len() && i != j ==> #[trigger] outcomes[i].endpoint
                != #[trigger] outcomes[j].endpoint,
        forall|i: int| 0 <= i < outcomes.len() ==> #[trigger] outcomes[i].endpoint < c.servers@.len(),
{
    assert forall|e: int| 0 <= e < c.servers@.len() implies #[trigger] outcomes[e].endpoint
        == e by {
        assert(plan[e].endpoint == e);
    }
    assert forall|i: int| 0 <= i < outcomes.len() implies #[trigger] outcomes[i].endpoint
        < c.servers@.len() by {
        assert(plan[i].endpoint == i);
    }
    assert forall|i: int, j: int|
        0 <= i < outcomes.len() && 0 <= j < outcomes.len() && i != j implies #[trigger] outcomes[i].endpoint
            != #[trigger] outcomes[j].endpoint by {
        assert(plan[i].endpoint == i);
        assert(plan[j].endpoint == j);
    }
}

/// Relies on `String::leak`: the returned text is the given one, kept alive
/// for the rest of the process.
#[verifier::external_body]
fn leak_text(s: String) -> (r: &'static str)
    ensures
        r@ == s@,
{
    s.leak()
}

/// Gives a text the lifetime of the process, for clients that ask for one.
pub fn string_to_static_str(s: String) -> (r: &'static str)
    ensures
        r@ == s@,
{
    leak_text(s)
}

} // verus!
