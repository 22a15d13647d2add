use server_watcher::dispatch::{plan_tick, route_all, string_to_static_str};
use server_watcher::endpoint::{resolve_timeout, Config, ConfigError, Method, Server, DEFAULT_TIMEOUT_SECS};
use server_watcher::policy::{make_message, route, Observation, ProbeOutcome};
use server_watcher::scheduler::{Action, Event, Phase, Scheduler};

fn api_server() -> Server {
    Server {
        name: String::from("api"),
        url: String::from("http://x/health"),
        method: String::from("GET"),
        timeout: 10,
        status_code: 200,
        slack_webhook: String::from("https://hooks.example/T000"),
        slack_channel_alert: String::from("#alerts"),
        slack_channel_log: String::from("#log"),
    }
}

fn outcome(endpoint: usize, observation: Observation) -> ProbeOutcome {
    ProbeOutcome { endpoint, observation, timestamp: String::from("2024-05-01 12:00:00 +09:00") }
}

#[test]
fn healthy_endpoint_goes_to_log_channel() {
    let s = api_server();
    let n = route(&s, &outcome(0, Observation::Status(200)));
    assert_eq!(n.channel, "#log");
    assert_eq!(n.webhook, "https://hooks.example/T000");
    assert!(!n.mention_all);
    assert!(n.text.contains("Status: 200 OK"));
    assert!(!n.text.starts_with("@channel"));
    assert_eq!(
        n.text,
        "```\napi: http://x/health\nStatus: 200 OK\n2024-05-01 12:00:00 +09:00\n```"
    );
}

#[test]
fn unexpected_status_goes_to_alert_channel() {
    let s = api_server();
    let n = route(&s, &outcome(0, Observation::Status(503)));
    assert_eq!(n.channel, "#alerts");
    assert!(n.mention_all);
    assert!(n.text.starts_with("@channel"));
    assert!(n.text.contains("Status: 503 Service Unavailable"));
}

#[test]
fn unreachable_endpoint_alerts_with_reason() {
    let s = api_server();
    let reason = String::from("error sending request: connection refused");
    let n = route(&s, &outcome(0, Observation::Failure(reason.clone())));
    assert_eq!(n.channel, "#alerts");
    assert!(n.mention_all);
    assert!(n.text.starts_with("@channel\n"));
    assert!(n.text.contains(&format!("Status: {}", reason)));
    assert!(!n.text.contains("Status: 5"));
}

#[test]
fn routing_twice_gives_the_same_notification() {
    let s = api_server();
    let o = outcome(0, Observation::Status(404));
    let a = route(&s, &o);
    let b = route(&s, &o);
    assert_eq!(a.channel, b.channel);
    assert_eq!(a.webhook, b.webhook);
    assert_eq!(a.mention_all, b.mention_all);
    assert_eq!(a.text, b.text);
}

#[test]
fn formatting_twice_gives_identical_bytes() {
    let s = api_server();
    let a = make_message(false, &s, "500 Internal Server Error", "T0");
    let b = make_message(false, &s, "500 Internal Server Error", "T0");
    assert_eq!(a.as_bytes(), b.as_bytes());
    assert_eq!(a, "@channel\n```\napi: http://x/health\nStatus: 500 Internal Server Error\nT0\n```");
}

#[test]
fn unknown_status_code_text() {
    let s = api_server();
    let n = route(&s, &outcome(0, Observation::Status(799)));
    assert!(n.text.contains("Status: 799 <unknown status code>"));
    assert_eq!(n.channel, "#alerts");
}

#[test]
fn tick_plans_one_request_per_endpoint() {
    let mut b = api_server();
    b.name = String::from("web");
    b.url = String::from("http://y/");
    b.method = String::from("POST");
    b.timeout = 3;
    let mut c = api_server();
    c.method = String::from("PATCH");
    let config = Config { interval: 5, servers: vec![api_server(), b, c] };
    let plan = plan_tick(&config);
    assert_eq!(plan.len(), 3);
    for (i, q) in plan.iter().enumerate() {
        assert_eq!(q.endpoint, i);
        assert_eq!(q.url, config.servers[i].url);
        assert_eq!(q.timeout_secs, config.servers[i].timeout);
        assert!(!q.timestamp.is_empty());
    }
    assert_eq!(plan[0].method, Method::Get);
    assert_eq!(plan[1].method, Method::Post);
    assert_eq!(plan[2].method, Method::Get);
}

#[test]
fn empty_configuration_plans_nothing() {
    let config = Config { interval: 1, servers: Vec::new() };
    assert!(plan_tick(&config).is_empty());
    assert!(route_all(&config, &Vec::new()).is_empty());
}

#[test]
fn slow_endpoint_does_not_change_fast_one() {
    let mut b = api_server();
    b.name = String::from("slow");
    b.slack_channel_alert = String::from("#slow-alerts");
    let config = Config { interval: 5, servers: vec![api_server(), b] };
    let plan = plan_tick(&config);
    let mut outcomes = Vec::new();
    for q in plan {
        let obs = if q.endpoint == 0 {
            Observation::Status(200)
        } else {
            Observation::Failure(String::from("operation timed out"))
        };
        outcomes.push(q.finish(obs));
    }
    let notes = route_all(&config, &outcomes);
    assert_eq!(notes.len(), 2);
    assert_eq!(notes[0].channel, "#log");
    assert!(!notes[0].mention_all);
    assert_eq!(notes[1].channel, "#slow-alerts");
    assert!(notes[1].text.contains("Status: operation timed out"));
}

#[test]
fn finish_keeps_endpoint_and_timestamp() {
    let config = Config { interval: 5, servers: vec![api_server()] };
    let q = plan_tick(&config).remove(0);
    let stamp = q.timestamp.clone();
    let o = q.finish(Observation::Status(201));
    assert_eq!(o.endpoint, 0);
    assert_eq!(o.timestamp, stamp);
    assert!(matches!(o.observation, Observation::Status(201)));
}

#[test]
fn scheduler_sleeps_before_every_tick() {
    let mut s = Scheduler::new(5);
    assert_eq!(s.phase, Phase::Starting);
    assert_eq!(s.step(Event::Started), Action::Sleep(5));
    assert_eq!(s.step(Event::Woke), Action::Dispatch);
    assert_eq!(s.step(Event::Woke), Action::Ignore);
    assert_eq!(s.step(Event::TickDone), Action::Sleep(5));
    assert_eq!(s.step(Event::Woke), Action::Dispatch);
    assert_eq!(s.interval, 5);
}

#[test]
fn scheduler_ignores_out_of_order_events() {
    let mut s = Scheduler::new(7);
    assert_eq!(s.step(Event::Woke), Action::Ignore);
    assert_eq!(s.step(Event::TickDone), Action::Ignore);
    assert_eq!(s.phase, Phase::Starting);
    assert_eq!(s.step(Event::Started), Action::Sleep(7));
    assert_eq!(s.step(Event::Started), Action::Ignore);
    assert_eq!(s.step(Event::TickDone), Action::Ignore);
    assert_eq!(s.phase, Phase::Sleeping);
}

#[test]
fn method_names() {
    assert_eq!(Method::parse("GET"), Method::Get);
    assert_eq!(Method::parse("POST"), Method::Post);
    assert_eq!(Method::parse("post"), Method::Get);
    assert_eq!(Method::parse(""), Method::Get);
}

#[test]
fn timeout_defaults_to_ten_seconds() {
    assert_eq!(resolve_timeout(None), DEFAULT_TIMEOUT_SECS);
    assert_eq!(resolve_timeout(None), 10);
    assert_eq!(resolve_timeout(Some(3)), 3);
}

#[test]
fn valid_configuration_is_accepted() {
    let config = Config { interval: 5, servers: vec![api_server(), api_server()] };
    assert_eq!(config.validate(), Ok(()));
}

#[test]
fn configuration_defects_are_reported() {
    let mut config = Config { interval: 0, servers: vec![api_server()] };
    assert_eq!(config.validate(), Err(ConfigError::ZeroInterval));
    config.interval = 5;
    let mut bad = api_server();
    bad.name = String::new();
    config.servers.push(bad.clone());
    assert_eq!(config.validate(), Err(ConfigError::EmptyName(1)));
    bad.name = String::from("n");
    bad.url = String::new();
    config.servers[1] = bad.clone();
    assert_eq!(config.validate(), Err(ConfigError::EmptyUrl(1)));
    bad.url = String::from("/health");
    config.servers[1] = bad.clone();
    assert_eq!(config.validate(), Err(ConfigError::InvalidUrl(1)));
    bad.url = String::from("http://z/");
    bad.timeout = 0;
    config.servers[1] = bad.clone();
    assert_eq!(config.validate(), Err(ConfigError::ZeroTimeout(1)));
    bad.timeout = 1;
    bad.status_code = 600;
    config.servers[1] = bad.clone();
    assert_eq!(config.validate(), Err(ConfigError::StatusCodeOutOfRange(1)));
    bad.status_code = 99;
    config.servers[1] = bad.clone();
    assert_eq!(config.validate(), Err(ConfigError::StatusCodeOutOfRange(1)));
    bad.status_code = 599;
    config.servers[1] = bad;
    assert_eq!(config.validate(), Ok(()));
}

#[test]
fn leaked_text_keeps_its_contents() {
    let s: &'static str = string_to_static_str(String::from("https://hooks.example/T000"));
    assert_eq!(s, "https://hooks.example/T000");
}
