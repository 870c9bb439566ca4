use pixlink_client::dispatch::{assemble, try_assemble, MAX_HEADERS};
use pixlink_client::machine::{Action, Phase};
use pixlink_client::report::refused_event;
use pixlink_client::relay::prepare;
use pixlink_client::{HttpRequest, Method, Outbound, RelayError};

fn plan(method: Method) -> Outbound {
    Outbound { method, url: "http://x/path?q=1".to_string(), headers: vec![], body: None }
}

fn pair(name: &str, value: &str) -> (String, String) {
    (name.to_string(), value.to_string())
}

fn built(plan: Outbound) -> reqwest::Request {
    assemble(&reqwest::Client::new(), plan).build().unwrap()
}

#[test]
fn bare_plan_builds_a_bare_request_for_each_verb() {
    for (method, word) in [
        (Method::Get, "GET"),
        (Method::Post, "POST"),
        (Method::Put, "PUT"),
        (Method::Delete, "DELETE"),
    ] {
        let request = built(plan(method));
        assert_eq!(request.method().as_str(), word);
        assert_eq!(request.url().as_str(), "http://x/path?q=1");
        assert_eq!(request.headers().len(), 0);
        assert!(request.body().is_none());
    }
}

#[test]
fn every_header_reaches_the_request() {
    let mut outbound = plan(Method::Post);
    outbound.headers = vec![
        pair("Accept", "text/html"),
        pair("X-Tag", "one"),
        pair("Accept", "application/json"),
        pair("Accept", "text/html"),
    ];
    let request = built(outbound);
    assert_eq!(request.headers().len(), 4);
    let accepted: Vec<&str> =
        request.headers().get_all("accept").iter().map(|value| value.to_str().unwrap()).collect();
    assert_eq!(accepted, vec!["text/html", "application/json", "text/html"]);
    let tagged: Vec<&str> =
        request.headers().get_all("x-tag").iter().map(|value| value.to_str().unwrap()).collect();
    assert_eq!(tagged, vec!["one"]);
}

#[test]
fn body_is_attached_as_it_stands() {
    let mut outbound = plan(Method::Put);
    outbound.body = Some("{\"a\": 1}\n".to_string());
    let request = built(outbound);
    assert_eq!(request.body().unwrap().as_bytes(), Some("{\"a\": 1}\n".as_bytes()));
    assert_eq!(request.headers().len(), 0);
}

#[test]
fn body_is_attached_for_get_and_delete_too() {
    for method in [Method::Get, Method::Delete] {
        let mut outbound = plan(method);
        outbound.body = Some("payload".to_string());
        let request = built(outbound);
        assert_eq!(request.method().as_str(), Method::as_str(&method));
        assert_eq!(request.body().unwrap().as_bytes(), Some("payload".as_bytes()));
    }
}

#[test]
fn empty_body_is_still_a_body() {
    let mut outbound = plan(Method::Post);
    outbound.body = Some(String::new());
    let request = built(outbound);
    assert_eq!(request.body().unwrap().as_bytes(), Some("".as_bytes()));
}

#[test]
fn malformed_address_shows_when_the_request_is_built() {
    let mut outbound = plan(Method::Get);
    outbound.url = "not a url".to_string();
    let refused = assemble(&reqwest::Client::new(), outbound).build();
    assert!(refused.is_err());
}

#[test]
fn illegal_header_shows_when_the_request_is_built() {
    let mut outbound = plan(Method::Get);
    outbound.headers = vec![pair("X-Ok", "fine"), pair("bad name", "value")];
    let refused = assemble(&reqwest::Client::new(), outbound).build();
    assert!(refused.is_err());
}

#[test]
fn prepared_request_is_assembled_whole() {
    let plan = prepare(HttpRequest {
        url: "http://x/".to_string(),
        method: "DELETE".to_string(),
        headers: Some(vec![pair("Authorization", "Bearer t"), pair("X-Id", "7")]),
        body: Some("gone".to_string()),
    })
    .unwrap();
    let request = built(plan);
    assert_eq!(request.method().as_str(), "DELETE");
    assert_eq!(request.url().as_str(), "http://x/");
    assert_eq!(request.headers().len(), 2);
    assert_eq!(request.headers().get("authorization").unwrap().to_str().unwrap(), "Bearer t");
    assert_eq!(request.headers().get("x-id").unwrap().to_str().unwrap(), "7");
    assert_eq!(request.body().unwrap().as_bytes(), Some("gone".as_bytes()));
}

fn numbered(count: usize) -> Vec<(String, String)> {
    (0..count).map(|at| (format!("x-h{}", at), at.to_string())).collect()
}

#[test]
fn header_limit_is_fixed() {
    assert_eq!(MAX_HEADERS, 6553);
}

#[test]
fn plan_at_the_limit_is_assembled_whole() {
    let mut outbound = plan(Method::Post);
    outbound.headers = numbered(MAX_HEADERS);
    let made = try_assemble(&reqwest::Client::new(), outbound);
    let request = made.unwrap().build().unwrap();
    assert_eq!(request.headers().len(), MAX_HEADERS);
    assert_eq!(request.headers().get("x-h0").unwrap().to_str().unwrap(), "0");
    assert_eq!(request.headers().get("x-h6552").unwrap().to_str().unwrap(), "6552");
}

#[test]
fn plan_at_the_limit_with_credentials_is_assembled_whole() {
    let mut outbound = plan(Method::Get);
    outbound.url = "http://user:secret@x/".to_string();
    outbound.headers = numbered(MAX_HEADERS);
    let request = try_assemble(&reqwest::Client::new(), outbound).unwrap().build().unwrap();
    assert_eq!(request.headers().len(), MAX_HEADERS + 1);
    assert!(request.headers().get("authorization").is_some());
}

#[test]
fn plan_over_the_limit_is_refused_without_a_panic() {
    for count in [MAX_HEADERS + 1, 24_575, 24_576, 24_577, 40_000] {
        let mut outbound = plan(Method::Get);
        outbound.headers = numbered(count);
        assert!(try_assemble(&reqwest::Client::new(), outbound).is_none());
    }
}

#[test]
fn plan_over_the_limit_is_refused_also_for_one_repeated_name() {
    let mut outbound = plan(Method::Get);
    outbound.headers = vec![pair("Accept", "text/html"); MAX_HEADERS + 1];
    assert!(try_assemble(&reqwest::Client::new(), outbound).is_none());
}

#[test]
fn small_plan_is_assembled_as_by_assemble() {
    let mut outbound = plan(Method::Put);
    outbound.headers = vec![pair("Accept", "a"), pair("Accept", "b")];
    outbound.body = Some("text".to_string());
    let request = try_assemble(&reqwest::Client::new(), outbound).unwrap().build().unwrap();
    assert_eq!(request.method().as_str(), "PUT");
    assert_eq!(request.headers().len(), 2);
    assert_eq!(request.body().unwrap().as_bytes(), Some("text".as_bytes()));
}

#[test]
fn refused_plan_ends_the_relay_with_a_message() {
    let (phase, action) = Phase::Sent.step(refused_event()).unwrap();
    assert_eq!(action, Action::Finish);
    let failure = phase.into_result().unwrap().unwrap_err();
    assert_eq!(failure, RelayError::Transport("too many headers".to_string()));
    assert_eq!(failure.message(), "HTTP request failed: too many headers");
}
