use pixlink_client::machine::{Action, Event, Phase};
use pixlink_client::report::{read_event, sent_event};
use pixlink_client::{HttpResponse, RelayError};

/// An error of the client's own making: a request to no address at all.
fn client_error() -> reqwest::Error {
    reqwest::Client::new().get("not a url").build().unwrap_err()
}

fn response(status: u16, body: &'static str) -> reqwest::Response {
    reqwest::Response::from(http::Response::builder().status(status).body(body).unwrap())
}

#[test]
fn sent_response_is_reported_with_its_status() {
    for status in [100u16, 200, 204, 301, 404, 500, 599, 999] {
        let (event, kept) = sent_event(Ok(response(status, "text")));
        assert_eq!(event, Event::Responded(status));
        assert_eq!(kept.unwrap().status().as_u16(), status);
    }
}

#[test]
fn sent_error_is_reported_in_its_own_words() {
    let words = client_error().to_string();
    assert!(!words.is_empty());
    let (event, kept) = sent_event(Err(client_error()));
    assert_eq!(event, Event::ExchangeFailed(words));
    assert!(kept.is_none());
}

#[test]
fn read_body_is_reported_as_read() {
    assert_eq!(read_event(Ok("ok".to_string())), Event::BodyRead("ok".to_string()));
    assert_eq!(read_event(Ok(String::new())), Event::BodyRead(String::new()));
}

#[test]
fn read_error_is_reported_in_its_own_words() {
    let words = client_error().to_string();
    assert_eq!(read_event(Err(client_error())), Event::BodyFailed(words));
}

#[test]
fn reported_response_runs_through_the_steps() {
    let (event, kept) = sent_event(Ok(response(404, "missing")));
    assert!(kept.is_some());
    let (phase, action) = Phase::Sent.step(event).unwrap();
    assert_eq!(action, Action::ReadBody);
    let (phase, _) = phase.step(read_event(Ok("missing".to_string()))).unwrap();
    assert_eq!(
        phase.into_result(),
        Some(Ok(HttpResponse { status: 404, body: "missing".to_string() }))
    );
}

#[test]
fn reported_error_fails_the_relay_with_the_clients_words() {
    let words = client_error().to_string();
    let (event, _) = sent_event(Err(client_error()));
    let (phase, action) = Phase::Sent.step(event).unwrap();
    assert_eq!(action, Action::Finish);
    let failure = phase.into_result().unwrap().unwrap_err();
    assert_eq!(failure, RelayError::Transport(words.clone()));
    assert_eq!(failure.message(), format!("HTTP request failed: {}", words));
    assert!(failure.message().contains(&words));
}
