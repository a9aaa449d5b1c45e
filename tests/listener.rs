use spotify_auth::callback::callback_port;
use spotify_auth::error::AuthError;
use spotify_auth::listener::{ListenerAction, ListenerEvent, ListenerState, RedirectListener, SUCCESS_RESPONSE};

fn listening() -> RedirectListener {
    let mut l = RedirectListener::new();
    assert!(matches!(l.handle(ListenerEvent::Bound), ListenerAction::Accept));
    assert!(matches!(l.state, ListenerState::Listening));
    l
}

#[test]
fn code_callback_is_answered_once() {
    let mut l = listening();
    match l.handle(ListenerEvent::RequestLine("GET /callback?code=ABC123 HTTP/1.1\r\n".to_string())) {
        ListenerAction::Reply(body) => {
            assert_eq!(body, SUCCESS_RESPONSE);
            assert!(body.starts_with("HTTP/1.1 200 OK\r\n\r\n"));
        }
        _ => panic!("expected a reply"),
    }
    assert_eq!(l.outcome(), Some(Ok("ABC123".to_string())));
    // Nothing more is accepted or written.
    assert!(matches!(
        l.handle(ListenerEvent::RequestLine("GET /callback?code=OTHER HTTP/1.1".to_string())),
        ListenerAction::Close
    ));
    assert_eq!(l.outcome(), Some(Ok("ABC123".to_string())));
}

#[test]
fn denied_callback_fails_without_waiting_again() {
    let mut l = listening();
    assert!(matches!(
        l.handle(ListenerEvent::RequestLine("GET /callback?error=access_denied HTTP/1.1".to_string())),
        ListenerAction::Close
    ));
    assert_eq!(l.outcome(), Some(Err(AuthError::CallbackDenied)));
    assert!(matches!(
        l.handle(ListenerEvent::RequestLine("GET /callback?code=late HTTP/1.1".to_string())),
        ListenerAction::Close
    ));
    assert!(matches!(l.handle(ListenerEvent::Bound), ListenerAction::Close));
    assert_eq!(l.outcome(), Some(Err(AuthError::CallbackDenied)));
}

#[test]
fn deadline_times_out_and_releases() {
    let mut l = listening();
    assert!(matches!(l.handle(ListenerEvent::Deadline), ListenerAction::Close));
    assert!(matches!(l.state, ListenerState::TimedOut));
    assert_eq!(l.outcome(), Some(Err(AuthError::CallbackTimeout)));
}

#[test]
fn bind_failure_is_port_unavailable() {
    let mut l = RedirectListener::new();
    assert_eq!(l.outcome(), None);
    assert!(matches!(l.handle(ListenerEvent::BindError), ListenerAction::Close));
    assert_eq!(l.outcome(), Some(Err(AuthError::PortUnavailable)));
}

#[test]
fn unreadable_connection_is_denied() {
    let mut l = listening();
    assert!(matches!(l.handle(ListenerEvent::ConnectionError), ListenerAction::Close));
    assert_eq!(l.outcome(), Some(Err(AuthError::CallbackDenied)));
}

#[test]
fn idle_listener_ignores_connections() {
    let mut l = RedirectListener::new();
    assert!(matches!(
        l.handle(ListenerEvent::RequestLine("GET /?code=x HTTP/1.1".to_string())),
        ListenerAction::Close
    ));
    assert!(matches!(l.state, ListenerState::Idle));
    assert_eq!(l.outcome(), None);
}

#[test]
fn port_comes_from_redirect_uri() {
    assert_eq!(callback_port("http://localhost:3000/callback"), Ok(3000));
    assert_eq!(callback_port("http://127.0.0.1:8888/cb"), Ok(8888));
    assert_eq!(callback_port("http://localhost/callback"), Ok(80));
    assert_eq!(callback_port("not a url"), Err(AuthError::PortUnavailable));
}
