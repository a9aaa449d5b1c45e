use spotify_auth::authorize::{build_authorization_url, SpotifyConfig};
use spotify_auth::error::AuthError;
use spotify_auth::listener::{ListenerAction, ListenerEvent, RedirectListener};
use spotify_auth::session::OAuthSession;
use spotify_auth::token::{TokenFields, TokenReply};

fn session() -> OAuthSession {
    OAuthSession::new(SpotifyConfig::new(
        "cid".to_string(),
        "csecret".to_string(),
        "http://localhost:3000/callback".to_string(),
        "user-top-read".to_string(),
    ))
}

fn answer(access: &str, kind: Option<&str>, refresh: &str) -> TokenReply {
    TokenReply::Answered {
        status: 200,
        body: Some(TokenFields {
            access_token: Some(access.to_string()),
            token_type: kind.map(|s| s.to_string()),
            expires_in: Some(3600),
            refresh_token: Some(refresh.to_string()),
        }),
    }
}

#[test]
fn end_to_end_authorize_then_refresh() {
    let mut s = session();
    assert_eq!(
        s.authorization_url(),
        build_authorization_url("cid", "http://localhost:3000/callback", "user-top-read")
    );
    let mut l = RedirectListener::new();
    assert!(matches!(l.handle(ListenerEvent::Bound), ListenerAction::Accept));
    assert!(matches!(
        l.handle(ListenerEvent::RequestLine("GET /callback?code=xyz HTTP/1.1\r\n".to_string())),
        ListenerAction::Reply(_)
    ));
    let code = l.outcome().unwrap().unwrap();
    assert_eq!(code, "xyz");
    let req = s.exchange_request(&code);
    assert_eq!(req.form[1], ("code".to_string(), "xyz".to_string()));
    assert_eq!(req.client_id, "cid");
    assert_eq!(req.client_secret, "csecret");

    assert_eq!(s.complete_authorization(answer("AT1", Some("Bearer"), "RT1")), Ok("AT1".to_string()));
    assert_eq!(s.access_token(), Ok("AT1".to_string()));
    assert_eq!(s.refresh_token(), Some("RT1".to_string()));

    let req = s.refresh_request().unwrap();
    assert_eq!(
        req.form,
        vec![
            ("grant_type".to_string(), "refresh_token".to_string()),
            ("refresh_token".to_string(), "RT1".to_string())
        ]
    );
    assert_eq!(s.complete_refresh(answer("AT2", None, "")), Ok("AT2".to_string()));
    assert_eq!(s.refresh_token(), Some("RT1".to_string()));
    assert_eq!(s.access_token(), Ok("AT2".to_string()));
}

#[test]
fn no_token_before_authorization() {
    let mut s = session();
    assert_eq!(s.access_token(), Err(AuthError::NotAuthenticated));
    assert_eq!(s.ensure_valid_token(), None);
    assert_eq!(s.refresh_token(), None);
    assert_eq!(s.refresh_request().err(), Some(AuthError::NotAuthenticated));
    assert_eq!(s.complete_refresh(answer("AT", None, "R")), Err(AuthError::NotAuthenticated));
    assert_eq!(s.access_token(), Err(AuthError::NotAuthenticated));
}

#[test]
fn rejected_exchange_leaves_session_unauthenticated() {
    let mut s = session();
    let r = s.complete_authorization(TokenReply::Answered { status: 400, body: None });
    assert_eq!(r, Err(AuthError::TokenExchangeRejected { status: 400 }));
    assert_eq!(s.access_token(), Err(AuthError::NotAuthenticated));
}

#[test]
fn failed_refresh_keeps_token_set() {
    let mut s = session();
    s.complete_authorization(answer("AT1", Some("Bearer"), "RT1")).unwrap();
    let r = s.complete_refresh(TokenReply::Answered { status: 400, body: None });
    assert_eq!(r, Err(AuthError::TokenRefreshRejected { status: 400 }));
    assert_eq!(s.access_token(), Ok("AT1".to_string()));
    assert_eq!(s.refresh_token(), Some("RT1".to_string()));
    assert_eq!(s.complete_refresh(TokenReply::Unreachable), Err(AuthError::NetworkFailure));
    assert_eq!(s.ensure_valid_token(), Some("AT1".to_string()));
}

#[test]
fn rotated_refresh_token_replaces_prior() {
    let mut s = session();
    s.complete_authorization(answer("AT1", Some("Bearer"), "RT1")).unwrap();
    assert_eq!(s.complete_refresh(answer("AT2", Some("Bearer"), "RT2")), Ok("AT2".to_string()));
    assert_eq!(s.refresh_token(), Some("RT2".to_string()));
}
