use spotify_auth::error::AuthError;
use spotify_auth::token::{
    exchange_request, interpret_exchange, interpret_refresh, refresh_request, TokenFields, TokenReply,
    TOKEN_ENDPOINT,
};

fn fields(access: Option<&str>, kind: Option<&str>, expires: Option<u64>, refresh: Option<&str>) -> TokenFields {
    TokenFields {
        access_token: access.map(|s| s.to_string()),
        token_type: kind.map(|s| s.to_string()),
        expires_in: expires,
        refresh_token: refresh.map(|s| s.to_string()),
    }
}

fn ok(status: u16, f: TokenFields) -> TokenReply {
    TokenReply::Answered { status, body: Some(f) }
}

fn pairs(v: &[(&str, &str)]) -> Vec<(String, String)> {
    v.iter().map(|(k, x)| (k.to_string(), x.to_string())).collect()
}

#[test]
fn exchange_request_form() {
    let r = exchange_request("id", "secret", "http://localhost:3000/callback", "xyz");
    assert_eq!(r.endpoint, TOKEN_ENDPOINT);
    assert_eq!(r.endpoint, "https://accounts.spotify.com/api/token");
    assert_eq!(r.client_id, "id");
    assert_eq!(r.client_secret, "secret");
    assert_eq!(
        r.form,
        pairs(&[("grant_type", "authorization_code"), ("code", "xyz"), ("redirect_uri", "http://localhost:3000/callback")])
    );
}

#[test]
fn refresh_request_form() {
    let r = refresh_request("id", "secret", "R1");
    assert_eq!(r.endpoint, TOKEN_ENDPOINT);
    assert_eq!(r.client_id, "id");
    assert_eq!(r.client_secret, "secret");
    assert_eq!(r.form, pairs(&[("grant_type", "refresh_token"), ("refresh_token", "R1")]));
}

#[test]
fn exchange_success_gives_token_set() {
    let t = interpret_exchange(ok(200, fields(Some("AT1"), Some("Bearer"), Some(3600), Some("RT1")))).unwrap();
    assert_eq!(t.access_token, "AT1");
    assert_eq!(t.token_type, "Bearer");
    assert_eq!(t.expires_in, 3600);
    assert_eq!(t.refresh_token, "RT1");
}

#[test]
fn exchange_any_2xx_is_success() {
    let t = interpret_exchange(ok(299, fields(Some("A"), None, Some(0), None))).unwrap();
    assert_eq!(t.access_token, "A");
    assert_eq!(t.token_type, "");
    assert_eq!(t.expires_in, 0);
    assert_eq!(t.refresh_token, "");
}

#[test]
fn exchange_400_is_rejected() {
    let r = interpret_exchange(TokenReply::Answered { status: 400, body: None });
    assert_eq!(r.err(), Some(AuthError::TokenExchangeRejected { status: 400 }));
    let r = interpret_exchange(ok(400, fields(Some("AT1"), Some("Bearer"), Some(3600), Some("RT1"))));
    assert_eq!(r.err(), Some(AuthError::TokenExchangeRejected { status: 400 }));
}

#[test]
fn exchange_other_statuses_are_rejected() {
    for status in [199u16, 300, 401, 500] {
        let r = interpret_exchange(ok(status, fields(Some("A"), None, Some(1), None)));
        assert_eq!(r.err(), Some(AuthError::TokenExchangeRejected { status }));
    }
}

#[test]
fn exchange_network_failure() {
    assert_eq!(interpret_exchange(TokenReply::Unreachable).err(), Some(AuthError::NetworkFailure));
}

#[test]
fn exchange_malformed_bodies() {
    let cases = [
        TokenReply::Answered { status: 200, body: None },
        ok(200, fields(None, Some("Bearer"), Some(3600), Some("R"))),
        ok(200, fields(Some(""), Some("Bearer"), Some(3600), Some("R"))),
        ok(200, fields(Some("A"), Some("Bearer"), None, Some("R"))),
    ];
    for reply in cases {
        assert_eq!(interpret_exchange(reply).err(), Some(AuthError::MalformedResponse));
    }
}

#[test]
fn refresh_keeps_prior_token_when_empty() {
    let t = interpret_refresh("R1", ok(200, fields(Some("AT2"), Some("Bearer"), Some(3600), Some("")))).unwrap();
    assert_eq!(t.refresh_token, "R1");
    assert_eq!(t.access_token, "AT2");
}

#[test]
fn refresh_keeps_prior_token_when_missing() {
    let t = interpret_refresh("R1", ok(200, fields(Some("AT2"), None, Some(3600), None))).unwrap();
    assert_eq!(t.refresh_token, "R1");
}

#[test]
fn refresh_takes_rotated_token() {
    let t = interpret_refresh("R1", ok(200, fields(Some("AT2"), Some("Bearer"), Some(3600), Some("R2")))).unwrap();
    assert_eq!(t.refresh_token, "R2");
}

#[test]
fn refresh_rejection_is_distinct() {
    let r = interpret_refresh("R1", TokenReply::Answered { status: 400, body: None });
    assert_eq!(r.err(), Some(AuthError::TokenRefreshRejected { status: 400 }));
    assert_eq!(interpret_refresh("R1", TokenReply::Unreachable).err(), Some(AuthError::NetworkFailure));
    let r = interpret_refresh("R1", ok(200, fields(None, None, Some(1), Some("R2"))));
    assert_eq!(r.err(), Some(AuthError::MalformedResponse));
}
