use spotify_auth::authorize::{build_authorization_url, SpotifyClient, SpotifyConfig, AUTHORIZE_ENDPOINT};

fn config() -> SpotifyConfig {
    SpotifyConfig::new(
        "abc123".to_string(),
        "s3cret".to_string(),
        "http://localhost:3000/callback".to_string(),
        "user-top-read".to_string(),
    )
}

fn query_value(url: &str, key: &str) -> Option<String> {
    let parsed = url::Url::parse(url).unwrap();
    let found = parsed.query_pairs().find(|(k, _)| k == key).map(|(_, v)| v.into_owned());
    found
}

#[test]
fn url_has_endpoint_and_parameters() {
    let url = build_authorization_url("abc123", "http://localhost:3000/callback", "user-top-read");
    assert_eq!(
        url,
        "https://accounts.spotify.com/authorize?client_id=abc123&response_type=code&redirect_uri=http%3A%2F%2Flocalhost%3A3000%2Fcallback&scope=user-top-read"
    );
    assert!(url.starts_with(AUTHORIZE_ENDPOINT));
}

#[test]
fn url_encodes_spaces_and_reserved_characters() {
    let url = build_authorization_url("id", "http://127.0.0.1:8888/cb?x=1&y=2", "user-read-private user-top-read");
    assert_eq!(
        url,
        "https://accounts.spotify.com/authorize?client_id=id&response_type=code&redirect_uri=http%3A%2F%2F127.0.0.1%3A8888%2Fcb%3Fx%3D1%26y%3D2&scope=user-read-private%20user-top-read"
    );
}

#[test]
fn url_encodes_client_id_defensively() {
    let url = build_authorization_url("a b+c", "r", "s");
    assert_eq!(
        url,
        "https://accounts.spotify.com/authorize?client_id=a%20b%2Bc&response_type=code&redirect_uri=r&scope=s"
    );
}

#[test]
fn url_encodes_non_ascii_as_utf8_bytes() {
    let url = build_authorization_url("id", "é", "~._-");
    assert!(url.ends_with("&redirect_uri=%C3%A9&scope=~._-"));
}

#[test]
fn url_round_trips_through_query_parsing() {
    let cases = [
        ("abc123", "http://localhost:3000/callback", "user-top-read"),
        ("id", "http://127.0.0.1:8888/cb?x=1&y=2#frag", "user-read-private user-top-read"),
        ("a+b", "http://localhost/é%20", "scope=with&odd+chars"),
        ("", "", ""),
    ];
    for (id, uri, scope) in cases {
        let url = build_authorization_url(id, uri, scope);
        assert_eq!(query_value(&url, "client_id").as_deref(), Some(id));
        assert_eq!(query_value(&url, "response_type").as_deref(), Some("code"));
        assert_eq!(query_value(&url, "redirect_uri").as_deref(), Some(uri));
        assert_eq!(query_value(&url, "scope").as_deref(), Some(scope));
    }
}

#[test]
fn client_auth_url_uses_config() {
    let cfg = config();
    let client = SpotifyClient::new(&cfg);
    assert_eq!(
        client.get_auth_url(),
        build_authorization_url("abc123", "http://localhost:3000/callback", "user-top-read")
    );
    assert_eq!(client.config.client_secret, "s3cret");
}
