//! The client configuration and the authorization URL that starts the flow.

use vstd::prelude::*;
use vstd::string::*;
use vstd::utf8::*;
use crate::percent::{is_encoded_char, lemma_decode_encode, lemma_encoded_chars, percent_encode, url_encode};
use crate::query::{key_of, lemma_after_first, lemma_split_first, lemma_split_without, lookup, query_of, query_param, split_on, value_of};

verus! {

/// The provider's authorization endpoint.
pub const AUTHORIZE_ENDPOINT: &'static str = "https://accounts.spotify.com/authorize";

/// A query parameter `key=value`.
pub open spec fn param(key: Seq<char>, value: Seq<char>) -> Seq<char> {
    key + seq!['='] + value
}

/// The query of the authorization URL for the UTF-8 forms of a client id, a
/// redirect URI and a scope.
pub open spec fn authorization_query(client_id: Seq<u8>, redirect_uri: Seq<u8>, scope: Seq<u8>) -> Seq<char> {
    param("client_id"@, percent_encode(client_id)) + seq!['&'] + param("response_type"@, "code"@)
        + seq!['&'] + param("redirect_uri"@, percent_encode(redirect_uri)) + seq!['&'] + param(
        "scope"@,
        percent_encode(scope),
    )
}

/// The authorization URL: the endpoint, `?`, and the authorization query.
pub open spec fn authorization_url(client_id: Seq<u8>, redirect_uri: Seq<u8>, scope: Seq<u8>) -> Seq<char> {
    AUTHORIZE_ENDPOINT@ + seq!['?'] + authorization_query(client_id, redirect_uri, scope)
}

/// The application's registration with the provider and what it asks for.
pub struct SpotifyConfig {
    pub client_id: String,
    pub client_secret: String,
    /// The loopback URI that the provider redirects the browser to.
    pub redirect_uri: String,
    /// The requested permissions, separated by spaces.
    pub scope: String,
}

impl SpotifyConfig {
    pub fn new(client_id: String, client_secret: String, redirect_uri: String, scope: String) -> (r: Self)
        ensures
            r.client_id == client_id,
            r.client_secret == client_secret,
            r.redirect_uri == redirect_uri,
            r.scope == scope,
    {
        SpotifyConfig { client_id, client_secret, redirect_uri, scope }
    }

    /// The authorization URL for this configuration.
    pub open spec fn auth_url_spec(&self) -> Seq<char> {
        authorization_url(
            encode_utf8(self.client_id@),
            encode_utf8(self.redirect_uri@),
            encode_utf8(self.scope@),
        )
    }
}

/// A client of the provider's accounts service, borrowing its configuration.
pub struct SpotifyClient<'a> {
    pub config: &'a SpotifyConfig,
}

impl<'a> SpotifyClient<'a> {
    pub fn new(config: &'a SpotifyConfig) -> (r: Self)
        ensures
            r.config == config,
    {
        SpotifyClient { config }
    }

    /// The URL that sends the user to the consent page.
    pub fn get_auth_url(&self) -> (r: String)
        ensures
            r@ == self.config.auth_url_spec(),
    {
        build_authorization_url(
            self.config.client_id.as_str(),
            self.config.redirect_uri.as_str(),
            self.config.scope.as_str(),
        )
    }
}

/// Builds the URL that sends the user to the provider's consent page: the
/// client id, `response_type=code`, the redirect URI and the scope, each
/// value percent-encoded.
pub fn build_authorization_url(client_id: &str, redirect_uri: &str, scope: &str) -> (r: String)
    ensures
        r@ == authorization_url(encode_utf8(client_id@), encode_utf8(redirect_uri@), encode_utf8(scope@)),
{
    let mut url = String::from_str(AUTHORIZE_ENDPOINT);
    url.append("?client_id=");
    let enc_id = url_encode(client_id);
    url.append(enc_id.as_str());
    url.append("&response_type=code&redirect_uri=");
    let enc_uri = url_encode(redirect_uri);
    url.append(enc_uri.as_str());
    url.append("&scope=");
    let enc_scope = url_encode(scope);
    url.append(enc_scope.as_str());
    proof {
        reveal_strlit("?client_id=");
        reveal_strlit("client_id");
        reveal_strlit("&response_type=code&redirect_uri=");
        reveal_strlit("response_type");
        reveal_strlit("code");
        reveal_strlit("redirect_uri");
        reveal_strlit("&scope=");
        reveal_strlit("scope");
        assert(url@ =~= authorization_url(
            client_id.spec_bytes(),
            redirect_uri.spec_bytes(),
            scope.spec_bytes(),
        ));
    }
    url
}

proof fn lemma_concat_lacks(a: Seq<char>, b: Seq<char>, c: char)
    requires
        !a.contains(c),
        !b.contains(c),
    ensures
        !(a + b).contains(c),
{
    if (a + b).contains(c) {
        let i = choose|i: int| 0 <= i < (a + b).len() && (a + b)[i] == c;
        if i < a.len() {
            assert(a[i] == c);
        } else {
            assert(b[i - a.len()] == c);
        }
    }
}

proof fn lemma_encoded_lacks(bytes: Seq<u8>, c: char)
    requires
        !is_encoded_char(c),
    ensures
        !percent_encode(bytes).contains(c),
{
    lemma_encoded_chars(bytes);
}

proof fn lemma_param_lacks(key: Seq<char>, bytes: Seq<u8>, c: char)
    requires
        !key.contains(c),
        c != '=',
        !is_encoded_char(c),
    ensures
        !param(key, percent_encode(bytes)).contains(c),
{
    lemma_encoded_lacks(bytes, c);
    lemma_concat_lacks(key, seq!['='], c);
    lemma_concat_lacks(key + seq!['='], percent_encode(bytes), c);
}

proof fn lemma_param_parts(key: Seq<char>, value: Seq<char>)
    requires
        !key.contains('='),
    ensures
        key_of(param(key, value)) == key,
        value_of(param(key, value)) == value,
{
    lemma_split_first(key, '=', value);
    lemma_after_first(key, '=', value);
}

/// Parsing the query of the authorization URL gives back each value that
/// went into it: the decoded `client_id`, `redirect_uri` and `scope`
/// parameters are the UTF-8 forms of the client id, redirect URI and scope,
/// which decode to those strings.
pub proof fn lemma_authorization_url_round_trip(client_id: Seq<char>, redirect_uri: Seq<char>, scope: Seq<char>)
    ensures
        query_param(
            authorization_url(encode_utf8(client_id), encode_utf8(redirect_uri), encode_utf8(scope)),
            "client_id"@,
        ) == Some(encode_utf8(client_id)),
        query_param(
            authorization_url(encode_utf8(client_id), encode_utf8(redirect_uri), encode_utf8(scope)),
            "redirect_uri"@,
        ) == Some(encode_utf8(redirect_uri)),
        query_param(
            authorization_url(encode_utf8(client_id), encode_utf8(redirect_uri), encode_utf8(scope)),
            "scope"@,
        ) == Some(encode_utf8(scope)),
        decode_utf8(encode_utf8(client_id)) == client_id,
        decode_utf8(encode_utf8(redirect_uri)) == redirect_uri,
        decode_utf8(encode_utf8(scope)) == scope,
{
    broadcast use encode_utf8_decode_utf8, encode_utf8_valid_utf8;

    let c = encode_utf8(client_id);
    let r = encode_utf8(redirect_uri);
    let s = encode_utf8(scope);
    let url = authorization_url(c, r, s);
    reveal_strlit("https://accounts.spotify.com/authorize");
    reveal_strlit("client_id");
    reveal_strlit("response_type");
    reveal_strlit("code");
    reveal_strlit("redirect_uri");
    reveal_strlit("scope");
    let e = AUTHORIZE_ENDPOINT@;
    let k1 = "client_id"@;
    let k2 = "response_type"@;
    let k3 = "redirect_uri"@;
    let k4 = "scope"@;
    let v2 = "code"@;
    assert(forall|i: int| 0 <= i < e.len() ==> e[i] != '?');
    assert(forall|i: int| 0 <= i < k1.len() ==> k1[i] != '=' && k1[i] != '&' && k1[i] != '#');
    assert(forall|i: int| 0 <= i < k2.len() ==> k2[i] != '=' && k2[i] != '&' && k2[i] != '#');
    assert(forall|i: int| 0 <= i < k3.len() ==> k3[i] != '=' && k3[i] != '&' && k3[i] != '#');
    assert(forall|i: int| 0 <= i < k4.len() ==> k4[i] != '=' && k4[i] != '&' && k4[i] != '#');
    assert(forall|i: int| 0 <= i < v2.len() ==> v2[i] != '=' && v2[i] != '&' && v2[i] != '#');
    let p1 = param(k1, percent_encode(c));
    let p2 = param(k2, v2);
    let p3 = param(k3, percent_encode(r));
    let p4 = param(k4, percent_encode(s));
    let q = authorization_query(c, r, s);

    // The query is the part after the endpoint's `?`, with no fragment.
    assert(url =~= e + seq!['?'] + q);
    lemma_after_first(e, '?', q);
    lemma_param_lacks(k1, c, '#');
    lemma_param_lacks(k3, r, '#');
    lemma_param_lacks(k4, s, '#');
    lemma_concat_lacks(k2, seq!['='], '#');
    lemma_concat_lacks(k2 + seq!['='], v2, '#');
    lemma_concat_lacks(p1, seq!['&'], '#');
    lemma_concat_lacks(p1 + seq!['&'], p2, '#');
    lemma_concat_lacks(p1 + seq!['&'] + p2, seq!['&'], '#');
    lemma_concat_lacks(p1 + seq!['&'] + p2 + seq!['&'], p3, '#');
    lemma_concat_lacks(p1 + seq!['&'] + p2 + seq!['&'] + p3, seq!['&'], '#');
    lemma_concat_lacks(p1 + seq!['&'] + p2 + seq!['&'] + p3 + seq!['&'], p4, '#');
    assert(q == p1 + seq!['&'] + p2 + seq!['&'] + p3 + seq!['&'] + p4);
    lemma_split_without(q, '#');
    assert(query_of(url) == q);

    // The query splits at `&` into the four parameters.
    lemma_param_lacks(k1, c, '&');
    lemma_param_lacks(k3, r, '&');
    lemma_param_lacks(k4, s, '&');
    lemma_concat_lacks(k2, seq!['='], '&');
    lemma_concat_lacks(k2 + seq!['='], v2, '&');
    let t3 = p3 + seq!['&'] + p4;
    let t2 = p2 + seq!['&'] + t3;
    assert(q =~= p1 + seq!['&'] + t2);
    lemma_split_without(p4, '&');
    lemma_split_first(p3, '&', p4);
    lemma_split_first(p2, '&', t3);
    lemma_split_first(p1, '&', t2);
    let ps = split_on(q, '&');
    assert(ps =~= seq![p1, p2, p3, p4]);

    // Each parameter's key and value.
    lemma_param_parts(k1, percent_encode(c));
    lemma_param_parts(k2, v2);
    lemma_param_parts(k3, percent_encode(r));
    lemma_param_parts(k4, percent_encode(s));
    lemma_decode_encode(c);
    lemma_decode_encode(r);
    lemma_decode_encode(s);
    assert(ps.drop_first() =~= seq![p2, p3, p4]);
    assert(ps.drop_first().drop_first() =~= seq![p3, p4]);
    assert(ps.drop_first().drop_first().drop_first() =~= seq![p4]);
    assert(k1 != k3 && k2 != k3 && k1 != k4 && k2 != k4 && k3 != k4 && k1 != k2) by {
        assert(k1.len() != k3.len() && k2.len() != k3.len() && k1.len() != k4.len());
        assert(k2.len() != k4.len() && k3.len() != k4.len() && k1.len() != k2.len());
    }
    let ps1 = ps.drop_first();
    let ps2 = ps1.drop_first();
    let ps3 = ps2.drop_first();
    assert(lookup(ps, k3) == lookup(ps1, k3));
    assert(lookup(ps1, k3) == lookup(ps2, k3));
    assert(lookup(ps, k4) == lookup(ps1, k4));
    assert(lookup(ps1, k4) == lookup(ps2, k4));
    assert(lookup(ps2, k4) == lookup(ps3, k4));
}

} // verus!
