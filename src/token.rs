//! The token endpoint: the requests that exchange an authorization code or a
//! refresh token, and what the endpoint's answer means.

use vstd::prelude::*;
use vstd::string::*;
use crate::callback::pairs_view;
use crate::error::AuthError;

verus! {

/// The provider's token endpoint.
pub const TOKEN_ENDPOINT: &'static str = "https://accounts.spotify.com/api/token";

/// A POST to the token endpoint: HTTP Basic authentication with the client
/// id and secret, and a form body of the pairs in `form`, in order.
pub struct TokenRequest {
    pub endpoint: String,
    pub client_id: String,
    pub client_secret: String,
    pub form: Vec<(String, String)>,
}

/// `r` posts to the token endpoint with these credentials and this form.
pub open spec fn is_token_request(
    r: TokenRequest,
    client_id: Seq<char>,
    client_secret: Seq<char>,
    form: Seq<(Seq<char>, Seq<char>)>,
) -> bool {
    &&& r.endpoint@ == TOKEN_ENDPOINT@
    &&& r.client_id@ == client_id
    &&& r.client_secret@ == client_secret
    &&& pairs_view(r.form@) == form
}

/// The form that exchanges `code`.
pub open spec fn exchange_form(redirect_uri: Seq<char>, code: Seq<char>) -> Seq<(Seq<char>, Seq<char>)> {
    seq![("grant_type"@, "authorization_code"@), ("code"@, code), ("redirect_uri"@, redirect_uri)]
}

/// The form that refreshes with `refresh_token`.
pub open spec fn refresh_form(refresh_token: Seq<char>) -> Seq<(Seq<char>, Seq<char>)> {
    seq![("grant_type"@, "refresh_token"@), ("refresh_token"@, refresh_token)]
}

/// The request that exchanges an authorization code for a token set:
/// `grant_type=authorization_code`, the code and the redirect URI.
pub fn exchange_request(client_id: &str, client_secret: &str, redirect_uri: &str, code: &str) -> (r: TokenRequest)
    ensures
        is_token_request(r, client_id@, client_secret@, exchange_form(redirect_uri@, code@)),
{
    let mut form: Vec<(String, String)> = Vec::new();
    form.push((String::from_str("grant_type"), String::from_str("authorization_code")));
    form.push((String::from_str("code"), String::from_str(code)));
    form.push((String::from_str("redirect_uri"), String::from_str(redirect_uri)));
    assert(pairs_view(form@) =~= seq![
        ("grant_type"@, "authorization_code"@),
        ("code"@, code@),
        ("redirect_uri"@, redirect_uri@),
    ]);
    TokenRequest {
        endpoint: String::from_str(TOKEN_ENDPOINT),
        client_id: String::from_str(client_id),
        client_secret: String::from_str(client_secret),
        form,
    }
}

/// The request that trades a refresh token for a new token set:
/// `grant_type=refresh_token` and the refresh token.
pub fn refresh_request(client_id: &str, client_secret: &str, refresh_token: &str) -> (r: TokenRequest)
    ensures
        is_token_request(r, client_id@, client_secret@, refresh_form(refresh_token@)),
{
    let mut form: Vec<(String, String)> = Vec::new();
    form.push((String::from_str("grant_type"), String::from_str("refresh_token")));
    form.push((String::from_str("refresh_token"), String::from_str(refresh_token)));
    assert(pairs_view(form@) =~= seq![
        ("grant_type"@, "refresh_token"@),
        ("refresh_token"@, refresh_token@),
    ]);
    TokenRequest {
        endpoint: String::from_str(TOKEN_ENDPOINT),
        client_id: String::from_str(client_id),
        client_secret: String::from_str(client_secret),
        form,
    }
}

/// A token set issued by the provider.
pub struct AuthResponse {
    /// The bearer token for resource calls; never empty.
    pub access_token: String,
    pub token_type: String,
    /// Seconds from issuance until the access token expires.
    pub expires_in: u64,
    /// The credential that obtains a new access token.
    pub refresh_token: String,
}

/// A token set, with its strings as character sequences.
pub struct TokenSet {
    pub access_token: Seq<char>,
    pub token_type: Seq<char>,
    pub expires_in: u64,
    pub refresh_token: Seq<char>,
}

impl View for AuthResponse {
    type V = TokenSet;

    open spec fn view(&self) -> TokenSet {
        TokenSet {
            access_token: self.access_token@,
            token_type: self.token_type@,
            expires_in: self.expires_in,
            refresh_token: self.refresh_token@,
        }
    }
}

/// The fields of the endpoint's JSON answer, each `None` when missing.
pub struct TokenFields {
    pub access_token: Option<String>,
    pub token_type: Option<String>,
    pub expires_in: Option<u64>,
    pub refresh_token: Option<String>,
}

/// The fields of an answer, with strings as character sequences.
pub struct FieldsModel {
    pub access_token: Option<Seq<char>>,
    pub token_type: Option<Seq<char>>,
    pub expires_in: Option<u64>,
    pub refresh_token: Option<Seq<char>>,
}

pub open spec fn opt_view(o: Option<String>) -> Option<Seq<char>> {
    match o {
        Some(s) => Some(s@),
        None => None,
    }
}

impl View for TokenFields {
    type V = FieldsModel;

    open spec fn view(&self) -> FieldsModel {
        FieldsModel {
            access_token: opt_view(self.access_token),
            token_type: opt_view(self.token_type),
            expires_in: self.expires_in,
            refresh_token: opt_view(self.refresh_token),
        }
    }
}

/// How a request to the token endpoint ended.
pub enum TokenReply {
    /// The request could not be sent, or its answer not read.
    Unreachable,
    /// The endpoint answered with this status; `body` holds the fields of
    /// the answer when it was a JSON object.
    Answered { status: u16, body: Option<TokenFields> },
}

/// How a request ended, with the body's model.
pub enum ReplyModel {
    Unreachable,
    Answered { status: u16, body: Option<FieldsModel> },
}

impl View for TokenReply {
    type V = ReplyModel;

    open spec fn view(&self) -> ReplyModel {
        match self {
            TokenReply::Unreachable => ReplyModel::Unreachable,
            TokenReply::Answered { status, body } => ReplyModel::Answered {
                status: *status,
                body: match body {
                    Some(f) => Some(f@),
                    None => None,
                },
            },
        }
    }
}

/// A 2xx status.
pub open spec fn is_success(status: u16) -> bool {
    200 <= status <= 299
}

/// The text of an optional field, empty when it is missing.
pub open spec fn text_or_empty(o: Option<Seq<char>>) -> Seq<char> {
    match o {
        Some(s) => s,
        None => Seq::empty(),
    }
}

/// The token set that complete fields describe: a non-empty access token
/// and an expiry are required; a missing token type or refresh token is
/// empty.
pub open spec fn token_set_of(f: FieldsModel) -> Option<TokenSet> {
    match (f.access_token, f.expires_in) {
        (Some(a), Some(e)) => if a.len() > 0 {
            Some(
                TokenSet {
                    access_token: a,
                    token_type: text_or_empty(f.token_type),
                    expires_in: e,
                    refresh_token: text_or_empty(f.refresh_token),
                },
            )
        } else {
            None
        },
        _ => None,
    }
}

/// What an answer yields: a token set on a 2xx status with complete
/// fields; `rejected` on any other status; `MalformedResponse` when the
/// fields are incomplete; `NetworkFailure` when there was no answer.
pub open spec fn reply_outcome(reply: ReplyModel, rejected: AuthError) -> Result<TokenSet, AuthError> {
    match reply {
        ReplyModel::Unreachable => Err(AuthError::NetworkFailure),
        ReplyModel::Answered { status, body } => if !is_success(status) {
            Err(rejected)
        } else {
            match body {
                None => Err(AuthError::MalformedResponse),
                Some(f) => match token_set_of(f) {
                    Some(t) => Ok(t),
                    None => Err(AuthError::MalformedResponse),
                },
            }
        },
    }
}

/// What the answer to an authorization-code exchange yields.
pub open spec fn exchange_outcome(reply: ReplyModel) -> Result<TokenSet, AuthError> {
    let status = match reply {
        ReplyModel::Answered { status, .. } => status,
        ReplyModel::Unreachable => 0,
    };
    reply_outcome(reply, AuthError::TokenExchangeRejected { status })
}

/// The refresh token kept after a refresh: the new one, unless the answer
/// left it missing or empty, in which case the prior one.
pub open spec fn kept_refresh_token(prior: Seq<char>, issued: Seq<char>) -> Seq<char> {
    if issued.len() == 0 {
        prior
    } else {
        issued
    }
}

/// What the answer to a refresh yields, given the refresh token it used.
pub open spec fn refresh_outcome(prior: Seq<char>, reply: ReplyModel) -> Result<TokenSet, AuthError> {
    let status = match reply {
        ReplyModel::Answered { status, .. } => status,
        ReplyModel::Unreachable => 0,
    };
    match reply_outcome(reply, AuthError::TokenRefreshRejected { status }) {
        Ok(t) => Ok(TokenSet { refresh_token: kept_refresh_token(prior, t.refresh_token), ..t }),
        Err(e) => Err(e),
    }
}

/// The model of a result holding a token set.
pub open spec fn result_view(r: Result<AuthResponse, AuthError>) -> Result<TokenSet, AuthError> {
    match r {
        Ok(t) => Ok(t@),
        Err(e) => Err(e),
    }
}

fn text_or_empty_exec(o: Option<String>) -> (r: String)
    ensures
        r@ == text_or_empty(opt_view(o)),
{
    match o {
        Some(s) => s,
        None => String::new(),
    }
}

fn token_set_from(f: TokenFields) -> (r: Option<AuthResponse>)
    ensures
        match r {
            Some(t) => token_set_of(f@) == Some(t@),
            None => token_set_of(f@).is_none(),
        },
{
    let TokenFields { access_token, token_type, expires_in, refresh_token } = f;
    match (access_token, expires_in) {
        (Some(a), Some(e)) => {
            if a.as_str().is_empty() {
                None
            } else {
                Some(
                    AuthResponse {
                        access_token: a,
                        token_type: text_or_empty_exec(token_type),
                        expires_in: e,
                        refresh_token: text_or_empty_exec(refresh_token),
                    },
                )
            }
        },
        _ => None,
    }
}

fn decode_reply(reply: TokenReply, rejected: AuthError) -> (r: Result<AuthResponse, AuthError>)
    ensures
        result_view(r) == reply_outcome(reply@, rejected),
{
    match reply {
        TokenReply::Unreachable => Err(AuthError::NetworkFailure),
        TokenReply::Answered { status, body } => {
            if status < 200 || status > 299 {
                Err(rejected)
            } else {
                match body {
                    None => Err(AuthError::MalformedResponse),
                    Some(f) => match token_set_from(f) {
                        Some(t) => Ok(t),
                        None => Err(AuthError::MalformedResponse),
                    },
                }
            }
        },
    }
}

fn status_of(reply: &TokenReply) -> (r: u16)
    ensures
        r == match reply@ {
            ReplyModel::Answered { status, .. } => status,
            ReplyModel::Unreachable => 0,
        },
{
    match reply {
        TokenReply::Answered { status, .. } => *status,
        TokenReply::Unreachable => 0,
    }
}

/// The token set that the answer to an authorization-code exchange carries,
/// or why there is none. A rejection is final: the code is spent.
pub fn interpret_exchange(reply: TokenReply) -> (r: Result<AuthResponse, AuthError>)
    ensures
        result_view(r) == exchange_outcome(reply@),
{
    let status = status_of(&reply);
    decode_reply(reply, AuthError::TokenExchangeRejected { status })
}

/// The token set that the answer to a refresh carries, or why there is
/// none; an answer without a new refresh token keeps `prior_refresh_token`.
pub fn interpret_refresh(prior_refresh_token: &str, reply: TokenReply) -> (r: Result<AuthResponse, AuthError>)
    ensures
        result_view(r) == refresh_outcome(prior_refresh_token@, reply@),
{
    let status = status_of(&reply);
    match decode_reply(reply, AuthError::TokenRefreshRejected { status }) {
        Ok(t) => {
            let AuthResponse { access_token, token_type, expires_in, refresh_token } = t;
            let kept = if refresh_token.as_str().is_empty() {
                String::from_str(prior_refresh_token)
            } else {
                refresh_token
            };
            Ok(AuthResponse { access_token, token_type, expires_in, refresh_token: kept })
        },
        Err(e) => Err(e),
    }
}

/// A refresh that succeeds never leaves the caller without a refresh token
/// when it had one.
pub proof fn lemma_refresh_keeps_refresh_token(prior: Seq<char>, reply: ReplyModel)
    requires
        prior.len() > 0,
    ensures
        refresh_outcome(prior, reply) is Ok ==> refresh_outcome(prior, reply)->Ok_0.refresh_token.len() > 0,
{
}

} // verus!
