//! The session that runs the flow and owns its token set.

use vstd::prelude::*;
use vstd::string::*;
use crate::authorize::SpotifyConfig;
use crate::error::AuthError;
use crate::token::{
    exchange_form, exchange_outcome, exchange_request, interpret_exchange, interpret_refresh,
    is_token_request, refresh_form, refresh_outcome, refresh_request, AuthResponse, TokenReply,
    TokenRequest, TokenSet,
};

verus! {

/// An authorization session: the configuration, and at most one live token
/// set, which only a successful exchange or refresh replaces, whole.
pub struct OAuthSession {
    config: SpotifyConfig,
    tokens: Option<AuthResponse>,
}

impl OAuthSession {
    /// A live token set always has an access token.
    #[verifier::type_invariant]
    closed spec fn inv(&self) -> bool {
        match self.tokens {
            Some(t) => t.access_token@.len() > 0,
            None => true,
        }
    }

    /// The configuration the session was made with.
    pub closed spec fn config_spec(&self) -> SpotifyConfig {
        self.config
    }

    /// The live token set, if any.
    pub closed spec fn tokens_spec(&self) -> Option<TokenSet> {
        match self.tokens {
            Some(t) => Some(t@),
            None => None,
        }
    }

    /// A session that holds no token yet.
    pub fn new(config: SpotifyConfig) -> (r: Self)
        ensures
            r.config_spec() == config,
            r.tokens_spec().is_none(),
    {
        OAuthSession { config, tokens: None }
    }

    /// The configuration the session was made with.
    pub fn config(&self) -> (r: &SpotifyConfig)
        ensures
            *r == self.config_spec(),
    {
        &self.config
    }

    /// The URL that sends the user to the consent page.
    pub fn authorization_url(&self) -> (r: String)
        ensures
            r@ == self.config_spec().auth_url_spec(),
    {
        crate::authorize::build_authorization_url(
            self.config.client_id.as_str(),
            self.config.redirect_uri.as_str(),
            self.config.scope.as_str(),
        )
    }

    /// The request that exchanges `code`, received on the callback.
    pub fn exchange_request(&self, code: &str) -> (r: TokenRequest)
        ensures
            is_token_request(
                r,
                self.config_spec().client_id@,
                self.config_spec().client_secret@,
                exchange_form(self.config_spec().redirect_uri@, code@),
            ),
    {
        exchange_request(
            self.config.client_id.as_str(),
            self.config.client_secret.as_str(),
            self.config.redirect_uri.as_str(),
            code,
        )
    }

    /// Ends an authorization with the exchange's answer: on success the
    /// issued token set becomes the live one and its access token is
    /// returned; on failure the session is left as it was.
    pub fn complete_authorization(&mut self, reply: TokenReply) -> (r: Result<String, AuthError>)
        ensures
            final(self).config_spec() == old(self).config_spec(),
            match exchange_outcome(reply@) {
                Ok(t) => final(self).tokens_spec() == Some(t) && r is Ok && r->Ok_0@ == t.access_token,
                Err(e) => final(self).tokens_spec() == old(self).tokens_spec() && r == Err::<String, AuthError>(e),
            },
    {
        match interpret_exchange(reply) {
            Ok(t) => {
                let access = t.access_token.clone();
                self.tokens = Some(t);
                Ok(access)
            },
            Err(e) => Err(e),
        }
    }

    /// The live access token, or `NotAuthenticated` when there is none.
    /// A token handed out is never empty.
    pub fn access_token(&self) -> (r: Result<String, AuthError>)
        ensures
            match self.tokens_spec() {
                Some(t) => r is Ok && r->Ok_0@ == t.access_token,
                None => r == Err::<String, AuthError>(AuthError::NotAuthenticated),
            },
            r is Ok ==> r->Ok_0@.len() > 0,
    {
        proof {
            use_type_invariant(self);
        }
        match &self.tokens {
            Some(t) => Ok(t.access_token.clone()),
            None => Err(AuthError::NotAuthenticated),
        }
    }

    /// The live access token when there is one; `None` tells the caller to
    /// run the authorization first.
    pub fn ensure_valid_token(&self) -> (r: Option<String>)
        ensures
            match self.tokens_spec() {
                Some(t) => r is Some && r->Some_0@ == t.access_token,
                None => r.is_none(),
            },
            r is Some ==> r->Some_0@.len() > 0,
    {
        proof {
            use_type_invariant(self);
        }
        match &self.tokens {
            Some(t) => Some(t.access_token.clone()),
            None => None,
        }
    }

    /// The live refresh token, if any.
    pub fn refresh_token(&self) -> (r: Option<String>)
        ensures
            match self.tokens_spec() {
                Some(t) => r is Some && r->Some_0@ == t.refresh_token,
                None => r.is_none(),
            },
    {
        match &self.tokens {
            Some(t) => Some(t.refresh_token.clone()),
            None => None,
        }
    }

    /// The request that refreshes the live token set with its refresh token.
    pub fn refresh_request(&self) -> (r: Result<TokenRequest, AuthError>)
        ensures
            match self.tokens_spec() {
                Some(t) => r is Ok && is_token_request(
                    r->Ok_0,
                    self.config_spec().client_id@,
                    self.config_spec().client_secret@,
                    refresh_form(t.refresh_token),
                ),
                None => r is Err && r->Err_0 == AuthError::NotAuthenticated,
            },
    {
        match &self.tokens {
            Some(t) => Ok(
                refresh_request(
                    self.config.client_id.as_str(),
                    self.config.client_secret.as_str(),
                    t.refresh_token.as_str(),
                ),
            ),
            None => Err(AuthError::NotAuthenticated),
        }
    }

    /// Ends a refresh with the endpoint's answer: on success the new token
    /// set, keeping the prior refresh token where the answer has none,
    /// replaces the live one whole and its access token is returned; on
    /// failure the session is left as it was.
    pub fn complete_refresh(&mut self, reply: TokenReply) -> (r: Result<String, AuthError>)
        ensures
            final(self).config_spec() == old(self).config_spec(),
            match old(self).tokens_spec() {
                None => final(self).tokens_spec().is_none() && r == Err::<String, AuthError>(
                    AuthError::NotAuthenticated,
                ),
                Some(prior) => match refresh_outcome(prior.refresh_token, reply@) {
                    Ok(t) => final(self).tokens_spec() == Some(t) && r is Ok && r->Ok_0@
                        == t.access_token,
                    Err(e) => final(self).tokens_spec() == old(self).tokens_spec() && r == Err::<
                        String,
                        AuthError,
                    >(e),
                },
            },
    {
        let outcome = match &self.tokens {
            None => Err(AuthError::NotAuthenticated),
            Some(prior) => interpret_refresh(prior.refresh_token.as_str(), reply),
        };
        match outcome {
            Ok(t) => {
                let access = t.access_token.clone();
                self.tokens = Some(t);
                Ok(access)
            },
            Err(e) => Err(e),
        }
    }
}

} // verus!
