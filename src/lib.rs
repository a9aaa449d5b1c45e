//! The OAuth 2.0 authorization-code flow against Spotify's accounts service,
//! as verified decisions: the authorization URL, the callback listener, the
//! token exchange and refresh, and the session that owns the token set.
//! The program around the library performs the network and browser work.

pub mod error;
pub mod percent;
pub mod query;
pub mod authorize;
pub mod callback;
pub mod listener;
pub mod token;
pub mod session;
