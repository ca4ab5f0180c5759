//! Client side of the OAuth2 / OpenID Connect Authorization Code flow with
//! PKCE for an interactive, single-session client.
//!
//! The crate holds the protocol engine ([`openid::OpenIdClient`]) and the
//! authentication state model ([`context::OAuth2Context`]) that downstream
//! consumers observe.  Network round trips (provider discovery, the token
//! endpoint) and browser navigation are performed by the surrounding
//! application; the engine consumes their outcomes as plain values and makes
//! every protocol decision here, under contract.

pub mod context;
pub mod openid;
pub mod urlenc;
