//! The authentication state model: the single source of truth for the
//! authentication state that the rest of the application may observe.

use vstd::prelude::*;

verus! {

/// The verified identity-token payload.  The engine fills it from a verified
/// identity token; nothing else may construct one on the authenticated path.
#[derive(Debug, PartialEq)]
pub struct Claims {
    /// Subject: the identifier of the authenticated end user.
    pub subject: String,
    /// The issuer the token was verified against.
    pub issuer: String,
    /// The nonce claim of the token, bound to one login attempt.
    pub nonce: Option<String>,
}

/// Mathematical model of [`Claims`]: each field as a sequence of characters.
pub ghost struct ClaimsView {
    pub subject: Seq<char>,
    pub issuer: Seq<char>,
    pub nonce: Option<Seq<char>>,
}

impl View for Claims {
    type V = ClaimsView;

    open spec fn view(&self) -> ClaimsView {
        ClaimsView {
            subject: self.subject@,
            issuer: self.issuer@,
            nonce: match self.nonce {
                Some(n) => Some(n@),
                None => None,
            },
        }
    }
}

impl Clone for Claims {
    fn clone(&self) -> (res: Self)
        ensures
            res@ == self@,
    {
        Claims {
            subject: self.subject.clone(),
            issuer: self.issuer.clone(),
            nonce: match &self.nonce {
                Some(n) => Some(n.clone()),
                None => None,
            },
        }
    }
}

/// The reason why the context is un-authenticated.
#[derive(Clone, Copy, Debug, PartialEq, Eq)]
pub enum Reason {
    /// No login has happened in this session yet.
    NewSession,
    /// A previously authenticated session reached its expiry instant.
    Expired,
    /// The user logged out.
    Logout,
}

/// The closed set of authentication states visible outside the engine.
#[derive(Clone, Debug, PartialEq)]
pub enum OAuth2Context {
    /// The engine is not initialized yet.
    NotInitialized,
    /// Not authenticated.
    NotAuthenticated {
        /// Reason why it is not authenticated.
        reason: Reason,
    },
    /// Session is authenticated.
    Authenticated {
        /// The access token.
        access_token: String,
        /// An optional refresh token.
        refresh_token: Option<String>,
        /// The verified OpenID claims.
        claims: Option<Claims>,
        /// Absolute expiry instant, in seconds, if the provider reported one.
        expires: Option<u64>,
    },
    /// Something failed, with a human-readable message.
    Failed(String),
}

impl OAuth2Context {
    /// Get the access token, if the context is [`OAuth2Context::Authenticated`].
    pub fn access_token(&self) -> (r: Option<String>)
        ensures
            self matches OAuth2Context::Authenticated { access_token, .. } ==> (r matches Some(t)
                && t@ == access_token@),
            !(self is Authenticated) ==> r is None,
    {
        match self {
            Self::Authenticated { access_token, .. } => Some(access_token.clone()),
            _ => None,
        }
    }

    /// Get the claims, if the context is [`OAuth2Context::Authenticated`] and
    /// claims are present.
    pub fn claims(&self) -> (r: Option<&Claims>)
        ensures
            self matches OAuth2Context::Authenticated { claims: Some(c), .. } ==> (r matches Some(
                rc,
            ) && *rc == c),
            !(self matches OAuth2Context::Authenticated { claims: Some(_), .. }) ==> r is None,
    {
        match self {
            Self::Authenticated { claims: Some(claims), .. } => Some(claims),
            _ => None,
        }
    }
}

} // verus!
