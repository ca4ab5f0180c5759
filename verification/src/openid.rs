//! The protocol engine: construction from a discovered provider, login-context
//! construction, code exchange, refresh-token exchange and logout.
//!
//! Network round trips are performed by the surrounding application.  Their
//! outcomes — the discovery document and the token endpoint's responses — are
//! handed to the engine as plain values, and the engine makes every protocol
//! decision under contract.

use vstd::prelude::*;

use crate::context::{Claims, OAuth2Context};
use crate::urlenc::{
    enc, finish, is_unreserved, join_spaces, lemma_enc_unreserved_identity, push_encoded,
    push_joined, push_query_sep, push_str_chars, query_sep, scope_views,
};

verus! {

/// The error taxonomy of the engine.
#[derive(Clone, Debug, PartialEq)]
pub enum OAuth2Error {
    /// Invalid issuer URL, failed discovery, or invalid end-session URL:
    /// fatal to engine construction.
    Configuration(String),
    /// Code exchange failure, missing or unverifiable identity token, or
    /// refresh failure: recoverable by restarting the relevant flow.
    LoginResult(String),
}

/// The already-validated configuration consumed once at engine construction.
#[derive(Clone, Debug, PartialEq)]
pub struct Config {
    /// The issuer URL against which discovery runs.
    pub issuer_url: String,
    /// The client identifier registered with the provider.
    pub client_id: String,
    /// The requested scopes, in an order that may matter to the provider.
    pub scopes: Vec<String>,
    /// An explicitly configured end-session URL, taking precedence over the
    /// provider-discovered one.
    pub end_session_url: Option<String>,
}

/// The provider-specific extension of the discovery document.
#[derive(Clone, Debug, PartialEq)]
pub struct AdditionalProviderMetadata {
    /// The provider's end-of-session endpoint, if it publishes one.
    pub end_session_endpoint: Option<String>,
}

/// What the provider metadata resolver hands the engine: the mandatory
/// endpoints and the signing-key set of the validated discovery document,
/// plus the provider-specific extension.
#[derive(Clone, Debug)]
pub struct ProviderMetadata {
    /// The issuer the document was fetched for.
    pub issuer: String,
    /// The authorization endpoint.
    pub auth_url: String,
    /// The token endpoint.
    pub token_url: String,
    /// The provider's published signing keys, as the JSON key-set document.
    pub jwks: String,
    /// The provider-specific extension of the document.
    pub additional: AdditionalProviderMetadata,
}

/// The ephemeral secret material of one login attempt: created when the
/// authorization URL is built, consumed exactly once at code-exchange time.
#[derive(Clone, Debug, PartialEq)]
pub struct OpenIdLoginState {
    /// The PKCE code verifier whose challenge is embedded in the
    /// authorization URL.
    pub pkce_verifier: String,
    /// The nonce embedded in the authorization URL and required of the
    /// identity token.
    pub nonce: String,
}

/// What starting a login yields: the URL to navigate to, the CSRF token the
/// redirect collaborator must check against the returned state parameter, and
/// the transaction state to replay into the code exchange.
#[derive(Clone, Debug, PartialEq)]
pub struct LoginContext {
    /// The authorization URL to navigate to.
    pub url: String,
    /// The anti-forgery token embedded as the `state` parameter.
    pub csrf_token: String,
    /// The secret material to hand back to [`OpenIdClient::exchange_code`].
    pub state: OpenIdLoginState,
}

/// The token endpoint's successful response, as plain values.
#[derive(Clone, Debug, PartialEq)]
pub struct TokenResponseData {
    /// The access token.
    pub access_token: String,
    /// The refresh token, if the provider issued one.
    pub refresh_token: Option<String>,
    /// The serialized identity token, if the provider returned one.
    pub id_token: Option<String>,
    /// The declared token lifetime in seconds, if the provider reports one.
    pub expires_in: Option<u64>,
}

/// The protocol engine bound to one validated provider.  Endpoint and key
/// data are immutable after construction; only the redirect URI varies.
#[derive(Clone, Debug)]
pub struct OpenIdClient {
    /// The client identifier sent with every request.
    pub client_id: String,
    /// The issuer identity tokens are verified against.
    pub issuer: String,
    /// The authorization endpoint.
    pub auth_url: String,
    /// The token endpoint.
    pub token_url: String,
    /// The provider's signing keys, as the JSON key-set document.
    pub jwks: String,
    /// The effective end-session URL, if any.
    pub end_session_url: Option<String>,
    /// The redirect URI the engine is currently bound to.
    pub redirect_uri: Option<String>,
}

/// What `oauth2::PkceCodeChallenge::from_code_verifier_sha256` returns for a
/// given verifier: the SHA-256 digest of the verifier, base64url-encoded
/// without padding.
pub uninterp spec fn pkce_challenge_of(verifier: Seq<char>) -> Seq<char>;

/// Whether `openidconnect::IssuerUrl::new` accepts the string.
pub uninterp spec fn is_valid_issuer(url: Seq<char>) -> bool;

/// Whether `url::Url::parse` accepts the string.
pub uninterp spec fn is_valid_url(url: Seq<char>) -> bool;

/// The base64url alphabet, from which all generated secrets are drawn; it
/// lies inside the character set PKCE allows for verifiers.
pub open spec fn is_b64url_char(c: char) -> bool {
    ('A' <= c && c <= 'Z') || ('a' <= c && c <= 'z') || ('0' <= c && c <= '9') || c == '-' || c
        == '_'
}

/// The authorization URL of one login attempt, as a function of the engine's
/// data and the attempt's fresh secrets.
pub open spec fn login_url(
    auth: Seq<char>,
    client_id: Seq<char>,
    redirect: Seq<char>,
    scopes: Seq<Seq<char>>,
    challenge: Seq<char>,
    csrf: Seq<char>,
    nonce: Seq<char>,
) -> Seq<char> {
    auth + query_sep(auth) + "response_type=code&client_id="@ + enc(client_id) + "&state="@ + enc(
        csrf,
    ) + "&code_challenge="@ + enc(challenge) + "&code_challenge_method=S256&redirect_uri="@ + enc(
        redirect,
    ) + "&scope="@ + enc(join_spaces(scopes)) + "&nonce="@ + enc(nonce)
}

/// The URL a logout navigates to: the end-session URL with the current
/// location appended as `redirect_uri`.
pub open spec fn end_session_redirect(end_session: Seq<char>, current: Seq<char>) -> Seq<char> {
    end_session + query_sep(end_session) + "redirect_uri="@ + enc(current)
}

/// The absolute expiry instant: `now` plus the declared lifetime, saturating.
pub open spec fn expiry_of(now: u64, expires_in: Option<u64>) -> Option<u64> {
    match expires_in {
        Some(d) => if now + d <= u64::MAX {
            Some((now + d) as u64)
        } else {
            Some(u64::MAX)
        },
        None => None,
    }
}

/// The authorization URL of `lc` is the one this engine builds for these
/// scopes and this redirect URI, embedding `lc`'s own secrets.
pub open spec fn login_context_matches(
    client: OpenIdClient,
    scopes: Seq<Seq<char>>,
    redirect: Seq<char>,
    lc: LoginContext,
) -> bool {
    lc.url@ == login_url(
        client.auth_url@,
        client.client_id@,
        redirect,
        scopes,
        pkce_challenge_of(lc.state.pkce_verifier@),
        lc.csrf_token@,
        lc.state.nonce@,
    )
}

/// Relies on `openidconnect::PkceCodeChallenge::new_random_sha256`: a fresh
/// random verifier of 43 base64url characters (32 random bytes, base64url
/// encoded without padding) and its challenge, which is
/// `from_code_verifier_sha256` of the verifier, again 43 base64url characters.
#[verifier::external_body]
fn fresh_pkce_pair() -> (r: (String, String))
    ensures
        r.0@ == pkce_challenge_of(r.1@),
        r.1@.len() == 43,
        forall|i: int| 0 <= i < r.1@.len() ==> is_b64url_char(#[trigger] r.1@[i]),
        r.0@.len() == 43,
        forall|i: int| 0 <= i < r.0@.len() ==> is_b64url_char(#[trigger] r.0@[i]),
{
    let (challenge, verifier) = openidconnect::PkceCodeChallenge::new_random_sha256();
    (challenge.as_str().to_string(), verifier.secret().clone())
}

/// Relies on `openidconnect::CsrfToken::new_random`: 16 random bytes,
/// base64url encoded without padding: 22 characters.
#[verifier::external_body]
fn fresh_csrf_token() -> (r: String)
    ensures
        r@.len() == 22,
        forall|i: int| 0 <= i < r@.len() ==> is_b64url_char(#[trigger] r@[i]),
{
    openidconnect::CsrfToken::new_random().secret().clone()
}

/// Relies on `openidconnect::Nonce::new_random`: 16 random bytes, base64url
/// encoded without padding: 22 characters.
#[verifier::external_body]
fn fresh_nonce() -> (r: String)
    ensures
        r@.len() == 22,
        forall|i: int| 0 <= i < r@.len() ==> is_b64url_char(#[trigger] r@[i]),
{
    openidconnect::Nonce::new_random().secret().clone()
}

/// Relies on `openidconnect::IssuerUrl::new`: whether the string is
/// accepted as an issuer URL.
#[verifier::external_body]
fn check_issuer_url(s: &String) -> (r: bool)
    ensures
        r == is_valid_issuer(s@),
{
    openidconnect::IssuerUrl::new(s.clone()).is_ok()
}

/// Relies on `url::Url::parse`: whether the string is a parseable URL.
#[verifier::external_body]
fn check_url(s: &String) -> (r: bool)
    ensures
        r == is_valid_url(s@),
{
    url::Url::parse(s.as_str()).is_ok()
}

/// Relies on `serde_json` deserialization of the key-set document and on
/// `openidconnect::IdToken::into_claims` with an expected nonce:
/// it verifies the token's signature, issuer, audience and expiry against
/// the given keys, and fails unless the token's nonce claim is present and
/// equal to the expected nonce — so a success carries exactly that nonce.
#[verifier::external_body]
fn verify_id_token(
    id_token: &String,
    client_id: &String,
    issuer: &String,
    jwks: &String,
    nonce: &String,
) -> (r: Result<Claims, String>)
    ensures
        r matches Ok(c) ==> c@.nonce == Some(nonce@),
{
    let v = openidconnect::core::CoreIdTokenVerifier::new_public_client(
        openidconnect::ClientId::new(client_id.clone()),
        openidconnect::IssuerUrl::new(issuer.clone()).map_err(|e| e.to_string())?,
        serde_json::from_str(jwks.as_str()).map_err(|e| e.to_string())?,
    );
    let t: openidconnect::core::CoreIdToken = id_token.parse().map_err(|e: serde_json::Error| e.to_string())?;
    let c = t.into_claims(&v, &openidconnect::Nonce::new(nonce.clone())).map_err(|e| e.to_string())?;
    Ok(Claims {
        subject: c.subject().to_string(),
        issuer: c.issuer().to_string(),
        nonce: c.nonce().map(|n| n.secret().clone()),
    })
}

/// `prefix` and `detail`, concatenated.
fn concat_msg(prefix: &str, detail: &str) -> (r: String)
    ensures
        r@ == prefix@ + detail@,
{
    let mut out: Vec<char> = Vec::new();
    push_str_chars(&mut out, prefix);
    push_str_chars(&mut out, detail);
    proof {
        assert(Seq::<char>::empty() + prefix@ =~= prefix@);
    }
    finish(out)
}

impl OpenIdClient {
    /// Build the engine from the configuration and the outcome of the
    /// discovery round trip.  Fails with [`OAuth2Error::Configuration`] — and
    /// only with it — when the issuer URL is malformed, discovery failed, a
    /// discovered endpoint is empty, or an explicitly configured end-session
    /// URL does not parse; an absent end-session URL is not an error.  A
    /// returned engine always carries non-empty endpoints.
    pub fn from_config(config: Config, discovery: Result<ProviderMetadata, String>) -> (r: Result<
        OpenIdClient,
        OAuth2Error,
    >)
        ensures
            r is Ok <==> ({
                &&& is_valid_issuer(config.issuer_url@)
                &&& discovery matches Ok(m) && m.auth_url@.len() > 0 && m.token_url@.len() > 0
                &&& config.end_session_url matches Some(u) ==> is_valid_url(u@)
            }),
            r matches Err(e) ==> e is Configuration,
            r matches Ok(c) ==> discovery matches Ok(m) && {
                &&& c.client_id@ == config.client_id@
                &&& c.issuer@ == m.issuer@
                &&& c.auth_url@ == m.auth_url@
                &&& c.auth_url@.len() > 0
                &&& c.token_url@ == m.token_url@
                &&& c.token_url@.len() > 0
                &&& c.jwks@ == m.jwks@
                &&& c.redirect_uri is None
                &&& match config.end_session_url {
                    Some(u) => c.end_session_url matches Some(e) && e@ == u@,
                    None => match m.additional.end_session_endpoint {
                        Some(d) => c.end_session_url matches Some(e) && e@ == d@,
                        None => c.end_session_url is None,
                    },
                }
            },
    {
        if !check_issuer_url(&config.issuer_url) {
            return Err(
                OAuth2Error::Configuration(
                    concat_msg("invalid issuer URL: ", config.issuer_url.as_str()),
                ),
            );
        }
        let m = match discovery {
            Err(e) => {
                return Err(
                    OAuth2Error::Configuration(
                        concat_msg("Failed to discover client: ", e.as_str()),
                    ),
                );
            },
            Ok(m) => m,
        };
        let ProviderMetadata { issuer, auth_url, token_url, jwks, additional } = m;
        if auth_url.as_str().is_empty() || token_url.as_str().is_empty() {
            return Err(
                OAuth2Error::Configuration(
                    "discovered provider metadata lacks an endpoint".to_owned(),
                ),
            );
        }
        let end_session_url = match config.end_session_url {
            Some(u) => {
                if !check_url(&u) {
                    return Err(
                        OAuth2Error::Configuration(
                            concat_msg("Unable to parse end_session_url: ", u.as_str()),
                        ),
                    );
                }
                Some(u)
            },
            None => additional.end_session_endpoint,
        };
        Ok(
            OpenIdClient {
                client_id: config.client_id,
                issuer,
                auth_url,
                token_url,
                jwks,
                end_session_url,
                redirect_uri: None,
            },
        )
    }

    /// Return an engine bound to the given redirect target; everything else
    /// is unchanged (value semantics, safe for per-route variants).
    pub fn set_redirect_uri(self, url: String) -> (r: Self)
        ensures
            r.redirect_uri matches Some(u) && u@ == url@,
            r.client_id@ == self.client_id@,
            r.issuer@ == self.issuer@,
            r.auth_url@ == self.auth_url@,
            r.token_url@ == self.token_url@,
            r.jwks@ == self.jwks@,
            match self.end_session_url {
                Some(e) => r.end_session_url matches Some(x) && x@ == e@,
                None => r.end_session_url is None,
            },
    {
        OpenIdClient {
            client_id: self.client_id,
            issuer: self.issuer,
            auth_url: self.auth_url,
            token_url: self.token_url,
            jwks: self.jwks,
            end_session_url: self.end_session_url,
            redirect_uri: Some(url),
        }
    }

    /// Start a login: generate the PKCE pair, the CSRF token and the nonce,
    /// and build the authorization URL for this attempt's redirect target.
    /// Pure URL construction plus randomness; it never fails.  The embedded
    /// PKCE challenge is the SHA-256 transform of the returned verifier, and
    /// the verifier is 43 characters from the allowed alphabet.
    pub fn make_login_context(&self, scopes: &Vec<String>, redirect_url: &String) -> (r: Result<
        LoginContext,
        OAuth2Error,
    >)
        ensures
            r matches Ok(lc) && {
                &&& login_context_matches(*self, scope_views(scopes@), redirect_url@, lc)
                &&& 43 <= lc.state.pkce_verifier@.len() <= 128
                &&& forall|i: int|
                    0 <= i < lc.state.pkce_verifier@.len() ==> is_b64url_char(
                        #[trigger] lc.state.pkce_verifier@[i],
                    )
                &&& lc.csrf_token@.len() > 0
                &&& lc.state.nonce@.len() > 0
                &&& forall|i: int|
                    0 <= i < lc.state.nonce@.len() ==> is_b64url_char(
                        #[trigger] lc.state.nonce@[i],
                    )
            },
    {
        let (challenge, verifier) = fresh_pkce_pair();
        let csrf = fresh_csrf_token();
        let nonce = fresh_nonce();
        let mut joined: Vec<char> = Vec::new();
        push_joined(&mut joined, scopes);
        let joined_scopes = finish(joined);
        let mut out: Vec<char> = Vec::new();
        push_str_chars(&mut out, self.auth_url.as_str());
        push_query_sep(&mut out, self.auth_url.as_str());
        push_str_chars(&mut out, "response_type=code&client_id=");
        push_encoded(&mut out, self.client_id.as_str());
        push_str_chars(&mut out, "&state=");
        push_encoded(&mut out, csrf.as_str());
        push_str_chars(&mut out, "&code_challenge=");
        push_encoded(&mut out, challenge.as_str());
        push_str_chars(&mut out, "&code_challenge_method=S256&redirect_uri=");
        push_encoded(&mut out, redirect_url.as_str());
        push_str_chars(&mut out, "&scope=");
        push_encoded(&mut out, joined_scopes.as_str());
        push_str_chars(&mut out, "&nonce=");
        push_encoded(&mut out, nonce.as_str());
        proof {
            assert(Seq::<char>::empty() + self.auth_url@ =~= self.auth_url@);
            assert(Seq::<char>::empty() + join_spaces(scope_views(scopes@)) =~= join_spaces(
                scope_views(scopes@),
            ));
        }
        let url = finish(out);
        Ok(
            LoginContext {
                url,
                csrf_token: csrf,
                state: OpenIdLoginState { pkce_verifier: verifier, nonce },
            },
        )
    }

    /// Build the authenticated context from a token response and verified
    /// claims: the new access and refresh tokens, the claims shared between
    /// the context and the returned session handle, and the expiry instant
    /// `now + expires_in` (saturating) when a lifetime was declared.
    pub fn authenticated(
        access_token: String,
        refresh_token: Option<String>,
        claims: Claims,
        expires_in: Option<u64>,
        now: u64,
    ) -> (r: (OAuth2Context, Claims))
        ensures
            r.0 matches OAuth2Context::Authenticated {
                access_token: a,
                refresh_token: rt,
                claims: cl,
                expires: ex,
            } && {
                &&& a@ == access_token@
                &&& match refresh_token {
                    Some(t) => rt matches Some(x) && x@ == t@,
                    None => rt is None,
                }
                &&& cl matches Some(c) && c@ == claims@
                &&& ex == expiry_of(now, expires_in)
            },
            r.1@ == claims@,
    {
        let expires = match expires_in {
            Some(d) => if now <= u64::MAX - d {
                Some(now + d)
            } else {
                Some(u64::MAX)
            },
            None => None,
        };
        let handle = claims.clone();
        (
            OAuth2Context::Authenticated {
                access_token,
                refresh_token,
                claims: Some(claims),
                expires,
            },
            handle,
        )
    }

    /// Complete a login: consume the token endpoint's outcome for the
    /// authorization code submitted with this state's PKCE verifier.  A
    /// provider failure, a response without an identity token, and a failed
    /// verification each yield [`OAuth2Error::LoginResult`]; a success is
    /// only built from a response whose identity token verified against this
    /// state's nonce, and the resulting claims carry exactly that nonce.
    pub fn exchange_code(
        &self,
        state: OpenIdLoginState,
        outcome: Result<TokenResponseData, String>,
        now: u64,
    ) -> (r: Result<(OAuth2Context, Claims), OAuth2Error>)
        ensures
            outcome matches Err(e) ==> r matches Err(OAuth2Error::LoginResult(m)) && m@
                == "failed to exchange code: "@ + e@,
            (outcome matches Ok(t) && t.id_token is None) ==> ({
                r matches Err(OAuth2Error::LoginResult(m)) && m@
                    == "Server did not return an ID token"@
            }),
            r matches Err(e) ==> e is LoginResult,
            r matches Ok(p) ==> outcome matches Ok(t) && t.id_token is Some && {
                &&& p.1@.nonce == Some(state.nonce@)
                &&& p.0 matches OAuth2Context::Authenticated {
                    access_token: a,
                    refresh_token: rt,
                    claims: cl,
                    expires: ex,
                } && {
                    &&& a@ == t.access_token@
                    &&& match t.refresh_token {
                        Some(x) => rt matches Some(y) && y@ == x@,
                        None => rt is None,
                    }
                    &&& cl matches Some(c) && c@ == p.1@
                    &&& ex == expiry_of(now, t.expires_in)
                }
            },
    {
        let t = match outcome {
            Err(e) => {
                return Err(
                    OAuth2Error::LoginResult(concat_msg("failed to exchange code: ", e.as_str())),
                );
            },
            Ok(t) => t,
        };
        let TokenResponseData { access_token, refresh_token, id_token, expires_in } = t;
        let tok = match id_token {
            None => {
                return Err(OAuth2Error::LoginResult("Server did not return an ID token".to_owned()));
            },
            Some(tok) => tok,
        };
        let claims = match verify_id_token(
            &tok,
            &self.client_id,
            &self.issuer,
            &self.jwks,
            &state.nonce,
        ) {
            Err(e) => {
                return Err(
                    OAuth2Error::LoginResult(concat_msg("failed to verify ID token: ", e.as_str())),
                );
            },
            Ok(c) => c,
        };
        Ok(Self::authenticated(access_token, refresh_token, claims, expires_in, now))
    }

    /// Refresh: consume the token endpoint's outcome for a submitted refresh
    /// token.  On success the new context carries the new access token, the
    /// new refresh token only if the provider reissued one, and the previous
    /// verified claims unchanged; a failure is [`OAuth2Error::LoginResult`].
    pub fn exchange_refresh_token(
        &self,
        session_state: Claims,
        outcome: Result<TokenResponseData, String>,
        now: u64,
    ) -> (r: Result<(OAuth2Context, Claims), OAuth2Error>)
        ensures
            r is Ok <==> outcome is Ok,
            outcome matches Err(e) ==> r matches Err(OAuth2Error::LoginResult(m)) && m@
                == "failed to exchange refresh token: "@ + e@,
            r matches Ok(p) ==> outcome matches Ok(t) && {
                &&& p.1@ == session_state@
                &&& p.0 matches OAuth2Context::Authenticated {
                    access_token: a,
                    refresh_token: rt,
                    claims: cl,
                    expires: ex,
                } && {
                    &&& a@ == t.access_token@
                    &&& match t.refresh_token {
                        Some(x) => rt matches Some(y) && y@ == x@,
                        None => rt is None,
                    }
                    &&& cl matches Some(c) && c@ == session_state@
                    &&& ex == expiry_of(now, t.expires_in)
                }
            },
    {
        let t = match outcome {
            Err(e) => {
                return Err(
                    OAuth2Error::LoginResult(
                        concat_msg("failed to exchange refresh token: ", e.as_str()),
                    ),
                );
            },
            Ok(t) => t,
        };
        let TokenResponseData { access_token, refresh_token, id_token: _, expires_in } = t;
        Ok(Self::authenticated(access_token, refresh_token, session_state, expires_in, now))
    }

    /// The URL a logout must navigate to: the end-session URL with the
    /// current location appended as `redirect_uri`, or nothing when no
    /// end-session URL is configured (then logout is a no-op here and the
    /// caller clears the context locally).
    pub fn logout(&self, current_location: &String) -> (r: Option<String>)
        ensures
            match self.end_session_url {
                Some(e) => r matches Some(u) && u@ == end_session_redirect(
                    e@,
                    current_location@,
                ),
                None => r is None,
            },
    {
        match &self.end_session_url {
            Some(e) => {
                let mut out: Vec<char> = Vec::new();
                push_str_chars(&mut out, e.as_str());
                push_query_sep(&mut out, e.as_str());
                push_str_chars(&mut out, "redirect_uri=");
                push_encoded(&mut out, current_location.as_str());
                proof {
                    assert(Seq::<char>::empty() + e@ =~= e@);
                }
                Some(finish(out))
            },
            None => None,
        }
    }
}

/// A secret drawn from the base64url alphabet passes through the URL
/// encoder unchanged: every such character is unreserved.
pub proof fn lemma_b64url_enc_identity(s: Seq<char>)
    requires
        forall|i: int| 0 <= i < s.len() ==> is_b64url_char(#[trigger] s[i]),
    ensures
        enc(s) == s,
{
    assert forall|i: int| 0 <= i < s.len() implies is_unreserved(#[trigger] s[i]) by {
        assert(is_b64url_char(s[i]));
    }
    lemma_enc_unreserved_identity(s);
}

/// The authorization URL of a login context ends, in the clear, with the
/// nonce of its transaction state: the nonce a verified identity token must
/// carry (see [`OpenIdClient::exchange_code`]) is literally the URL's
/// trailing characters.
pub proof fn lemma_nonce_embedded_in_url(
    client: OpenIdClient,
    scopes: Seq<Seq<char>>,
    redirect: Seq<char>,
    lc: LoginContext,
)
    requires
        login_context_matches(client, scopes, redirect, lc),
        forall|i: int|
            0 <= i < lc.state.nonce@.len() ==> is_b64url_char(#[trigger] lc.state.nonce@[i]),
    ensures
        lc.state.nonce@.len() <= lc.url@.len(),
        lc.url@.skip(lc.url@.len() - lc.state.nonce@.len()) == lc.state.nonce@,
{
    lemma_b64url_enc_identity(lc.state.nonce@);
    let auth = client.auth_url@;
    let prefix = auth + query_sep(auth) + "response_type=code&client_id="@ + enc(
        client.client_id@,
    ) + "&state="@ + enc(lc.csrf_token@) + "&code_challenge="@ + enc(
        pkce_challenge_of(lc.state.pkce_verifier@),
    ) + "&code_challenge_method=S256&redirect_uri="@ + enc(redirect) + "&scope="@ + enc(
        join_spaces(scopes),
    ) + "&nonce="@;
    assert(lc.url@ =~= prefix + lc.state.nonce@);
    assert((prefix + lc.state.nonce@).skip(prefix.len() as int) =~= lc.state.nonce@);
}

/// The nonce bound into a login attempt is one value end to end: the
/// authorization URL built for a login context embeds the very nonce that a
/// successful code exchange for the same state verified in the identity
/// token — so a verified token is bound to this attempt, not another.
pub proof fn lemma_nonce_binding(
    client: OpenIdClient,
    scopes: Seq<Seq<char>>,
    redirect: Seq<char>,
    lc: LoginContext,
    handle: Claims,
)
    requires
        login_context_matches(client, scopes, redirect, lc),
        handle@.nonce == Some(lc.state.nonce@),
    ensures
        lc.url@ == login_url(
            client.auth_url@,
            client.client_id@,
            redirect,
            scopes,
            pkce_challenge_of(lc.state.pkce_verifier@),
            lc.csrf_token@,
            handle@.nonce.unwrap(),
        ),
{
}

} // verus!
