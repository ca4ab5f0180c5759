//! Engine construction, login-context construction, refresh and logout.

use oauth2_agent::context::{Claims, OAuth2Context, Reason};
use oauth2_agent::openid::{
    AdditionalProviderMetadata, Config, OAuth2Error, OpenIdClient, ProviderMetadata,
    TokenResponseData,
};

fn config() -> Config {
    Config {
        issuer_url: "https://idp.example/realm".to_string(),
        client_id: "app1".to_string(),
        scopes: vec!["openid".to_string(), "profile".to_string()],
        end_session_url: None,
    }
}

fn metadata(end_session: Option<&str>) -> ProviderMetadata {
    ProviderMetadata {
        issuer: "https://idp.example/realm".to_string(),
        auth_url: "https://idp.example/auth".to_string(),
        token_url: "https://idp.example/token".to_string(),
        jwks: "{\"keys\":[]}".to_string(),
        additional: AdditionalProviderMetadata {
            end_session_endpoint: end_session.map(|s| s.to_string()),
        },
    }
}

fn engine() -> OpenIdClient {
    OpenIdClient::from_config(config(), Ok(metadata(None))).expect("engine")
}

fn query_param(url: &str, name: &str) -> Option<String> {
    let parsed = url::Url::parse(url).expect("url parses");
    parsed
        .query_pairs()
        .find(|(k, _)| k == name)
        .map(|(_, v)| v.into_owned())
}

#[test]
fn from_config_returns_engine_with_endpoints() {
    let engine = engine();
    assert_eq!(engine.client_id, "app1");
    assert_eq!(engine.issuer, "https://idp.example/realm");
    assert_eq!(engine.auth_url, "https://idp.example/auth");
    assert_eq!(engine.token_url, "https://idp.example/token");
    assert!(!engine.auth_url.is_empty() && !engine.token_url.is_empty());
    assert_eq!(engine.end_session_url, None);
    assert_eq!(engine.redirect_uri, None);
}

#[test]
fn from_config_invalid_issuer_is_configuration_error() {
    let mut cfg = config();
    cfg.issuer_url = "not a url".to_string();
    match OpenIdClient::from_config(cfg, Ok(metadata(None))) {
        Err(OAuth2Error::Configuration(m)) => assert!(m.starts_with("invalid issuer URL: ")),
        other => panic!("expected configuration error, got {other:?}"),
    }
}

#[test]
fn from_config_discovery_failure_is_configuration_error() {
    match OpenIdClient::from_config(config(), Err("connection refused".to_string())) {
        Err(OAuth2Error::Configuration(m)) => {
            assert_eq!(m, "Failed to discover client: connection refused");
        }
        other => panic!("expected configuration error, got {other:?}"),
    }
}

#[test]
fn from_config_empty_endpoint_is_configuration_error() {
    let mut m = metadata(None);
    m.token_url = String::new();
    match OpenIdClient::from_config(config(), Ok(m)) {
        Err(OAuth2Error::Configuration(_)) => {}
        other => panic!("expected configuration error, got {other:?}"),
    }
}

#[test]
fn from_config_explicit_end_session_wins() {
    let mut cfg = config();
    cfg.end_session_url = Some("https://idp.example/logout".to_string());
    let engine =
        OpenIdClient::from_config(cfg, Ok(metadata(Some("https://idp.example/other")))).unwrap();
    assert_eq!(engine.end_session_url, Some("https://idp.example/logout".to_string()));
}

#[test]
fn from_config_falls_back_to_discovered_end_session() {
    let engine =
        OpenIdClient::from_config(config(), Ok(metadata(Some("https://idp.example/end")))).unwrap();
    assert_eq!(engine.end_session_url, Some("https://idp.example/end".to_string()));
}

#[test]
fn from_config_unparseable_end_session_is_configuration_error() {
    let mut cfg = config();
    cfg.end_session_url = Some("http://[broken".to_string());
    match OpenIdClient::from_config(cfg, Ok(metadata(None))) {
        Err(OAuth2Error::Configuration(m)) => {
            assert!(m.starts_with("Unable to parse end_session_url: "));
        }
        other => panic!("expected configuration error, got {other:?}"),
    }
}

#[test]
fn make_login_context_builds_authorization_url() {
    let engine = engine();
    let lc = engine
        .make_login_context(
            &vec!["openid".to_string(), "profile".to_string()],
            &"https://app.example/cb".to_string(),
        )
        .expect("login context");
    assert!(lc.url.starts_with("https://idp.example/auth?"));
    assert!(lc.url.contains("response_type=code"));
    assert!(lc.url.contains("client_id=app1"));
    assert!(lc.url.contains("scope=openid%20profile"));
    assert!(lc.url.contains("code_challenge="));
    assert!(lc.url.contains("code_challenge_method=S256"));
    assert!(lc.url.contains("redirect_uri=https%3A%2F%2Fapp.example%2Fcb"));
    assert!(lc.url.contains("state="));
    assert!(lc.url.contains("nonce="));
    assert_eq!(query_param(&lc.url, "client_id").as_deref(), Some("app1"));
    assert_eq!(query_param(&lc.url, "scope").as_deref(), Some("openid profile"));
    assert_eq!(
        query_param(&lc.url, "redirect_uri").as_deref(),
        Some("https://app.example/cb")
    );
    assert_eq!(query_param(&lc.url, "state").as_deref(), Some(lc.csrf_token.as_str()));
}

#[test]
fn make_login_context_nonce_matches_state() {
    let engine = engine();
    let lc = engine
        .make_login_context(&vec!["openid".to_string()], &"https://app.example/cb".to_string())
        .unwrap();
    assert_eq!(query_param(&lc.url, "nonce").as_deref(), Some(lc.state.nonce.as_str()));
}

#[test]
fn pkce_verifier_shape_and_challenge_round_trip() {
    let engine = engine();
    let lc = engine
        .make_login_context(&vec!["openid".to_string()], &"https://app.example/cb".to_string())
        .unwrap();
    let verifier = &lc.state.pkce_verifier;
    assert!(verifier.len() >= 43 && verifier.len() <= 128);
    assert!(verifier
        .chars()
        .all(|c| c.is_ascii_alphanumeric() || c == '-' || c == '_'));
    let embedded = query_param(&lc.url, "code_challenge").expect("challenge embedded");
    let recomputed = oauth2::PkceCodeChallenge::from_code_verifier_sha256(
        &oauth2::PkceCodeVerifier::new(verifier.clone()),
    );
    assert_eq!(embedded, recomputed.as_str());
}

#[test]
fn login_contexts_use_fresh_secrets() {
    let engine = engine();
    let scopes = vec!["openid".to_string()];
    let redirect = "https://app.example/cb".to_string();
    let a = engine.make_login_context(&scopes, &redirect).unwrap();
    let b = engine.make_login_context(&scopes, &redirect).unwrap();
    assert_ne!(a.state.pkce_verifier, b.state.pkce_verifier);
    assert_ne!(a.state.nonce, b.state.nonce);
    assert_ne!(a.csrf_token, b.csrf_token);
}

#[test]
fn set_redirect_uri_keeps_everything_else() {
    let engine = engine().set_redirect_uri("https://app.example/route".to_string());
    assert_eq!(engine.redirect_uri, Some("https://app.example/route".to_string()));
    assert_eq!(engine.client_id, "app1");
    assert_eq!(engine.auth_url, "https://idp.example/auth");
    assert_eq!(engine.token_url, "https://idp.example/token");
}

fn prior_claims() -> Claims {
    Claims {
        subject: "user-1".to_string(),
        issuer: "https://idp.example/realm".to_string(),
        nonce: Some("nonce-1".to_string()),
    }
}

#[test]
fn refresh_success_carries_claims_forward() {
    let engine = engine();
    let outcome = Ok(TokenResponseData {
        access_token: "AT2".to_string(),
        refresh_token: Some("RT2".to_string()),
        id_token: None,
        expires_in: Some(3600),
    });
    let (ctx, handle) = engine.exchange_refresh_token(prior_claims(), outcome, 5000).unwrap();
    assert_eq!(handle, prior_claims());
    match ctx {
        OAuth2Context::Authenticated { access_token, refresh_token, claims, expires } => {
            assert_eq!(access_token, "AT2");
            assert_eq!(refresh_token, Some("RT2".to_string()));
            assert_eq!(claims, Some(prior_claims()));
            assert_eq!(expires, Some(8600));
        }
        other => panic!("expected authenticated context, got {other:?}"),
    }
}

#[test]
fn refresh_without_reissued_token_drops_it() {
    let engine = engine();
    let outcome = Ok(TokenResponseData {
        access_token: "AT3".to_string(),
        refresh_token: None,
        id_token: None,
        expires_in: None,
    });
    let (ctx, _) = engine.exchange_refresh_token(prior_claims(), outcome, 0).unwrap();
    match ctx {
        OAuth2Context::Authenticated { refresh_token, expires, .. } => {
            assert_eq!(refresh_token, None);
            assert_eq!(expires, None);
        }
        other => panic!("expected authenticated context, got {other:?}"),
    }
}

#[test]
fn refresh_failure_is_login_result() {
    let engine = engine();
    let r = engine.exchange_refresh_token(prior_claims(), Err("expired".to_string()), 0);
    assert_eq!(
        r,
        Err(OAuth2Error::LoginResult("failed to exchange refresh token: expired".to_string()))
    );
}

#[test]
fn expiry_saturates_instead_of_overflowing() {
    let engine = engine();
    let outcome = Ok(TokenResponseData {
        access_token: "AT".to_string(),
        refresh_token: None,
        id_token: None,
        expires_in: Some(u64::MAX),
    });
    let (ctx, _) = engine.exchange_refresh_token(prior_claims(), outcome, 10).unwrap();
    match ctx {
        OAuth2Context::Authenticated { expires, .. } => assert_eq!(expires, Some(u64::MAX)),
        other => panic!("expected authenticated context, got {other:?}"),
    }
}

#[test]
fn logout_builds_end_session_url() {
    let mut cfg = config();
    cfg.end_session_url = Some("https://idp.example/logout".to_string());
    let engine = OpenIdClient::from_config(cfg, Ok(metadata(None))).unwrap();
    let target = engine.logout(&"https://app.example/page".to_string());
    assert_eq!(
        target.as_deref(),
        Some("https://idp.example/logout?redirect_uri=https%3A%2F%2Fapp.example%2Fpage")
    );
}

#[test]
fn logout_appends_to_existing_query() {
    let mut cfg = config();
    cfg.end_session_url = Some("https://idp.example/logout?tenant=a".to_string());
    let engine = OpenIdClient::from_config(cfg, Ok(metadata(None))).unwrap();
    let target = engine.logout(&"https://app.example/".to_string());
    assert_eq!(
        target.as_deref(),
        Some("https://idp.example/logout?tenant=a&redirect_uri=https%3A%2F%2Fapp.example%2F")
    );
}

#[test]
fn logout_without_end_session_url_is_noop() {
    assert_eq!(engine().logout(&"https://app.example/page".to_string()), None);
}

#[test]
fn logout_percent_encodes_utf8_bytes() {
    let mut cfg = config();
    cfg.end_session_url = Some("https://idp.example/logout".to_string());
    let engine = OpenIdClient::from_config(cfg, Ok(metadata(None))).unwrap();
    let target = engine.logout(&"https://app.example/p\u{00e4}ge a".to_string()).unwrap();
    assert!(target.ends_with("redirect_uri=https%3A%2F%2Fapp.example%2Fp%C3%A4ge%20a"));
}

#[test]
fn access_token_accessor_only_on_authenticated() {
    let ctx = OAuth2Context::Authenticated {
        access_token: "AT".to_string(),
        refresh_token: None,
        claims: None,
        expires: None,
    };
    assert_eq!(ctx.access_token(), Some("AT".to_string()));
    assert_eq!(ctx.claims(), None);
    assert_eq!(OAuth2Context::NotInitialized.access_token(), None);
    assert_eq!(
        OAuth2Context::NotAuthenticated { reason: Reason::NewSession }.access_token(),
        None
    );
    assert_eq!(OAuth2Context::Failed("boom".to_string()).access_token(), None);
}

#[test]
fn claims_accessor_returns_present_claims() {
    let ctx = OAuth2Context::Authenticated {
        access_token: "AT".to_string(),
        refresh_token: None,
        claims: Some(prior_claims()),
        expires: None,
    };
    assert_eq!(ctx.claims(), Some(&prior_claims()));
    assert_eq!(OAuth2Context::NotInitialized.claims(), None);
}

#[test]
fn make_login_context_exact_url() {
    let engine = engine();
    let lc = engine
        .make_login_context(
            &vec!["openid".to_string(), "profile".to_string()],
            &"https://app.example/cb".to_string(),
        )
        .unwrap();
    let challenge = oauth2::PkceCodeChallenge::from_code_verifier_sha256(
        &oauth2::PkceCodeVerifier::new(lc.state.pkce_verifier.clone()),
    );
    let expected = format!(
        "https://idp.example/auth?response_type=code&client_id=app1&state={}&code_challenge={}&code_challenge_method=S256&redirect_uri=https%3A%2F%2Fapp.example%2Fcb&scope=openid%20profile&nonce={}",
        lc.csrf_token,
        challenge.as_str(),
        lc.state.nonce,
    );
    assert_eq!(lc.url, expected);
}

#[test]
fn make_login_context_with_no_scopes_has_empty_scope_param() {
    let engine = engine();
    let lc = engine
        .make_login_context(&Vec::new(), &"https://app.example/cb".to_string())
        .unwrap();
    assert!(lc.url.contains("&scope=&nonce="));
    assert_eq!(query_param(&lc.url, "scope").as_deref(), Some(""));
}
