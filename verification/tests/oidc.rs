use tou_http::oidc::{
    auth_providers, callback_step, decode_base64url, display_name, end_session_url, failure_url,
    locale_of, logout_target, urlencode, CallbackParams, CallbackStep, OidcConfig, OidcEnv,
    OidcFlow, DEFAULT_ROLES_CLAIM,
};

#[test]
fn locale_claim_narrows_to_supported_languages() {
    assert_eq!(locale_of(Some("kk-KZ")), "kk");
    assert_eq!(locale_of(Some("en")), "en");
    assert_eq!(locale_of(Some("de-DE")), "ru");
    assert_eq!(locale_of(None), "ru");
}

#[test]
fn end_session_url_carries_hint_and_return_target() {
    let url = end_session_url(
        "https://id.tou.edu.kz/oidc/v1/end_session",
        Some("token.value"),
        "https://rent.tou.edu.kz/",
    );
    assert_eq!(
        url,
        "https://id.tou.edu.kz/oidc/v1/end_session\
         ?post_logout_redirect_uri=https%3A%2F%2Frent.tou.edu.kz%2F\
         &id_token_hint=token.value"
    );
}

#[test]
fn failure_url_keeps_existing_query() {
    assert_eq!(
        failure_url("/auth/login", "state"),
        "/auth/login?oidc_error=state"
    );
    assert_eq!(
        failure_url("/auth/login?next=/app", "denied"),
        "/auth/login?next=/app&oidc_error=denied"
    );
}

#[test]
fn end_session_url_without_a_token_has_no_hint() {
    let url = end_session_url("https://id.example/end", None, "https://rent.example/");
    assert_eq!(
        url,
        "https://id.example/end?post_logout_redirect_uri=https%3A%2F%2Frent.example%2F"
    );
}

#[test]
fn urlencode_keeps_unreserved_and_escapes_the_rest_in_utf8() {
    assert_eq!(urlencode("a-Z_0.~"), "a-Z_0.~");
    assert_eq!(urlencode("a b/ц"), "a%20b%2F%D1%86");
}

#[test]
fn base64url_decodes_without_padding() {
    assert_eq!(decode_base64url("aGVsbG8").unwrap(), b"hello");
    assert_eq!(decode_base64url("-_8").unwrap(), vec![0xfb, 0xff]);
    assert_eq!(decode_base64url("a").unwrap(), Vec::<u8>::new());
    assert_eq!(decode_base64url("aGk=garbage").unwrap(), b"hi");
    assert!(decode_base64url("a+b").is_none());
}

fn env(issuer: Option<&str>) -> OidcEnv {
    OidcEnv {
        issuer_url: issuer.map(str::to_owned),
        client_id: Some("rent".to_owned()),
        client_secret: Some("SECRET-REDACTED".to_owned()),
        redirect_url: Some("https://rent.example/api/v1/auth/oidc/callback".to_owned()),
        scopes: Some("  profile   email ".to_owned()),
        post_login_path: None,
        login_path: Some(" ".to_owned()),
        post_logout_url: None,
        label: None,
        roles_claim: None,
        trusted_audiences: None,
    }
}

#[test]
fn oidc_config_needs_every_required_variable() {
    assert!(OidcConfig::from_env(&env(None)).is_none());
    assert!(OidcConfig::from_env(&env(Some("   "))).is_none());
    let config = OidcConfig::from_env(&env(Some("https://id.example"))).expect("config");
    assert_eq!(config.roles_claim, DEFAULT_ROLES_CLAIM);
    assert_eq!(config.scopes, vec!["profile".to_owned(), "email".to_owned()]);
    assert_eq!(config.login_path, "/auth/login");
    assert_eq!(config.label, "Zitadel");
    assert!(config.trusted_audiences.is_empty());
    let providers = auth_providers(Some(&config));
    assert!(providers.oidc.is_some());
    assert!(auth_providers(None).oidc.is_none());
}

#[test]
fn callback_with_a_foreign_state_fails() {
    let flow = OidcFlow {
        state: "s1".to_owned(),
        nonce: "n1".to_owned(),
        verifier: "v1".to_owned(),
    };
    let params = CallbackParams {
        code: Some("c".to_owned()),
        state: Some("s2".to_owned()),
        error: None,
    };
    match callback_step(Some(flow.clone()), params, "/auth/login") {
        CallbackStep::Redirect(url) => assert_eq!(url, "/auth/login?oidc_error=state"),
        _ => panic!("a foreign state must fail"),
    }
    let params = CallbackParams {
        code: Some("c".to_owned()),
        state: Some("s1".to_owned()),
        error: None,
    };
    match callback_step(Some(flow), params, "/auth/login") {
        CallbackStep::Exchange { code, verifier, nonce } => {
            assert_eq!((code.as_str(), verifier.as_str(), nonce.as_str()), ("c", "v1", "n1"))
        }
        _ => panic!("a matching state goes on to the exchange"),
    }
    let refused = CallbackParams {
        code: None,
        state: None,
        error: Some("access_denied".to_owned()),
    };
    match callback_step(None, refused, "/auth/login") {
        CallbackStep::Redirect(url) => assert_eq!(url, "/auth/login?oidc_error=denied"),
        _ => panic!("a refusal goes back to the login page"),
    }
}

#[test]
fn logout_goes_to_the_provider_only_when_it_has_an_endpoint() {
    assert_eq!(logout_target(None, Some("t"), "https://rent.example/"), "https://rent.example/");
    assert_eq!(
        logout_target(Some("https://id.example/end"), None, "https://rent.example/"),
        "https://id.example/end?post_logout_redirect_uri=https%3A%2F%2Frent.example%2F"
    );
}

#[test]
fn display_name_prefers_name_then_login_then_email() {
    assert_eq!(display_name(Some("Имя".to_owned()), Some("login".to_owned()), "e@x".to_owned()), "Имя");
    assert_eq!(display_name(None, Some("login".to_owned()), "e@x".to_owned()), "login");
    assert_eq!(display_name(None, None, "e@x".to_owned()), "e@x");
}

fn token_with_payload(json: &str) -> String {
    const ALPHABET: &[u8; 64] = b"ABCDEFGHIJKLMNOPQRSTUVWXYZabcdefghijklmnopqrstuvwxyz0123456789-_";
    let mut encoded = String::new();
    for chunk in json.as_bytes().chunks(3) {
        let b = |i: usize| chunk.get(i).copied().unwrap_or(0) as u32;
        let block = (b(0) << 16) | (b(1) << 8) | b(2);
        let take = chunk.len() + 1;
        for i in 0..take {
            let index = ((block >> (18 - 6 * i)) & 0x3F) as usize;
            encoded.push(char::from(ALPHABET[index]));
        }
    }
    format!("header.{encoded}.signature")
}

fn roles_from_id_token(raw_token: &str, claim: &str) -> Vec<String> {
    tou_http::oidc::roles::ordered_role_names(tou_http::oidc::roles::role_claim_names(
        raw_token, claim,
    ))
}

#[test]
fn zitadel_roles_claim_maps_to_domain_roles() {
    let token = token_with_payload(&format!(
        r#"{{"sub":"42","{DEFAULT_ROLES_CLAIM}":{{"organizer":{{"org-1":"tou.edu.kz"}},"secretary":{{"org-1":"tou.edu.kz"}}}}}}"#
    ));
    assert_eq!(
        roles_from_id_token(&token, DEFAULT_ROLES_CLAIM),
        vec!["organizer".to_owned(), "secretary".to_owned()]
    );
}

#[test]
fn array_roles_claim_is_supported() {
    let token = token_with_payload(r#"{"roles":["finance","board"]}"#);
    assert_eq!(
        roles_from_id_token(&token, "roles"),
        vec!["board".to_owned(), "finance".to_owned()]
    );
}

#[test]
fn missing_claim_yields_no_roles() {
    let token = token_with_payload(r#"{"sub":"42"}"#);
    assert!(roles_from_id_token(&token, DEFAULT_ROLES_CLAIM).is_empty());
    assert!(roles_from_id_token("not-a-token", DEFAULT_ROLES_CLAIM).is_empty());
}

#[test]
fn guest_and_repeats_are_dropped_and_names_come_sorted() {
    let token = token_with_payload(r#"{"roles":["guest","secretary",7,"admin","secretary"]}"#);
    assert_eq!(
        roles_from_id_token(&token, "roles"),
        vec!["admin".to_owned(), "secretary".to_owned()]
    );
}

#[test]
fn unknown_and_guest_roles_are_ignored() {
    let token = token_with_payload(r#"{"roles":["guest","superadmin","admin"]}"#);
    assert_eq!(roles_from_id_token(&token, "roles"), vec!["admin".to_owned()]);
}

#[test]
fn base64url_text_decodes_back_with_or_without_padding() {
    assert_eq!(decode_base64url("aGk").unwrap(), b"hi");
    assert_eq!(decode_base64url("aGk=").unwrap(), b"hi");
    assert_eq!(decode_base64url("aA").unwrap(), b"h");
    assert_eq!(decode_base64url("aA==").unwrap(), b"h");
    assert_eq!(decode_base64url("").unwrap(), b"");
    assert_eq!(decode_base64url("AAEC_-8").unwrap(), vec![0x00, 0x01, 0x02, 0xff, 0xef]);
}

#[test]
fn a_foreign_letter_before_the_padding_fails_the_decoding() {
    assert_eq!(decode_base64url("aG+k"), None);
    assert_eq!(decode_base64url("aG/k"), None);
    assert_eq!(decode_base64url("aGk!"), None);
    assert_eq!(decode_base64url("aGk=!"), Some(b"hi".to_vec()));
}
