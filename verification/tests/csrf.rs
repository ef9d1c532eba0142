use tou_http::csrf::{csrf_passes, random_token, revoke, same_secret, token_cookie, SameSite, CSRF_COOKIE};

#[test]
fn csrf_safe_methods_pass_without_token() {
    assert!(csrf_passes("GET", "/issue", None, None, None));
    assert!(csrf_passes("POST", "/api/v1/auth/login", None, None, None));
    assert!(!csrf_passes("POST", "/mutate", None, None, None));
}

#[test]
fn csrf_token_of_another_session_is_rejected() {
    let mine = random_token();
    let theirs = random_token();
    assert!(csrf_passes("POST", "/mutate", Some(&mine), Some(mine.as_bytes()), Some(&mine)));
    assert!(!csrf_passes(
        "POST",
        "/mutate",
        Some(&theirs),
        Some(theirs.as_bytes()),
        Some(&mine)
    ));
    assert!(!csrf_passes("POST", "/mutate", Some(&mine), Some(theirs.as_bytes()), Some(&mine)));
    assert!(!csrf_passes("POST", "/mutate", Some(&mine), Some(b"\xff"), Some(&mine)));
}

#[test]
fn tokens_are_long_hex_and_fresh() {
    let token = random_token();
    assert_eq!(token.len(), 64);
    assert!(token.bytes().all(|b| b.is_ascii_digit() || (b'a'..=b'f').contains(&b)));
    assert_ne!(token, random_token());
}

#[test]
fn same_secret_compares_whole_values() {
    assert!(same_secret("abc", "abc"));
    assert!(!same_secret("abc", "abd"));
    assert!(!same_secret("abc", "abcd"));
    assert!(!same_secret("", "a"));
}

#[test]
fn logout_expires_the_same_cookie() {
    let issued = token_cookie("t".to_owned(), true);
    let removal = revoke(true);
    assert_eq!(issued.name, CSRF_COOKIE);
    assert_eq!(removal.name, issued.name);
    assert_eq!(removal.path, issued.path);
    assert!(removal.removal && removal.value.is_empty());
    assert!(!issued.http_only);
    assert_eq!(issued.same_site, SameSite::Lax);
    assert!(issued.secure && removal.secure);
}
