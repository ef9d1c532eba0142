//! CSRF double-submit cookie bound to the session.
//!
//! Sign-in issues one random token to two places: a cookie the client can
//! read (and sends back in the `x-csrf-token` header of every mutation) and
//! the server session. On unsafe methods the cookie, the header and the
//! session must carry the same token: a pair that only agrees with itself
//! proves nothing, since whoever can set a cookie on the domain sets both
//! halves; the third half lives on the server only.
use vstd::prelude::*;
use vstd::utf8::encode_utf8_decode_utf8;

use crate::bytes::{hex_lower, push_hex_lower};
use crate::text::{chars_equal, chars_of, header_chars, header_text, string_of};

verus! {

pub const CSRF_COOKIE: &'static str = "tou_csrf";

pub const CSRF_HEADER: &'static str = "x-csrf-token";

/// Key of the token in the session.
pub const SESSION_CSRF_KEY: &'static str = "csrf_token";

/// Mutations reachable before sign-in: there is no session and no token to
/// ask for yet. Every other mutation is protected (fail-closed).
pub open spec fn exempt_path(path: Seq<char>) -> bool {
    path == "/api/v1/auth/login"@ || path == "/api/v1/auth/register"@ || path
        == "/api/v1/auth/confirm-registration"@
}

/// The safe methods, which pass without a token.
pub open spec fn safe_method(method: Seq<char>) -> bool {
    method == "GET"@ || method == "HEAD"@ || method == "OPTIONS"@
}

pub fn is_safe_method(method: &str) -> (safe: bool)
    ensures
        safe == safe_method(method@),
{
    let m = chars_of(method);
    let get = chars_of("GET");
    let head = chars_of("HEAD");
    let options = chars_of("OPTIONS");
    chars_equal(&m, &get) || chars_equal(&m, &head) || chars_equal(&m, &options)
}

pub fn is_exempt(path: &str) -> (exempt: bool)
    ensures
        exempt == exempt_path(path@),
{
    let p = chars_of(path);
    let login = chars_of("/api/v1/auth/login");
    let register = chars_of("/api/v1/auth/register");
    let confirm = chars_of("/api/v1/auth/confirm-registration");
    chars_equal(&p, &login) || chars_equal(&p, &register) || chars_equal(&p, &confirm)
}

/// Compares two secrets in time that does not depend on the length of the
/// common prefix: the header comes from the client, who chooses it.
pub fn same_secret(left: &str, right: &str) -> (same: bool)
    ensures
        same == (left@ == right@),
{
    let l = left.as_bytes();
    let r = right.as_bytes();
    proof {
        encode_utf8_decode_utf8(left@);
        encode_utf8_decode_utf8(right@);
    }
    if l.len() != r.len() {
        return false;
    }
    let mut acc: u8 = 0;
    let mut i: usize = 0;
    assert(l@.take(0) =~= r@.take(0));
    while i < l.len()
        invariant
            i <= l.len() == r.len(),
            acc == 0 <==> l@.take(i as int) == r@.take(i as int),
        decreases l.len() - i,
    {
        let a = l[i];
        let b = r[i];
        let next = acc | (a ^ b);
        assert(next == 0 <==> (acc == 0 && a == b)) by (bit_vector)
            requires
                next == acc | (a ^ b),
        ;
        proof {
            assert(l@.take(i + 1) == l@.take(i as int).push(a));
            assert(r@.take(i + 1) == r@.take(i as int).push(b));
            if l@.take(i + 1) == r@.take(i + 1) {
                assert(l@.take(i + 1).drop_last() == l@.take(i as int));
                assert(r@.take(i + 1).drop_last() == r@.take(i as int));
                assert(l@.take(i + 1).last() == a);
                assert(r@.take(i + 1).last() == b);
            }
        }
        acc = next;
        i = i + 1;
    }
    assert(l@.take(l@.len() as int) == l@);
    assert(r@.take(r@.len() as int) == r@);
    acc == 0
}

/// The verdict of the double-submit check: safe methods and the pre-sign-in
/// paths pass; any other request passes only when the cookie, the header
/// (read as text) and the session all carry one and the same token.
pub open spec fn csrf_verdict(
    method: Seq<char>,
    path: Seq<char>,
    cookie: Option<Seq<char>>,
    header: Option<Seq<u8>>,
    session: Option<Seq<char>>,
) -> bool {
    safe_method(method) || exempt_path(path) || match (cookie, header, session) {
        (Some(c), Some(h), Some(s)) => header_chars(h) == Some(c) && s == c,
        _ => false,
    }
}

/// Signing in, registering and confirming a registration happen before
/// there is a session: a request to `/api/v1/auth/login`,
/// `/api/v1/auth/register` or `/api/v1/auth/confirm-registration` passes
/// the check whatever its method, with or without cookie, header and
/// session token.
pub proof fn sign_in_and_registration_need_no_token(
    method: Seq<char>,
    path: Seq<char>,
    cookie: Option<Seq<char>>,
    header: Option<Seq<u8>>,
    session: Option<Seq<char>>,
)
    requires
        path == "/api/v1/auth/login"@ || path == "/api/v1/auth/register"@ || path
            == "/api/v1/auth/confirm-registration"@,
    ensures
        csrf_verdict(method, path, cookie, header, session),
{
}

/// Any other mutating request without the cookie is refused: a `POST`,
/// `PUT`, `PATCH` or `DELETE` elsewhere than the sign-in and registration
/// paths, with no token cookie, fails the check.
pub proof fn a_mutation_without_the_cookie_is_refused(
    method: Seq<char>,
    path: Seq<char>,
    header: Option<Seq<u8>>,
    session: Option<Seq<char>>,
)
    requires
        method == "POST"@ || method == "PUT"@ || method == "PATCH"@ || method == "DELETE"@,
        path != "/api/v1/auth/login"@,
        path != "/api/v1/auth/register"@,
        path != "/api/v1/auth/confirm-registration"@,
    ensures
        !csrf_verdict(method, path, None, header, session),
{
    reveal_strlit("POST");
    reveal_strlit("PUT");
    reveal_strlit("PATCH");
    reveal_strlit("DELETE");
    reveal_strlit("GET");
    reveal_strlit("HEAD");
    reveal_strlit("OPTIONS");
    assert("POST"@[0] == 'P' && "PUT"@[0] == 'P' && "PATCH"@[0] == 'P' && "DELETE"@[0] == 'D');
    assert("GET"@[0] == 'G' && "HEAD"@[0] == 'H' && "OPTIONS"@[0] == 'O');
}

pub open spec fn opt_str_view(o: Option<&str>) -> Option<Seq<char>> {
    match o {
        Some(s) => Some(s@),
        None => None,
    }
}

pub open spec fn opt_bytes_view(o: Option<&[u8]>) -> Option<Seq<u8>> {
    match o {
        Some(s) => Some(s@),
        None => None,
    }
}

/// Whether a request passes the CSRF check: its method and path, the token
/// cookie, the raw bytes of the token header and the token in the session.
pub fn csrf_passes(
    method: &str,
    path: &str,
    cookie: Option<&str>,
    header: Option<&[u8]>,
    session: Option<&str>,
) -> (passes: bool)
    ensures
        passes == csrf_verdict(
            method@,
            path@,
            opt_str_view(cookie),
            opt_bytes_view(header),
            opt_str_view(session),
        ),
{
    if is_safe_method(method) || is_exempt(path) {
        return true;
    }
    match (cookie, header, session) {
        (Some(cookie), Some(header), Some(session)) => {
            let header = match header_text(header) {
                Some(text) => string_of(text.as_slice()),
                None => return false,
            };
            same_secret(cookie, header.as_str()) && same_secret(cookie, session)
        },
        _ => false,
    }
}

/// A fresh token: 32 random bytes in lowercase hex (64 characters).
pub fn random_token() -> (token: String)
    ensures
        exists|bytes: Seq<u8>| bytes.len() == 32 && token@ == hex_lower(bytes),
{
    let bytes = crate::bytes::random_bytes(32);
    let mut out: Vec<char> = Vec::new();
    push_hex_lower(&mut out, bytes.as_slice());
    assert(out@ =~= hex_lower(bytes@));
    string_of(out.as_slice())
}

/// `SameSite` of a cookie.
#[derive(Debug, Clone, Copy, PartialEq, Eq, Structural)]
pub enum SameSite {
    Strict,
    Lax,
    NoRestriction,
}

/// The attributes of the token cookie. `http_only` is off on purpose: the
/// client reads the value to send it back in the header.
#[derive(Debug, Clone)]
pub struct TokenCookie {
    pub name: String,
    pub value: String,
    pub path: String,
    pub http_only: bool,
    pub same_site: SameSite,
    /// Same value as the session cookie's `Secure`.
    pub secure: bool,
    /// A removal copy, expiring at once (`Max-Age=0`).
    pub removal: bool,
}

/// The cookie that carries a token: readable by the client, `SameSite=Lax`,
/// on the whole site, as secure as the session cookie.
pub open spec fn issued_cookie(cookie: TokenCookie, token: Seq<char>, secure: bool) -> bool {
    &&& cookie.name@ == CSRF_COOKIE@
    &&& cookie.value@ == token
    &&& cookie.path@ == "/"@
    &&& !cookie.http_only
    &&& cookie.same_site == SameSite::Lax
    &&& cookie.secure == secure
    &&& !cookie.removal
}

/// The copy that removes the token cookie: empty and expiring at once.
pub open spec fn removal_cookie(cookie: TokenCookie, secure: bool) -> bool {
    &&& cookie.name@ == CSRF_COOKIE@
    &&& cookie.value@ == Seq::<char>::empty()
    &&& cookie.path@ == "/"@
    &&& cookie.secure == secure
    &&& cookie.removal
}

/// The cookie that carries `token`.
pub fn token_cookie(token: String, secure: bool) -> (cookie: TokenCookie)
    ensures
        issued_cookie(cookie, token@, secure),
        cookie.value == token,
{
    TokenCookie {
        name: CSRF_COOKIE.to_owned(),
        value: token,
        path: "/".to_owned(),
        http_only: false,
        same_site: SameSite::Lax,
        secure,
        removal: false,
    }
}

/// The copy that removes the token cookie on sign-out: same name and path
/// as the issued one (otherwise the browser removes another cookie), empty
/// value, expiring at once.
pub fn revoke(secure: bool) -> (cookie: TokenCookie)
    ensures
        removal_cookie(cookie, secure),
{
    let mut cookie = token_cookie(String::new(), secure);
    cookie.removal = true;
    cookie
}

/// Sign-out removes the very cookie that sign-in issued: the removal copy
/// has its name, its path and its `Secure`, so the browser drops that
/// cookie and not another.
pub proof fn removal_targets_the_issued_cookie(
    issued: TokenCookie,
    token: Seq<char>,
    removal: TokenCookie,
    secure: bool,
)
    requires
        issued_cookie(issued, token, secure),
        removal_cookie(removal, secure),
    ensures
        removal.name@ == issued.name@,
        removal.path@ == issued.path@,
        removal.secure == issued.secure,
        removal.removal && removal.value@.len() == 0,
{
}

} // verus!
