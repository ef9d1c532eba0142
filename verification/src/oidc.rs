//! Sign-in through the external identity provider (authorization code flow
//! with PKCE). The exchange of the code, the check of the `id_token` and the
//! session live in the service; this module holds the configuration and the
//! decisions and texts of the flow: the return URLs, the locale and the
//! decoding of the token payload.
use vstd::prelude::*;

pub mod roles;

use crate::bytes::{hex_digit};
use crate::text::{
    chars_equal, chars_of, contains_char, is_white_space, is_white_space_char, string_of,
    trim_chars, trimmed,
};

verus! {

/// The claim in which Zitadel sends the project roles.
pub const DEFAULT_ROLES_CLAIM: &'static str = "urn:zitadel:iam:org:project:roles";

/// The sign-in link the login page shows for the provider.
pub const OIDC_LOGIN_URL: &'static str = "/api/v1/auth/oidc/login";

// ------------------------------------------------------------ configuration

/// The raw values of the `OIDC_*` environment variables, as read.
#[derive(Debug, Clone, Default)]
pub struct OidcEnv {
    pub issuer_url: Option<String>,
    pub client_id: Option<String>,
    pub client_secret: Option<String>,
    pub redirect_url: Option<String>,
    pub scopes: Option<String>,
    pub post_login_path: Option<String>,
    pub login_path: Option<String>,
    pub post_logout_url: Option<String>,
    pub label: Option<String>,
    pub roles_claim: Option<String>,
    pub trusted_audiences: Option<String>,
}

/// Provider configuration.
#[derive(Debug, Clone)]
pub struct OidcConfig {
    pub issuer: String,
    pub client_id: String,
    pub client_secret: String,
    /// Absolute URL of `/api/v1/auth/oidc/callback` of this deployment.
    pub redirect_url: String,
    /// Where the browser goes after a successful sign-in.
    pub post_login_path: String,
    /// Where the browser goes when the provider refuses or the flow breaks.
    pub login_path: String,
    /// Where the browser goes after sign-out (absolute URL).
    pub post_logout_url: String,
    /// Caption of the sign-in button.
    pub label: String,
    pub roles_claim: String,
    pub scopes: Vec<String>,
    /// Further `aud` values that are trusted besides the client id.
    pub trusted_audiences: Vec<String>,
}

/// A variable's value: trimmed, and absent when blank.
pub open spec fn non_empty_spec(raw: Option<Seq<char>>) -> Option<Seq<char>> {
    match raw {
        Some(s) => if trimmed(s).len() == 0 {
            None
        } else {
            Some(trimmed(s))
        },
        None => None,
    }
}

pub open spec fn opt_string_view(o: Option<String>) -> Option<Seq<char>> {
    match o {
        Some(s) => Some(s@),
        None => None,
    }
}

/// A variable's value, trimmed; `None` when missing or blank.
pub fn non_empty(raw: &Option<String>) -> (value: Option<String>)
    ensures
        opt_string_view(value) == non_empty_spec(opt_string_view(*raw)),
{
    match raw {
        None => None,
        Some(s) => {
            let chars = chars_of(s.as_str());
            let t = trim_chars(chars.as_slice());
            if t.len() == 0 {
                None
            } else {
                Some(string_of(t.as_slice()))
            }
        },
    }
}

/// The words of `s`: its maximal runs of non-white-space characters, as
/// `str::split_whitespace` yields them.
pub open spec fn words(s: Seq<char>) -> Seq<Seq<char>> {
    words_from(s, Seq::empty(), Seq::empty())
}

/// Splitting `s` when `current` is the word being read and `done` the words
/// already read.
pub open spec fn words_from(s: Seq<char>, current: Seq<char>, done: Seq<Seq<char>>) -> Seq<
    Seq<char>,
>
    decreases s.len(),
{
    let flushed = if current.len() > 0 {
        done.push(current)
    } else {
        done
    };
    if s.len() == 0 {
        flushed
    } else if is_white_space(s[0]) {
        words_from(s.drop_first(), Seq::empty(), flushed)
    } else {
        words_from(s.drop_first(), current.push(s[0]), done)
    }
}

pub open spec fn strings_view(v: Seq<String>) -> Seq<Seq<char>> {
    v.map_values(|s: String| s@)
}

/// `str::split_whitespace`, collected.
pub fn split_whitespace(text: &str) -> (parts: Vec<String>)
    ensures
        strings_view(parts@) == words(text@),
{
    let s = chars_of(text);
    let mut parts: Vec<String> = Vec::new();
    let mut current: Vec<char> = Vec::new();
    let mut i: usize = 0;
    assert(s@.skip(0) == s@);
    assert(strings_view(parts@) =~= Seq::<Seq<char>>::empty());
    assert(current@ =~= Seq::<char>::empty());
    while i < s.len()
        invariant
            i <= s.len(),
            s@ == text@,
            words(text@) == words_from(s@.skip(i as int), current@, strings_view(parts@)),
        decreases s.len() - i,
    {
        let ghost rest = s@.skip(i as int);
        let ghost done = strings_view(parts@);
        let ghost cur = current@;
        assert(rest.drop_first() == s@.skip(i + 1));
        assert(rest[0] == s@[i as int]);
        let c = s[i];
        if is_white_space_char(c) {
            if current.len() > 0 {
                let word = string_of(current.as_slice());
                parts.push(word);
                assert(strings_view(parts@) == done.push(cur));
            }
            current = Vec::new();
        } else {
            current.push(c);
        }
        i = i + 1;
    }
    let ghost done = strings_view(parts@);
    let ghost cur = current@;
    assert(s@.skip(s@.len() as int).len() == 0);
    if current.len() > 0 {
        let word = string_of(current.as_slice());
        parts.push(word);
        assert(strings_view(parts@) == done.push(cur));
    }
    parts
}

spec fn old_parts(v: Seq<String>) -> Seq<String> {
    v.drop_last()
}

/// The words of an optional variable value (none when it is unset).
pub open spec fn words_of(value: Option<Seq<char>>) -> Seq<Seq<char>> {
    match value {
        Some(s) => words(s),
        None => Seq::empty(),
    }
}

pub open spec fn or_default(value: Option<Seq<char>>, default: Seq<char>) -> Seq<char> {
    match value {
        Some(s) => s,
        None => default,
    }
}

fn or_default_text(value: Option<String>, default: &str) -> (text: String)
    ensures
        text@ == or_default(opt_string_view(value), default@),
{
    match value {
        Some(s) => s,
        None => default.to_owned(),
    }
}

impl OidcConfig {
    /// The configuration described by the environment; `None` when the
    /// provider is not configured (issuer, client id, client secret or
    /// redirect URL unset or blank).
    pub fn from_env(env: &OidcEnv) -> (config: Option<OidcConfig>)
        ensures
            config is Some <==> (non_empty_spec(opt_string_view(env.issuer_url)) is Some
                && non_empty_spec(opt_string_view(env.client_id)) is Some && non_empty_spec(
                opt_string_view(env.client_secret),
            ) is Some && non_empty_spec(opt_string_view(env.redirect_url)) is Some),
            config matches Some(c) ==> {
                &&& Some(c.issuer@) == non_empty_spec(opt_string_view(env.issuer_url))
                &&& Some(c.client_id@) == non_empty_spec(opt_string_view(env.client_id))
                &&& Some(c.client_secret@) == non_empty_spec(opt_string_view(env.client_secret))
                &&& Some(c.redirect_url@) == non_empty_spec(opt_string_view(env.redirect_url))
                &&& strings_view(c.scopes@) == words(
                    or_default(non_empty_spec(opt_string_view(env.scopes)), "openid profile email"@),
                )
                &&& c.post_login_path@ == or_default(
                    non_empty_spec(opt_string_view(env.post_login_path)),
                    "/app"@,
                )
                &&& c.login_path@ == or_default(
                    non_empty_spec(opt_string_view(env.login_path)),
                    "/auth/login"@,
                )
                &&& c.post_logout_url@ == or_default(
                    non_empty_spec(opt_string_view(env.post_logout_url)),
                    "/"@,
                )
                &&& c.label@ == or_default(non_empty_spec(opt_string_view(env.label)), "Zitadel"@)
                &&& c.roles_claim@ == or_default(
                    non_empty_spec(opt_string_view(env.roles_claim)),
                    DEFAULT_ROLES_CLAIM@,
                )
                &&& strings_view(c.trusted_audiences@) == words(
                    or_default(non_empty_spec(opt_string_view(env.trusted_audiences)), Seq::empty()),
                )
            },
    {
        let issuer = match non_empty(&env.issuer_url) {
            Some(v) => v,
            None => return None,
        };
        let client_id = match non_empty(&env.client_id) {
            Some(v) => v,
            None => return None,
        };
        let client_secret = match non_empty(&env.client_secret) {
            Some(v) => v,
            None => return None,
        };
        let redirect_url = match non_empty(&env.redirect_url) {
            Some(v) => v,
            None => return None,
        };
        let scope_text = or_default_text(non_empty(&env.scopes), "openid profile email");
        let scopes = split_whitespace(scope_text.as_str());
        let audience_text = or_default_text(non_empty(&env.trusted_audiences), "");
        proof {
            reveal_strlit("");
        }
        let trusted_audiences = split_whitespace(audience_text.as_str());
        Some(OidcConfig {
            issuer,
            client_id,
            client_secret,
            redirect_url,
            post_login_path: or_default_text(non_empty(&env.post_login_path), "/app"),
            login_path: or_default_text(non_empty(&env.login_path), "/auth/login"),
            post_logout_url: or_default_text(non_empty(&env.post_logout_url), "/"),
            label: or_default_text(non_empty(&env.label), "Zitadel"),
            roles_claim: or_default_text(non_empty(&env.roles_claim), DEFAULT_ROLES_CLAIM),
            scopes,
            trusted_audiences,
        })
    }
}

// ------------------------------------------------------------- login page

#[derive(Debug)]
pub struct OidcProviderDto {
    pub label: String,
    /// The link that starts the sign-in: plain navigation, works without JS.
    pub login_url: String,
}

#[derive(Debug)]
pub struct AuthProvidersDto {
    /// The external provider, when one is configured.
    pub oidc: Option<OidcProviderDto>,
}

/// The sign-in methods the login page offers: the provider's button only
/// where a provider is configured.
pub fn auth_providers(config: Option<&OidcConfig>) -> (dto: AuthProvidersDto)
    ensures
        dto.oidc is Some <==> config is Some,
        config matches Some(c) ==> dto.oidc->0.label@ == c.label@ && dto.oidc->0.login_url@
            == OIDC_LOGIN_URL@,
{
    match config {
        Some(c) => AuthProvidersDto {
            oidc: Some(
                OidcProviderDto { label: c.label.clone(), login_url: OIDC_LOGIN_URL.to_owned() },
            ),
        },
        None => AuthProvidersDto { oidc: None },
    }
}

/// The scopes asked for besides `openid` (which the flow adds itself).
pub fn extra_scopes(scopes: &Vec<String>) -> (extra: Vec<String>)
    ensures
        strings_view(extra@) == strings_view(scopes@).filter(|s: Seq<char>| s != "openid"@),
{
    let mut extra: Vec<String> = Vec::new();
    let openid = chars_of("openid");
    let mut i: usize = 0;
    while i < scopes.len()
        invariant
            i <= scopes.len(),
            openid@ == "openid"@,
            strings_view(extra@) == strings_view(scopes@.take(i as int)).filter(
                |s: Seq<char>| s != "openid"@,
            ),
        decreases scopes.len() - i,
    {
        let scope = chars_of(scopes[i].as_str());
        let is_openid = chars_equal(scope.as_slice(), openid.as_slice());
        proof {
            assert(strings_view(scopes@.take(i + 1)) == strings_view(scopes@.take(i as int)).push(
                scopes@[i as int]@,
            ));
            assert(strings_view(scopes@.take(i + 1)).drop_last() == strings_view(
                scopes@.take(i as int),
            ));
            reveal(Seq::filter);
        }
        if !is_openid {
            extra.push(scopes[i].clone());
            assert(strings_view(extra@) == strings_view(old_parts(extra@)).push(scopes@[i as int]@));
        }
        i = i + 1;
    }
    assert(scopes@.take(scopes@.len() as int) == scopes@);
    extra
}

// ------------------------------------------------------------ URLs of the flow

/// Characters left as they are in a query value (RFC 3986 unreserved).
pub open spec fn unreserved(b: u8) -> bool {
    (65 <= b <= 90) || (97 <= b <= 122) || (48 <= b <= 57) || b == 45 || b == 46 || b == 95
        || b == 126
}

/// Uppercase hex digit of a value below sixteen.
pub open spec fn hex_upper(d: int) -> char {
    if d < 10 {
        ((d + 48) as u32) as char
    } else {
        ((d + 55) as u32) as char
    }
}

/// Percent-encoding of the bytes of a query value: unreserved bytes as
/// they are, every other byte as `%XX` in uppercase hex.
pub open spec fn percent_encoded(bytes: Seq<u8>) -> Seq<char>
    decreases bytes.len(),
{
    if bytes.len() == 0 {
        Seq::empty()
    } else {
        let b = bytes.last();
        percent_encoded(bytes.drop_last()) + if unreserved(b) {
            seq![b as char]
        } else {
            seq!['%', hex_upper((b / 16) as int), hex_upper((b % 16) as int)]
        }
    }
}

pub(crate) fn hex_upper_of(d: u8) -> (c: char)
    requires
        d < 16,
    ensures
        c == hex_upper(d as int),
{
    match d {
        0 => '0',
        1 => '1',
        2 => '2',
        3 => '3',
        4 => '4',
        5 => '5',
        6 => '6',
        7 => '7',
        8 => '8',
        9 => '9',
        10 => 'A',
        11 => 'B',
        12 => 'C',
        13 => 'D',
        14 => 'E',
        _ => 'F',
    }
}

/// Appends the percent-encoding of the UTF-8 bytes of `value` to `out`.
fn push_urlencoded(out: &mut Vec<char>, value: &str)
    ensures
        final(out)@ == old(out)@ + percent_encoded(vstd::utf8::encode_utf8(value@)),
{
    let bytes = value.as_bytes();
    let mut i: usize = 0;
    while i < bytes.len()
        invariant
            i <= bytes.len(),
            bytes@ == vstd::utf8::encode_utf8(value@),
            out@ == old(out)@ + percent_encoded(bytes@.take(i as int)),
        decreases bytes.len() - i,
    {
        let b = bytes[i];
        let ghost before = out@;
        assert(bytes@.take(i + 1).drop_last() == bytes@.take(i as int));
        if (65 <= b && b <= 90) || (97 <= b && b <= 122) || (48 <= b && b <= 57) || b == 45 || b
            == 46 || b == 95 || b == 126 {
            out.push(b as char);
            assert(out@ == before + seq![b as char]);
        } else {
            out.push('%');
            out.push(hex_upper_of(b / 16));
            out.push(hex_upper_of(b % 16));
            assert(out@ == before + seq!['%', hex_upper((b / 16) as int), hex_upper((b % 16) as int)]);
        }
        i = i + 1;
    }
    assert(bytes@.take(bytes@.len() as int) == bytes@);
}

/// Percent-encoding of a query value (RFC 3986 unreserved characters kept).
pub fn urlencode(value: &str) -> (encoded: String)
    ensures
        encoded@ == percent_encoded(vstd::utf8::encode_utf8(value@)),
{
    let mut out: Vec<char> = Vec::new();
    push_urlencoded(&mut out, value);
    string_of(out.as_slice())
}

/// The RP-initiated logout URL: where to return after sign-out, and the last
/// `id_token` as a hint when there is one.
pub open spec fn end_session_url_spec(endpoint: Seq<char>, id_token: Option<Seq<char>>, post_logout: Seq<char>) -> Seq<char> {
    endpoint + "?post_logout_redirect_uri="@ + percent_encoded(vstd::utf8::encode_utf8(post_logout))
        + match id_token {
        Some(t) => "&id_token_hint="@ + percent_encoded(vstd::utf8::encode_utf8(t)),
        None => Seq::empty(),
    }
}

pub open spec fn opt_str_view(o: Option<&str>) -> Option<Seq<char>> {
    match o {
        Some(s) => Some(s@),
        None => None,
    }
}

pub fn end_session_url(endpoint: &str, id_token: Option<&str>, post_logout: &str) -> (url: String)
    ensures
        url@ == end_session_url_spec(endpoint@, opt_str_view(id_token), post_logout@),
{
    let mut out = chars_of(endpoint);
    let mut part = chars_of("?post_logout_redirect_uri=");
    out.append(&mut part);
    push_urlencoded(&mut out, post_logout);
    match id_token {
        Some(token) => {
            let mut part = chars_of("&id_token_hint=");
            out.append(&mut part);
            push_urlencoded(&mut out, token);
        },
        None => {},
    }
    string_of(out.as_slice())
}

/// Back to the login page with the reason of the failure in the query,
/// keeping the query the page already has.
pub open spec fn failure_url_spec(login_path: Seq<char>, reason: Seq<char>) -> Seq<char> {
    login_path + (if login_path.contains('?') {
        seq!['&']
    } else {
        seq!['?']
    }) + "oidc_error="@ + reason
}

pub fn failure_url(login_path: &str, reason: &str) -> (url: String)
    ensures
        url@ == failure_url_spec(login_path@, reason@),
{
    let mut out = chars_of(login_path);
    let separator = if contains_char(out.as_slice(), '?') { '&' } else { '?' };
    out.push(separator);
    let mut part = chars_of("oidc_error=");
    out.append(&mut part);
    let mut part = chars_of(reason);
    out.append(&mut part);
    string_of(out.as_slice())
}

// ----------------------------------------------------------------- locale

/// The part of a locale tag before the first `-` or `_`.
pub open spec fn language_part(tag: Seq<char>) -> Seq<char>
    decreases tag.len(),
{
    if tag.len() == 0 || tag[0] == '-' || tag[0] == '_' {
        Seq::empty()
    } else {
        seq![tag[0]] + language_part(tag.drop_first())
    }
}

/// `char::to_ascii_lowercase`.
pub open spec fn ascii_lower(c: char) -> char {
    if 'A' <= c <= 'Z' {
        ((c as u32) + 32) as char
    } else {
        c
    }
}

/// The interface language of a provider's locale claim: `kk` or `en` when
/// the tag names them, `ru` otherwise.
pub open spec fn locale_spec(claim: Option<Seq<char>>) -> Seq<char> {
    let language = match claim {
        Some(tag) => language_part(tag).map_values(|c: char| ascii_lower(c)),
        None => "ru"@,
    };
    if language == "kk"@ {
        "kk"@
    } else if language == "en"@ {
        "en"@
    } else {
        "ru"@
    }
}

fn ascii_lower_char(c: char) -> (lower: char)
    ensures
        lower == ascii_lower(c),
{
    if 'A' <= c && c <= 'Z' {
        let u = (c as u32) + 32;
        // the lowercase letters of ASCII
        match u {
            97 => 'a',
            98 => 'b',
            99 => 'c',
            100 => 'd',
            101 => 'e',
            102 => 'f',
            103 => 'g',
            104 => 'h',
            105 => 'i',
            106 => 'j',
            107 => 'k',
            108 => 'l',
            109 => 'm',
            110 => 'n',
            111 => 'o',
            112 => 'p',
            113 => 'q',
            114 => 'r',
            115 => 's',
            116 => 't',
            117 => 'u',
            118 => 'v',
            119 => 'w',
            120 => 'x',
            121 => 'y',
            _ => 'z',
        }
    } else {
        c
    }
}

/// The interface language of the provider's locale claim (`kk-KZ` → `kk`).
pub fn locale_of(claim: Option<&str>) -> (locale: String)
    ensures
        locale@ == locale_spec(opt_str_view(claim)),
{
    let language: Vec<char> = match claim {
        None => chars_of("ru"),
        Some(tag) => {
            let t = chars_of(tag);
            let mut out: Vec<char> = Vec::new();
            let mut i: usize = 0;
            assert(t@.skip(0) == t@);
            assert(t@.take(0).map_values(|c: char| c) =~= Seq::<char>::empty());
            assert(out@ =~= t@.take(0).map_values(|c: char| ascii_lower(c)));
            while i < t.len() && t[i] != '-' && t[i] != '_'
                invariant
                    i <= t.len(),
                    t@ == tag@,
                    language_part(t@) == t@.take(i as int).map_values(|c: char| c) + language_part(t@.skip(i as int)),
                    out@ == t@.take(i as int).map_values(|c: char| ascii_lower(c)),
                    forall|j: int| 0 <= j < i ==> t@[j] != '-' && t@[j] != '_',
                decreases t.len() - i,
            {
                assert(t@.skip(i as int).drop_first() == t@.skip(i + 1));
                assert(t@.take(i + 1).map_values(|c: char| c) == t@.take(i as int).map_values(|c: char| c).push(t@[i as int]));
                assert(t@.take(i + 1).map_values(|c: char| ascii_lower(c)) == t@.take(i as int).map_values(|c: char| ascii_lower(c)).push(ascii_lower(t@[i as int])));
                out.push(ascii_lower_char(t[i]));
                i = i + 1;
            }
            assert(language_part(t@.skip(i as int)) == Seq::<char>::empty());
            assert(t@.take(i as int).map_values(|c: char| c) =~= t@.take(i as int));
            assert(language_part(t@).map_values(|c: char| ascii_lower(c)) =~= out@);
            out
        },
    };
    let kk = chars_of("kk");
    let en = chars_of("en");
    if chars_equal(language.as_slice(), kk.as_slice()) {
        "kk".to_owned()
    } else if chars_equal(language.as_slice(), en.as_slice()) {
        "en".to_owned()
    } else {
        "ru".to_owned()
    }
}

// ---------------------------------------------------------- callback and logout

/// The unfinished sign-in flow kept in the server session (never in a
/// cookie: `state` and the PKCE verifier must stay out of the browser).
#[derive(Debug, Clone)]
pub struct OidcFlow {
    pub state: String,
    pub nonce: String,
    pub verifier: String,
}

/// Query of the provider's redirect back.
#[derive(Debug, Clone)]
pub struct CallbackParams {
    pub code: Option<String>,
    pub state: Option<String>,
    /// The provider's refusal (`access_denied` and the like).
    pub error: Option<String>,
}

/// What the callback does next.
#[derive(Debug)]
pub enum CallbackStep {
    /// Send the browser back to the login page (the URL carries the reason).
    Redirect(String),
    /// Exchange the code for tokens with the flow's verifier, and check the
    /// `id_token` against the flow's nonce.
    Exchange { code: String, verifier: String, nonce: String },
}

/// The first decisions of the callback: a refusal of the provider, a flow
/// that is missing or incomplete, and a `state` that does not match the one
/// this session started with all end on the login page; only a matching
/// `state` goes on to the exchange of the code.
pub fn callback_step(flow: Option<OidcFlow>, params: CallbackParams, login_path: &str) -> (step:
    CallbackStep)
    ensures
        params.error is Some ==> (step matches CallbackStep::Redirect(url) && url@
            == failure_url_spec(login_path@, "denied"@)),
        params.error is None && (flow is None || params.code is None || params.state is None)
            ==> (step matches CallbackStep::Redirect(url) && url@ == failure_url_spec(
            login_path@,
            "flow"@,
        )),
        params.error is None && flow is Some && params.code is Some && params.state is Some
            && flow->0.state@ != params.state->0@ ==> (step matches CallbackStep::Redirect(url)
            && url@ == failure_url_spec(login_path@, "state"@)),
        step matches CallbackStep::Exchange { code, verifier, nonce } ==> params.error is None
            && flow is Some && params.state is Some && flow->0.state@ == params.state->0@
            && params.code == Some(code) && verifier == flow->0.verifier && nonce
            == flow->0.nonce,
        params.error is None && flow is Some && params.code is Some && params.state is Some
            && flow->0.state@ == params.state->0@ ==> step is Exchange,
{
    if params.error.is_some() {
        return CallbackStep::Redirect(failure_url(login_path, "denied"));
    }
    let (flow, code, returned) = match (flow, params.code, params.state) {
        (Some(flow), Some(code), Some(returned)) => (flow, code, returned),
        _ => return CallbackStep::Redirect(failure_url(login_path, "flow")),
    };
    let expected = chars_of(flow.state.as_str());
    let got = chars_of(returned.as_str());
    if !chars_equal(expected.as_slice(), got.as_slice()) {
        return CallbackStep::Redirect(failure_url(login_path, "state"));
    }
    CallbackStep::Exchange { code, verifier: flow.verifier, nonce: flow.nonce }
}

/// Where the browser goes after sign-out: the provider's end-session
/// endpoint (with the return target and the `id_token` hint) when discovery
/// gave one, the return target itself otherwise.
pub fn logout_target(end_session_endpoint: Option<&str>, id_token: Option<&str>, post_logout_url: &str) -> (target: String)
    ensures
        target@ == match opt_str_view(end_session_endpoint) {
            Some(endpoint) => end_session_url_spec(endpoint, opt_str_view(id_token), post_logout_url@),
            None => post_logout_url@,
        },
{
    match end_session_endpoint {
        Some(endpoint) => end_session_url(endpoint, id_token, post_logout_url),
        None => post_logout_url.to_owned(),
    }
}

/// The full name of a user signing in through the provider: the `name`
/// claim, else the login, else the email.
pub fn display_name(name: Option<String>, login: Option<String>, email: String) -> (full_name:
    String)
    ensures
        full_name@ == match name {
            Some(n) => n@,
            None => match login {
                Some(l) => l@,
                None => email@,
            },
        },
{
    match name {
        Some(n) => n,
        None => match login {
            Some(l) => l,
            None => email,
        },
    }
}

// ------------------------------------------------------------- token payload

/// The value of a base64url letter (RFC 4648 § 5).
pub open spec fn b64_index(b: u8) -> Option<nat> {
    if 65 <= b <= 90 {
        Some((b - 65) as nat)
    } else if 97 <= b <= 122 {
        Some((b - 71) as nat)
    } else if 48 <= b <= 57 {
        Some((b + 4) as nat)
    } else if b == 45 {
        Some(62)
    } else if b == 95 {
        Some(63)
    } else {
        None
    }
}

/// The input up to the first padding character `=`.
pub open spec fn before_pad(s: Seq<u8>) -> Seq<u8>
    decreases s.len(),
{
    if s.len() == 0 {
        s
    } else if s[0] == 61 {
        Seq::empty()
    } else {
        seq![s[0]] + before_pad(s.drop_first())
    }
}

/// Decoding state after reading `s`: the bytes completed, the value of the
/// bits not yet used, and how many there are. `None` once a character
/// outside the alphabet was read.
pub open spec fn b64_run(s: Seq<u8>) -> Option<(Seq<u8>, nat, nat)>
    decreases s.len(),
{
    if s.len() == 0 {
        Some((Seq::empty(), 0, 0))
    } else {
        match b64_run(s.drop_last()) {
            None => None,
            Some((out, acc, bits)) => match b64_index(s.last()) {
                None => None,
                Some(i) => {
                    let acc1 = acc * 64 + i;
                    let bits1 = bits + 6;
                    if bits1 >= 8 {
                        let rest = (bits1 - 8) as nat;
                        Some(
                            (
                                out.push((acc1 / vstd::arithmetic::power2::pow2(rest)) as u8),
                                acc1 % vstd::arithmetic::power2::pow2(rest),
                                rest,
                            ),
                        )
                    } else {
                        Some((out, acc1, bits1))
                    }
                },
            },
        }
    }
}

/// base64url without padding (RFC 7515 § 2): six bits per letter, a byte
/// for every eight bits read, up to the first `=`; leftover bits are
/// dropped; a character outside the alphabet makes the whole input invalid.
pub open spec fn base64url_decoded(input: Seq<char>) -> Option<Seq<u8>> {
    match b64_run(before_pad(vstd::utf8::encode_utf8(input))) {
        Some((out, _, _)) => Some(out),
        None => None,
    }
}

proof fn lemma_b64_run_none_extends(a: Seq<u8>, x: Seq<u8>)
    requires
        b64_run(a) is None,
    ensures
        b64_run(a + x) is None,
    decreases x.len(),
{
    if x.len() > 0 {
        lemma_b64_run_none_extends(a, x.drop_last());
        assert((a + x).drop_last() == a + x.drop_last());
    } else {
        assert(a + x == a);
    }
}

/// The run of letters fails exactly when one of them is outside the
/// alphabet.
proof fn lemma_b64_run_fails_on_a_foreign_letter(s: Seq<u8>)
    ensures
        b64_run(s) is None <==> exists|i: int| 0 <= i < s.len() && #[trigger] b64_index(s[i]) is None,
    decreases s.len(),
{
    if s.len() > 0 {
        let p = s.drop_last();
        lemma_b64_run_fails_on_a_foreign_letter(p);
        if b64_run(s) is None {
            if b64_run(p) is None {
                let i = choose|i: int| 0 <= i < p.len() && #[trigger] b64_index(p[i]) is None;
                assert(s[i] == p[i]);
            } else {
                assert(b64_index(s[s.len() - 1]) is None);
            }
        } else {
            assert forall|i: int| 0 <= i < s.len() implies !(#[trigger] b64_index(s[i]) is None) by {
                if i < s.len() - 1 {
                    assert(s[i] == p[i]);
                }
            }
        }
    }
}

/// A base64url text fails to decode exactly when a character before its
/// first `=` is not one of `A`–`Z`, `a`–`z`, `0`–`9`, `-` and `_`; whatever
/// follows the first `=` is never read.
pub proof fn decoding_fails_only_on_a_foreign_letter(input: Seq<char>)
    ensures
        base64url_decoded(input) is None <==> exists|i: int|
            0 <= i < before_pad(vstd::utf8::encode_utf8(input)).len()
                && #[trigger] b64_index(before_pad(vstd::utf8::encode_utf8(input))[i]) is None,
{
    lemma_b64_run_fails_on_a_foreign_letter(before_pad(vstd::utf8::encode_utf8(input)));
}

/// The base64url letter of a six-bit value (RFC 4648 § 5), as its ASCII
/// byte.
pub open spec fn b64_letter(v: nat) -> u8 {
    if v < 26 {
        (65 + v) as u8
    } else if v < 52 {
        (71 + v) as u8
    } else if v < 62 {
        (v - 4) as u8
    } else if v == 62 {
        45
    } else {
        95
    }
}

/// base64url without padding, as ASCII bytes: four letters for every three
/// bytes, then three letters for two bytes left over, or two for one.
pub open spec fn b64_encoded(b: Seq<u8>) -> Seq<u8>
    decreases b.len(),
{
    if b.len() == 0 {
        seq![]
    } else if b.len() == 1 {
        seq![b64_letter(b[0] as nat / 4), b64_letter((b[0] as nat % 4) * 16)]
    } else if b.len() == 2 {
        seq![
            b64_letter(b[0] as nat / 4),
            b64_letter((b[0] as nat % 4) * 16 + b[1] as nat / 16),
            b64_letter((b[1] as nat % 16) * 4),
        ]
    } else {
        seq![
            b64_letter(b[0] as nat / 4),
            b64_letter((b[0] as nat % 4) * 16 + b[1] as nat / 16),
            b64_letter((b[1] as nat % 16) * 4 + b[2] as nat / 64),
            b64_letter(b[2] as nat % 64),
        ] + b64_encoded(b.skip(3))
    }
}

/// The base64url text of a byte string, without padding.
pub open spec fn base64url_text(b: Seq<u8>) -> Seq<char> {
    b64_encoded(b).map_values(|x: u8| x as char)
}

/// One letter read in a decoding state.
pub open spec fn b64_step(st: Option<(Seq<u8>, nat, nat)>, c: u8) -> Option<(Seq<u8>, nat, nat)> {
    match st {
        None => None,
        Some((out, acc, bits)) => match b64_index(c) {
            None => None,
            Some(i) => {
                let acc1 = acc * 64 + i;
                let bits1 = bits + 6;
                if bits1 >= 8 {
                    let rest = (bits1 - 8) as nat;
                    Some(
                        (
                            out.push((acc1 / vstd::arithmetic::power2::pow2(rest)) as u8),
                            acc1 % vstd::arithmetic::power2::pow2(rest),
                            rest,
                        ),
                    )
                } else {
                    Some((out, acc1, bits1))
                }
            },
        },
    }
}

/// The letters of `s` read one after the other from the state `st`.
pub open spec fn b64_cont(st: Option<(Seq<u8>, nat, nat)>, s: Seq<u8>) -> Option<
    (Seq<u8>, nat, nat),
>
    decreases s.len(),
{
    if s.len() == 0 {
        st
    } else {
        b64_step(b64_cont(st, s.drop_last()), s.last())
    }
}

proof fn lemma_b64_run_is_cont(s: Seq<u8>)
    ensures
        b64_run(s) == b64_cont(Some((Seq::<u8>::empty(), 0nat, 0nat)), s),
    decreases s.len(),
{
    if s.len() > 0 {
        lemma_b64_run_is_cont(s.drop_last());
    }
}

proof fn lemma_b64_cont_concat(st: Option<(Seq<u8>, nat, nat)>, x: Seq<u8>, y: Seq<u8>)
    ensures
        b64_cont(st, x + y) == b64_cont(b64_cont(st, x), y),
    decreases y.len(),
{
    if y.len() == 0 {
        assert(x + y == x);
    } else {
        lemma_b64_cont_concat(st, x, y.drop_last());
        assert((x + y).drop_last() == x + y.drop_last());
        assert((x + y).last() == y.last());
    }
}

proof fn lemma_b64_letter_index(v: nat)
    requires
        v < 64,
    ensures
        b64_index(b64_letter(v)) == Some(v),
        b64_letter(v) != 61,
        b64_letter(v) < 128,
{
}

proof fn lemma_b64_two_letters(o: Seq<u8>, b0: u8, v1: nat)
    requires
        v1 < 16,
    ensures
        b64_cont(Some((o, 0nat, 0nat)), seq![b64_letter(b0 as nat / 4), b64_letter((b0 as nat % 4) * 16 + v1)])
            == Some((o.push(b0), v1, 4nat)),
{
    vstd::arithmetic::power2::lemma2_to64();
    let v0 = b0 as nat / 4;
    let w = (b0 as nat % 4) * 16 + v1;
    lemma_b64_letter_index(v0);
    lemma_b64_letter_index(w);
    let s = seq![b64_letter(v0), b64_letter(w)];
    assert(s.drop_last() == seq![b64_letter(v0)]);
    assert(seq![b64_letter(v0)].drop_last() == Seq::<u8>::empty());
    assert(v0 * 64 + w == 16 * (b0 as nat) + v1) by (nonlinear_arith)
        requires
            v0 == b0 as nat / 4,
            w == (b0 as nat % 4) * 16 + v1,
    ;
    assert((16 * (b0 as nat) + v1) / 16 == b0 as nat) by (nonlinear_arith)
        requires
            v1 < 16,
    ;
    assert((16 * (b0 as nat) + v1) % 16 == v1) by (nonlinear_arith)
        requires
            v1 < 16,
    ;
    let st = Some((o, 0nat, 0nat));
    let st1 = b64_cont(st, seq![b64_letter(v0)]);
    assert(b64_cont(st, Seq::<u8>::empty()) == st);
    assert(st1 == b64_step(st, b64_letter(v0)));
    assert(st1 == Some((o, v0, 6nat)));
    assert(b64_cont(st, s) == b64_step(st1, b64_letter(w)));
    assert(vstd::arithmetic::power2::pow2(4) == 16);
    assert(((16 * (b0 as nat) + v1) / 16) as u8 == b0);
}

proof fn lemma_b64_third_letter(p: Seq<u8>, b1: u8, v2: nat)
    requires
        v2 < 4,
    ensures
        b64_step(Some((p, b1 as nat / 16, 4nat)), b64_letter((b1 as nat % 16) * 4 + v2)) == Some(
            (p.push(b1), v2, 2nat),
        ),
{
    vstd::arithmetic::power2::lemma2_to64();
    let w = (b1 as nat % 16) * 4 + v2;
    lemma_b64_letter_index(w);
    assert((b1 as nat / 16) * 64 + w == 4 * (b1 as nat) + v2) by (nonlinear_arith)
        requires
            w == (b1 as nat % 16) * 4 + v2,
    ;
    assert((4 * (b1 as nat) + v2) / 4 == b1 as nat) by (nonlinear_arith)
        requires
            v2 < 4,
    ;
    assert((4 * (b1 as nat) + v2) % 4 == v2) by (nonlinear_arith)
        requires
            v2 < 4,
    ;
    assert(((4 * (b1 as nat) + v2) / 4) as u8 == b1);
}

proof fn lemma_b64_fourth_letter(q: Seq<u8>, b2: u8)
    ensures
        b64_step(Some((q, b2 as nat / 64, 2nat)), b64_letter(b2 as nat % 64)) == Some(
            (q.push(b2), 0nat, 0nat),
        ),
{
    vstd::arithmetic::power2::lemma2_to64();
    lemma_b64_letter_index(b2 as nat % 64);
    assert((b2 as nat / 64) * 64 + b2 as nat % 64 == b2 as nat);
    assert((b2 as nat) / 1 == b2 as nat);
    assert((b2 as nat) % 1 == 0);
}

/// Reading the base64url of `b` after the bytes `o` gives `o` followed by
/// `b`.
proof fn lemma_b64_encoded_decodes(o: Seq<u8>, b: Seq<u8>)
    ensures
        b64_cont(Some((o, 0nat, 0nat)), b64_encoded(b)) matches Some((out, _, _)) && out == o + b,
    decreases b.len(),
{
    let st = Some((o, 0nat, 0nat));
    if b.len() == 0 {
        assert(o + b == o);
    } else if b.len() == 1 {
        lemma_b64_two_letters(o, b[0], 0);
        assert(o.push(b[0]) == o + b);
    } else {
        let v1 = b[1] as nat / 16;
        lemma_b64_two_letters(o, b[0], v1);
        let two = seq![b64_letter(b[0] as nat / 4), b64_letter((b[0] as nat % 4) * 16 + v1)];
        let p = o.push(b[0]);
        if b.len() == 2 {
            let l2 = b64_letter((b[1] as nat % 16) * 4);
            lemma_b64_third_letter(p, b[1], 0);
            assert(b64_encoded(b) == two.push(l2));
            assert(two.push(l2).drop_last() == two);
            assert(p.push(b[1]) == o + b);
        } else {
            let v2 = b[2] as nat / 64;
            let l2 = b64_letter((b[1] as nat % 16) * 4 + v2);
            let l3 = b64_letter(b[2] as nat % 64);
            lemma_b64_third_letter(p, b[1], v2);
            lemma_b64_fourth_letter(p.push(b[1]), b[2]);
            let group = two.push(l2).push(l3);
            assert(group.drop_last() == two.push(l2));
            assert(two.push(l2).drop_last() == two);
            let o2 = p.push(b[1]).push(b[2]);
            assert(b64_cont(st, two) == Some((p, v1, 4nat)));
            assert(b64_cont(st, two.push(l2)) == b64_step(b64_cont(st, two), l2));
            assert(b64_cont(st, two.push(l2)) == Some((p.push(b[1]), v2, 2nat)));
            assert(b64_cont(st, group) == b64_step(b64_cont(st, two.push(l2)), l3));
            assert(b64_cont(st, group) == Some((o2, 0nat, 0nat)));
            assert(b64_encoded(b) == group + b64_encoded(b.skip(3)));
            lemma_b64_cont_concat(st, group, b64_encoded(b.skip(3)));
            lemma_b64_encoded_decodes(o2, b.skip(3));
            assert(o2 == o + b.take(3));
            assert(o + b.take(3) + b.skip(3) == o + b);
        }
    }
}

proof fn lemma_b64_encoded_letters(b: Seq<u8>)
    ensures
        forall|i: int|
            0 <= i < b64_encoded(b).len() ==> #[trigger] b64_encoded(b)[i] != 61 && b64_encoded(
                b,
            )[i] < 128,
    decreases b.len(),
{
    assert forall|v: nat| v < 64 implies #[trigger] b64_letter(v) != 61 && b64_letter(v) < 128 by {
        lemma_b64_letter_index(v);
    }
    let e = b64_encoded(b);
    if b.len() > 0 {
        assert(b[0] as nat / 4 < 64);
        assert((b[0] as nat % 4) * 16 < 64);
    }
    if b.len() >= 2 {
        assert((b[0] as nat % 4) * 16 + b[1] as nat / 16 < 64);
        assert((b[1] as nat % 16) * 4 < 64);
    }
    if b.len() >= 3 {
        assert((b[1] as nat % 16) * 4 + b[2] as nat / 64 < 64);
        assert(b[2] as nat % 64 < 64);
        lemma_b64_encoded_letters(b.skip(3));
        let r = b64_encoded(b.skip(3));
        assert forall|i: int| 4 <= i < e.len() implies #[trigger] e[i] == r[i - 4] by {}
    }
}

proof fn lemma_before_pad_prefix(x: Seq<u8>, y: Seq<u8>)
    requires
        forall|i: int| 0 <= i < x.len() ==> #[trigger] x[i] != 61,
    ensures
        before_pad(x + y) == x + before_pad(y),
    decreases x.len(),
{
    if x.len() == 0 {
        assert(x + y == y);
        assert(x + before_pad(y) == before_pad(y));
    } else {
        assert((x + y)[0] == x[0]);
        assert((x + y).drop_first() == x.drop_first() + y);
        lemma_before_pad_prefix(x.drop_first(), y);
        assert(x == seq![x[0]] + x.drop_first());
        assert(seq![x[0]] + (x.drop_first() + before_pad(y)) == x + before_pad(y));
    }
}

/// `n` padding characters `=`.
pub open spec fn b64_padding(n: nat) -> Seq<char> {
    Seq::new(n, |i: int| '=')
}

/// Decoding undoes base64url encoding: the text of any byte string decodes
/// to that byte string, with or without `=` padding after it.
pub proof fn decoding_undoes_encoding(bytes: Seq<u8>, padding: nat)
    ensures
        base64url_decoded(base64url_text(bytes) + b64_padding(padding)) == Some(bytes),
{
    let enc = b64_encoded(bytes);
    let chars = base64url_text(bytes) + b64_padding(padding);
    let pads = Seq::new(padding, |i: int| 61u8);
    lemma_b64_encoded_letters(bytes);
    assert forall|i: int| 0 <= i < chars.len() implies '\0' <= #[trigger] chars[i] <= '\u{7f}' by {
        if i < enc.len() {
            assert(chars[i] == enc[i] as char);
        }
    }
    vstd::utf8::is_ascii_chars_encode_utf8(chars);
    assert forall|i: int| 0 <= i < chars.len() implies #[trigger] vstd::utf8::encode_utf8(chars)[i]
        == (enc + pads)[i] by {
        if i < enc.len() {
            assert(chars[i] == enc[i] as char);
            assert((enc[i] as char) as u8 == enc[i]);
        } else {
            assert(chars[i] == '=');
        }
    }
    assert(vstd::utf8::encode_utf8(chars) == enc + pads);
    lemma_before_pad_prefix(enc, pads);
    if padding > 0 {
        assert(pads[0] == 61);
    } else {
        assert(pads.len() == 0);
    }
    assert(before_pad(pads) == Seq::<u8>::empty());
    assert(enc + Seq::<u8>::empty() == enc);
    lemma_b64_run_is_cont(enc);
    lemma_b64_encoded_decodes(Seq::<u8>::empty(), bytes);
    assert(Seq::<u8>::empty() + bytes == bytes);
}

fn b64_index_of(b: u8) -> (index: Option<u32>)
    ensures
        match b64_index(b) {
            Some(i) => index == Some(i as u32),
            None => index is None,
        },
{
    if 65 <= b && b <= 90 {
        Some((b - 65) as u32)
    } else if 97 <= b && b <= 122 {
        Some((b - 71) as u32)
    } else if 48 <= b && b <= 57 {
        Some((b + 4) as u32)
    } else if b == 45 {
        Some(62)
    } else if b == 95 {
        Some(63)
    } else {
        None
    }
}

fn pow2_small(e: u32) -> (p: u32)
    requires
        e < 8,
    ensures
        p as nat == vstd::arithmetic::power2::pow2(e as nat),
        p >= 1,
{
    proof {
        vstd::arithmetic::power2::lemma2_to64();
    }
    match e {
        0 => 1,
        1 => 2,
        2 => 4,
        3 => 8,
        4 => 16,
        5 => 32,
        6 => 64,
        _ => 128,
    }
}

/// Decodes a base64url part of a JWT.
pub fn decode_base64url(input: &str) -> (decoded: Option<Vec<u8>>)
    ensures
        match decoded {
            Some(d) => base64url_decoded(input@) == Some(d@),
            None => base64url_decoded(input@) is None,
        },
{
    let bytes = input.as_bytes();
    let mut out: Vec<u8> = Vec::new();
    let mut acc: u32 = 0;
    let mut bits: u32 = 0;
    let mut i: usize = 0;
    proof {
        vstd::arithmetic::power2::lemma2_to64();
        assert(bytes@.skip(0) == bytes@);
        assert(bytes@.take(0) =~= Seq::<u8>::empty());
        assert(Seq::<u8>::empty() + bytes@ =~= bytes@);
    }
    while i < bytes.len() && bytes[i] != 61
        invariant
            i <= bytes.len(),
            bytes@ == vstd::utf8::encode_utf8(input@),
            before_pad(bytes@) == bytes@.take(i as int) + before_pad(bytes@.skip(i as int)),
            b64_run(bytes@.take(i as int)) == Some((out@, acc as nat, bits as nat)),
            bits < 8,
            (acc as nat) < vstd::arithmetic::power2::pow2(bits as nat),
        decreases bytes.len() - i,
    {
        let b = bytes[i];
        proof {
            let rest = bytes@.skip(i as int);
            assert(rest[0] == b);
            assert(rest.drop_first() == bytes@.skip(i + 1));
            assert(before_pad(rest) == seq![b] + before_pad(bytes@.skip(i + 1)));
            assert(bytes@.take(i + 1) == bytes@.take(i as int).push(b));
            assert(bytes@.take(i as int) + before_pad(rest) == bytes@.take(i + 1) + before_pad(
                bytes@.skip(i + 1),
            ));
            assert(bytes@.take(i + 1).drop_last() == bytes@.take(i as int));
            vstd::arithmetic::power2::lemma2_to64();
        }
        let index = match b64_index_of(b) {
            Some(index) => index,
            None => {
                proof {
                    assert(b64_run(bytes@.take(i + 1)) is None);
                    lemma_b64_run_none_extends(bytes@.take(i + 1), before_pad(bytes@.skip(i + 1)));
                }
                return None;
            },
        };
        proof {
            assert(acc * 64 + index < 16384) by (nonlinear_arith)
                requires
                    acc < 256,
                    index < 64,
            ;
        }
        acc = acc * 64 + index;
        bits = bits + 6;
        if bits >= 8 {
            bits = bits - 8;
            let p = pow2_small(bits);
            proof {
                assert(acc / p < 256) by (nonlinear_arith)
                    requires
                        acc < p * 256,
                        p >= 1,
                ;
                assert(acc < p * 256) by {
                    vstd::arithmetic::power2::lemma_pow2_adds(bits as nat, 8);
                }
            }
            out.push((acc / p) as u8);
            acc = acc % p;
        }
        i = i + 1;
    }
    proof {
        if i < bytes.len() {
            assert(bytes@.skip(i as int)[0] == 61);
            assert(before_pad(bytes@.skip(i as int)) == Seq::<u8>::empty());
        } else {
            assert(bytes@.skip(i as int).len() == 0);
        }
        assert(before_pad(bytes@) =~= bytes@.take(i as int));
    }
    Some(out)
}

} // verus!
