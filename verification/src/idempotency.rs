//! Idempotency of mutations by the `Idempotency-Key` header.
//!
//! The first answer to a mutation is kept and handed back to a repeat with the
//! same key. The journal key binds the user, the method and the path together
//! with the client's key, so that one person's key never returns another
//! person's answer. Only mutations are guarded, only signed-in users, and only
//! final JSON answers are kept: a server error or a rate-limit refusal invites
//! a retry and must not be pinned. A parallel repeat, arriving while the first
//! request still runs, is refused with 409.
//!
//! The Redis calls themselves (`SET NX GET`, `SET EX`, `DEL`) are made by the
//! surrounding service; this module decides what to ask and what to answer.
use sha2::{Digest as _, Sha256};
use vstd::prelude::*;
use vstd::utf8::{encode_utf8, encode_utf8_decode_utf8};

use crate::bytes::{hex_lower, push_hex_lower, uuid_chars, uuid_text};
use crate::error::ApiError;
use crate::text::{
    chars_equal, chars_of, header_chars, header_text, starts_with, string_of, trim_chars, trimmed,
};

verus! {

#[verifier::external_type_specification]
#[verifier::external_body]
pub struct ExPool(fred::clients::Pool);

/// The request header of the idempotency key (lower case, as `HeaderMap`
/// keeps it).
pub const IDEMPOTENCY_HEADER: &'static str = "idempotency-key";

/// Marks an answer that was handed back from the journal.
pub const REPLAY_HEADER: &'static str = "idempotent-replay";

/// Journal value of a request that is still running. It does not parse as
/// JSON, which is all that tells it apart from a recorded answer.
pub const IN_FLIGHT: &'static str = "in-flight";

/// Lifetime of the "in flight" mark: longer than the request time limit.
pub const IN_FLIGHT_TTL_SECONDS: i64 = 60;

/// Lifetime of a recorded answer: one day.
pub const STORED_TTL_SECONDS: i64 = 86400;

/// Largest body worth keeping in Redis.
pub const MAX_STORED_BODY_BYTES: usize = 65536;

/// Longest client key accepted, in characters.
pub const MAX_KEY_CHARS: usize = 255;

/// The idempotency journal, in the same Redis as the sessions. Without a
/// pool (tests, contract export) the layer changes nothing.
#[derive(Clone)]
pub struct IdempotencyStore {
    pool: Option<fred::clients::Pool>,
}

impl IdempotencyStore {
    /// Whether a Redis pool backs the journal.
    pub closed spec fn attached(&self) -> bool {
        self.pool is Some
    }

    pub fn new(pool: fred::clients::Pool) -> (store: Self)
        ensures
            store.attached(),
    {
        IdempotencyStore { pool: Some(pool) }
    }

    /// The pool of the journal, if one is attached.
    pub fn pool(&self) -> (pool: Option<&fred::clients::Pool>)
        ensures
            pool is Some == self.attached(),
    {
        match &self.pool {
            Some(pool) => Some(pool),
            None => None,
        }
    }
}

impl Default for IdempotencyStore {
    fn default() -> (store: Self)
        ensures
            !store.attached(),
    {
        IdempotencyStore { pool: None }
    }
}

/// A recorded answer: status, content type and body.
#[derive(Debug, Clone)]
pub struct StoredResponse {
    pub status: u16,
    pub content_type: Option<String>,
    pub body: String,
}

/// The mutating methods, the only ones under the layer.
pub open spec fn guarded_method(method: Seq<char>) -> bool {
    method == "POST"@ || method == "PUT"@ || method == "PATCH"@ || method == "DELETE"@
}

/// Whether requests with this method are under the layer.
pub fn is_guarded(method: &str) -> (guarded: bool)
    ensures
        guarded == guarded_method(method@),
{
    let m = chars_of(method);
    let post = chars_of("POST");
    let put = chars_of("PUT");
    let patch = chars_of("PATCH");
    let delete = chars_of("DELETE");
    chars_equal(&m, &post) || chars_equal(&m, &put) || chars_equal(&m, &patch) || chars_equal(
        &m,
        &delete,
    )
}

/// What the `Idempotency-Key` header asks for: `Ok(None)` without the
/// header, the trimmed key when it is usable, and an error that the client
/// must see when it is present but unusable.
pub open spec fn header_key_spec(raw: Option<Seq<u8>>) -> Result<Option<Seq<char>>, Seq<char>> {
    match raw {
        None => Ok(None),
        Some(bytes) => match header_chars(bytes) {
            None => Err("Idempotency-Key: ожидается печатный ASCII"@),
            Some(text) => {
                let key = trimmed(text);
                if key.len() == 0 {
                    Err("Idempotency-Key: пустое значение"@)
                } else if key.len() > MAX_KEY_CHARS {
                    Err("Idempotency-Key: не длиннее 255 символов"@)
                } else {
                    Ok(Some(key))
                }
            },
        },
    }
}

pub open spec fn key_result_view(r: Result<Option<String>, ApiError>) -> Result<
    Option<Seq<char>>,
    Seq<char>,
> {
    match r {
        Ok(None) => Ok(None),
        Ok(Some(k)) => Ok(Some(k@)),
        Err(ApiError::BadRequest(detail)) => Err(detail@),
        Err(_) => Err(Seq::empty()),
    }
}

/// The client key from the raw bytes of the header, if it is present.
pub fn header_key(raw: Option<&[u8]>) -> (key: Result<Option<String>, ApiError>)
    ensures
        key_result_view(key) == header_key_spec(
            match raw {
                Some(b) => Some(b@),
                None => None,
            },
        ),
        key is Err ==> key->Err_0 is BadRequest,
{
    let raw = match raw {
        None => return Ok(None),
        Some(raw) => raw,
    };
    let text = match header_text(raw) {
        None => {
            return Err(ApiError::bad_request("Idempotency-Key: ожидается печатный ASCII".to_owned()));
        },
        Some(text) => text,
    };
    let key = trim_chars(text.as_slice());
    if key.len() == 0 {
        return Err(ApiError::bad_request("Idempotency-Key: пустое значение".to_owned()));
    }
    if key.len() > MAX_KEY_CHARS {
        return Err(ApiError::bad_request("Idempotency-Key: не длиннее 255 символов".to_owned()));
    }
    Ok(Some(string_of(key.as_slice())))
}

/// SHA-256 of the given bytes.
pub uninterp spec fn sha256_digest(data: Seq<u8>) -> Seq<u8>;

/// `Sha256::digest`: the 32-byte SHA-256 digest.
#[verifier::external_body]
fn sha256(data: &[u8]) -> (digest: Vec<u8>)
    ensures
        digest@ == sha256_digest(data@),
        digest@.len() == 32,
{
    Sha256::digest(data).to_vec()
}

/// The text whose SHA-256 names a journal entry: user, method, path and
/// client key, each followed by a zero character.
pub open spec fn key_preimage(user: u128, method: Seq<char>, path: Seq<char>, client_key: Seq<
    char,
>) -> Seq<char> {
    uuid_text(user) + seq!['\0'] + method + seq!['\0'] + path + seq!['\0'] + client_key + seq![
        '\0',
    ]
}

/// The journal key: `tou:idem:` and the lowercase hex of the SHA-256 of the
/// UTF-8 preimage. The user id itself never reaches Redis.
pub open spec fn journal_key(user: u128, method: Seq<char>, path: Seq<char>, client_key: Seq<
    char,
>) -> Seq<char> {
    "tou:idem:"@ + hex_lower(sha256_digest(encode_utf8(key_preimage(user, method, path, client_key))))
}

/// The journal key of a request: `tou:idem:` and the 64 hex digits of the
/// digest.
pub fn key_of(user_id: u128, method: &str, path: &str, client_key: &str) -> (key: String)
    ensures
        key@ == journal_key(user_id, method@, path@, client_key@),
        key@.len() == 73,
{
    let mut preimage = uuid_chars(user_id);
    preimage.push('\0');
    let mut part = chars_of(method);
    preimage.append(&mut part);
    preimage.push('\0');
    let mut part = chars_of(path);
    preimage.append(&mut part);
    preimage.push('\0');
    let mut part = chars_of(client_key);
    preimage.append(&mut part);
    preimage.push('\0');
    assert(preimage@ =~= key_preimage(user_id, method@, path@, client_key@));
    let text = string_of(preimage.as_slice());
    let digest = sha256(text.as_str().as_bytes());
    let mut key = chars_of("tou:idem:");
    push_hex_lower(&mut key, digest.as_slice());
    proof {
        reveal_strlit("tou:idem:");
        crate::bytes::lemma_hex_lower_len(digest@);
    }
    string_of(key.as_slice())
}

/// Two sequences split at their first zero character agree part by part.
proof fn lemma_split_at_zero(a: Seq<char>, r: Seq<char>, b: Seq<char>, q: Seq<char>)
    requires
        !a.contains('\0'),
        !b.contains('\0'),
        a + seq!['\0'] + r == b + seq!['\0'] + q,
    ensures
        a == b,
        r == q,
{
    let x = a + seq!['\0'] + r;
    let y = b + seq!['\0'] + q;
    if a.len() < b.len() {
        assert(x[a.len() as int] == '\0');
        assert(y[a.len() as int] == b[a.len() as int]);
        assert(b.contains(b[a.len() as int]));
    } else if b.len() < a.len() {
        assert(y[b.len() as int] == '\0');
        assert(x[b.len() as int] == a[b.len() as int]);
        assert(a.contains(a[b.len() as int]));
    } else {
        assert(a =~= x.take(a.len() as int));
        assert(b =~= y.take(b.len() as int));
        assert(r =~= x.skip(a.len() as int + 1));
        assert(q =~= y.skip(b.len() as int + 1));
    }
}

proof fn lemma_uuid_text_has_no_zero(id: u128)
    ensures
        !uuid_text(id).contains('\0'),
{
    let t = uuid_text(id);
    assert forall|i: int| 0 <= i < t.len() implies t[i] != '\0' by {
        lemma_hex_lower_no_zero(crate::bytes::uuid_octets(id).subrange(0, 4));
        lemma_hex_lower_no_zero(crate::bytes::uuid_octets(id).subrange(4, 6));
        lemma_hex_lower_no_zero(crate::bytes::uuid_octets(id).subrange(6, 8));
        lemma_hex_lower_no_zero(crate::bytes::uuid_octets(id).subrange(8, 10));
        lemma_hex_lower_no_zero(crate::bytes::uuid_octets(id).subrange(10, 16));
    }
}

proof fn lemma_hex_lower_no_zero(b: Seq<u8>)
    ensures
        forall|i: int| 0 <= i < hex_lower(b).len() ==> hex_lower(b)[i] != '\0',
    decreases b.len(),
{
    if b.len() > 0 {
        lemma_hex_lower_no_zero(b.drop_last());
        lemma_hex_digit_not_zero((b.last() / 16) as int);
        lemma_hex_digit_not_zero((b.last() % 16) as int);
        let h = hex_lower(b);
        let p = hex_lower(b.drop_last());
        assert forall|i: int| 0 <= i < h.len() implies h[i] != '\0' by {
            if i < p.len() {
                assert(h[i] == p[i]);
            }
        }
    }
}

proof fn lemma_hex_digit_not_zero(d: int)
    requires
        0 <= d < 16,
    ensures
        crate::bytes::hex_digit(d) != '\0',
{
    let c = crate::bytes::hex_digit(d);
    if d < 10 {
        vstd::utf8::char_u32_cast(c, (d + 48) as u32);
    } else {
        vstd::utf8::char_u32_cast(c, (d + 87) as u32);
    }
}

/// The journal preimage determines the request: two requests whose parts
/// hold no zero character share a preimage only when they share user,
/// method, path and client key. (A zero byte can stand neither in a path nor
/// in a header value.)
pub proof fn preimage_binds_user_method_path_and_key(
    u1: u128,
    m1: Seq<char>,
    p1: Seq<char>,
    k1: Seq<char>,
    u2: u128,
    m2: Seq<char>,
    p2: Seq<char>,
    k2: Seq<char>,
)
    requires
        !m1.contains('\0'),
        !p1.contains('\0'),
        !k1.contains('\0'),
        !m2.contains('\0'),
        !p2.contains('\0'),
        !k2.contains('\0'),
        encode_utf8(key_preimage(u1, m1, p1, k1)) == encode_utf8(key_preimage(u2, m2, p2, k2)),
    ensures
        uuid_text(u1) == uuid_text(u2),
        m1 == m2,
        p1 == p2,
        k1 == k2,
{
    encode_utf8_decode_utf8(key_preimage(u1, m1, p1, k1));
    encode_utf8_decode_utf8(key_preimage(u2, m2, p2, k2));
    lemma_uuid_text_has_no_zero(u1);
    lemma_uuid_text_has_no_zero(u2);
    let z = seq!['\0'];
    let rest1 = m1 + z + p1 + z + k1 + z;
    let rest2 = m2 + z + p2 + z + k2 + z;
    assert(key_preimage(u1, m1, p1, k1) =~= uuid_text(u1) + z + rest1);
    assert(key_preimage(u2, m2, p2, k2) =~= uuid_text(u2) + z + rest2);
    lemma_split_at_zero(uuid_text(u1), rest1, uuid_text(u2), rest2);
    assert(rest1 =~= m1 + z + (p1 + z + k1 + z));
    assert(rest2 =~= m2 + z + (p2 + z + k2 + z));
    lemma_split_at_zero(m1, p1 + z + k1 + z, m2, p2 + z + k2 + z);
    assert(p1 + z + k1 + z =~= p1 + z + (k1 + z));
    assert(p2 + z + k2 + z =~= p2 + z + (k2 + z));
    lemma_split_at_zero(p1, k1 + z, p2, k2 + z);
    assert(k1 =~= (k1 + z).drop_last());
    assert(k2 =~= (k2 + z).drop_last());
}

/// A final outcome: success, or a client error other than a rate-limit
/// refusal (429) and a request timeout (408).
pub open spec fn final_status(status: u16) -> bool {
    (200 <= status < 300) || (400 <= status < 500 && status != 429 && status != 408)
}

/// Whether an answer with this status is final and may be kept.
pub fn is_final(status: u16) -> (result: bool)
    ensures
        result == final_status(status),
{
    (200 <= status && status < 300) || (400 <= status && status < 500 && status != 429 && status
        != 408)
}

/// JSON answers (plain or problem) are the only ones kept.
pub open spec fn json_content_type(content_type: Option<Seq<char>>) -> bool {
    match content_type {
        Some(t) => t.len() >= "application/json"@.len() && t.take(
            "application/json"@.len() as int,
        ) == "application/json"@ || t.len() >= "application/problem+json"@.len() && t.take(
            "application/problem+json"@.len() as int,
        ) == "application/problem+json"@,
        None => false,
    }
}

pub open spec fn opt_str_view(o: Option<&str>) -> Option<Seq<char>> {
    match o {
        Some(s) => Some(s@),
        None => None,
    }
}

pub fn is_json(content_type: Option<&str>) -> (json: bool)
    ensures
        json == json_content_type(opt_str_view(content_type)),
{
    match content_type {
        None => false,
        Some(value) => {
            let text = chars_of(value);
            let plain = chars_of("application/json");
            let problem = chars_of("application/problem+json");
            starts_with(&text, &plain) || starts_with(&text, &problem)
        },
    }
}

/// The content type as text, when the header reads as text.
pub fn content_type(raw: Option<&[u8]>) -> (text: Option<String>)
    ensures
        match raw {
            None => text is None,
            Some(b) => match header_chars(b@) {
                None => text is None,
                Some(t) => text is Some && text->0@ == t,
            },
        },
{
    match raw {
        None => None,
        Some(raw) => match header_text(raw) {
            None => None,
            Some(t) => Some(string_of(t.as_slice())),
        },
    }
}

/// What Redis answered to `SET key in-flight NX GET`.
pub enum JournalReply {
    /// Redis did not answer.
    Unavailable,
    /// The key was free; this request now holds it.
    Free,
    /// The key holds a value: the mark of a running request or a recorded
    /// answer, together with that answer when the value decodes as one.
    Held { value: String, recorded: Option<StoredResponse> },
}

/// The state of the key when the request arrives.
pub enum Slot {
    /// The key was free and is now marked by this request.
    Taken,
    /// The same key is running.
    InFlight,
    /// An answer is recorded: hand it back.
    Answered(StoredResponse),
    /// No journal: run as without the header.
    Disabled,
}

pub open spec fn slot_spec(reply: JournalReply) -> Slot {
    match reply {
        JournalReply::Unavailable => Slot::Disabled,
        JournalReply::Free => Slot::Taken,
        JournalReply::Held { value, recorded } => if value@ == IN_FLIGHT@ {
            Slot::InFlight
        } else {
            match recorded {
                Some(stored) => Slot::Answered(stored),
                // only another record format can hold what does not decode:
                // running the request again is safer than answering it
                None => Slot::Disabled,
            }
        },
    }
}

/// The slot the journal's answer puts the request in.
pub fn slot_of(reply: JournalReply) -> (slot: Slot)
    ensures
        slot == slot_spec(reply),
{
    match reply {
        JournalReply::Unavailable => Slot::Disabled,
        JournalReply::Free => Slot::Taken,
        JournalReply::Held { value, recorded } => {
            let v = chars_of(value.as_str());
            let mark = chars_of(IN_FLIGHT);
            if chars_equal(&v, &mark) {
                Slot::InFlight
            } else {
                match recorded {
                    Some(stored) => Slot::Answered(stored),
                    None => Slot::Disabled,
                }
            }
        },
    }
}

/// What the layer does with a request before it runs.
pub enum Admission {
    /// Not under the layer: run it as is.
    Bypass,
    /// The header is present but unusable: refuse.
    Refuse(ApiError),
    /// Guard the request under this journal key.
    Guard(String),
}

/// The first decision of the layer: the method, the raw header and the
/// signed-in user (if any) of a request.
pub fn admission_of(method: &str, path: &str, header: Option<&[u8]>, user: Option<u128>) -> (admission:
    Admission)
    ensures
        !guarded_method(method@) ==> admission is Bypass,
        guarded_method(method@) ==> match header_key_spec(
            match header {
                Some(b) => Some(b@),
                None => None,
            },
        ) {
            Err(detail) => admission matches Admission::Refuse(ApiError::BadRequest(d)) && d@
                == detail,
            Ok(None) => admission is Bypass,
            Ok(Some(key)) => match user {
                None => admission is Bypass,
                Some(u) => admission matches Admission::Guard(k) && k@ == journal_key(
                    u,
                    method@,
                    path@,
                    key,
                ),
            },
        },
{
    if !is_guarded(method) {
        return Admission::Bypass;
    }
    let client_key = match header_key(header) {
        Err(e) => return Admission::Refuse(e),
        Ok(None) => return Admission::Bypass,
        Ok(Some(key)) => key,
    };
    match user {
        None => Admission::Bypass,
        Some(user_id) => Admission::Guard(key_of(user_id, method, path, client_key.as_str())),
    }
}

/// What the layer does with a request once it is admitted, before any
/// journal is asked.
pub enum Plan<'a> {
    /// Run the request as it came: nothing is journalled, replayed or
    /// refused for a parallel repeat.
    Run,
    /// Refuse the request (its key is unusable).
    Refuse(ApiError),
    /// Ask the journal of this pool under this key.
    Ask(&'a fred::clients::Pool, String),
}

/// The plan for a request from its admission. Only a store with a journal
/// ever asks one: a store without a pool runs every admitted request as it
/// came, exactly as a request without the header runs, and refuses only
/// what the admission refuses.
pub fn plan_of<'a>(store: &'a IdempotencyStore, admission: Admission) -> (plan: Plan<'a>)
    ensures
        match admission {
            Admission::Bypass => plan is Run,
            Admission::Refuse(e) => plan == Plan::Refuse(e),
            Admission::Guard(k) => if store.attached() {
                plan matches Plan::Ask(_, key) && key == k
            } else {
                plan is Run
            },
        },
        !store.attached() ==> (plan is Run || (plan is Refuse && admission is Refuse)),
{
    match admission {
        Admission::Bypass => Plan::Run,
        Admission::Refuse(e) => Plan::Refuse(e),
        Admission::Guard(key) => match store.pool() {
            Some(pool) => Plan::Ask(pool, key),
            None => Plan::Run,
        },
    }
}

/// What the layer does once the journal has answered.
pub enum Step {
    /// Hand the recorded answer back, marked as a replay.
    Replay(StoredResponse),
    /// Refuse the parallel repeat.
    Refuse(ApiError),
    /// Run the request without the journal.
    Run,
    /// Run the request, then keep or release its answer.
    RunAndFinish,
}

/// The step that follows a slot.
pub open spec fn step_spec(slot: Slot) -> Step {
    match slot {
        Slot::Answered(stored) => Step::Replay(stored),
        Slot::InFlight => Step::Refuse(ApiError::IdempotencyInFlight),
        Slot::Disabled => Step::Run,
        Slot::Taken => Step::RunAndFinish,
    }
}

pub fn step_after(slot: Slot) -> (step: Step)
    ensures
        step == step_spec(slot),
        match slot {
            Slot::Answered(stored) => step == Step::Replay(stored),
            Slot::InFlight => step matches Step::Refuse(ApiError::IdempotencyInFlight),
            Slot::Disabled => step is Run,
            Slot::Taken => step is RunAndFinish,
        },
{
    match slot {
        Slot::Answered(stored) => Step::Replay(stored),
        Slot::InFlight => Step::Refuse(ApiError::IdempotencyInFlight),
        Slot::Disabled => Step::Run,
        Slot::Taken => Step::RunAndFinish,
    }
}

/// `str::from_utf8`: the text of bytes that are valid UTF-8.
#[verifier::external_body]
fn utf8_text(bytes: &[u8]) -> (text: Option<String>)
    ensures
        text is Some <==> vstd::utf8::valid_utf8(bytes@),
        text matches Some(t) ==> encode_utf8(t@) == bytes@,
{
    std::str::from_utf8(bytes).ok().map(str::to_owned)
}

/// What becomes of the answer of a guarded request.
pub enum Finish {
    /// Keep it for a day under the key.
    Record(StoredResponse),
    /// Drop the mark: the answer is not to be repeated.
    Release,
    /// The body could not be read: drop the mark and answer 500.
    ReleaseAndFail,
}

/// The decision on the answer of a guarded request: its status, content
/// type and body (`None` when reading the body failed).
pub fn finish_plan(status: u16, content_type: Option<String>, body: Option<&[u8]>) -> (plan:
    Finish)
    ensures
        !final_status(status) || !json_content_type(
            match content_type {
                Some(t) => Some(t@),
                None => None,
            },
        ) ==> plan is Release,
        plan matches Finish::Record(stored) ==> final_status(status) && stored.status == status
            && stored.content_type == content_type && body is Some && encode_utf8(stored.body@)
            == body->0@ && body->0@.len() <= MAX_STORED_BODY_BYTES,
        final_status(status) && json_content_type(
            match content_type {
                Some(t) => Some(t@),
                None => None,
            },
        ) ==> match body {
            None => plan is ReleaseAndFail,
            Some(b) => (plan is Record <==> (vstd::utf8::valid_utf8(b@) && b@.len()
                <= MAX_STORED_BODY_BYTES)) && (plan is Record || plan is Release),
        },
{
    let json = match &content_type {
        Some(t) => is_json(Some(t.as_str())),
        None => is_json(None),
    };
    if !is_final(status) || !json {
        return Finish::Release;
    }
    let bytes = match body {
        None => return Finish::ReleaseAndFail,
        Some(bytes) => bytes,
    };
    if bytes.len() > MAX_STORED_BODY_BYTES {
        return Finish::Release;
    }
    match utf8_text(bytes) {
        Some(text) => Finish::Record(StoredResponse { status, content_type, body: text }),
        None => Finish::Release,
    }
}

/// A repeat of a request whose answer was recorded gets that answer back,
/// and the request does not run again.
pub proof fn a_recorded_answer_is_replayed(value: String, stored: StoredResponse)
    requires
        value@ != IN_FLIGHT@,
    ensures
        step_spec(slot_spec(JournalReply::Held { value, recorded: Some(stored) })) == Step::Replay(
            stored,
        ),
{
}

/// A repeat that arrives while the first request still runs is refused
/// with its own error, whatever else the key holds.
pub proof fn a_parallel_repeat_is_refused(value: String, recorded: Option<StoredResponse>)
    requires
        value@ == IN_FLIGHT@,
    ensures
        step_spec(slot_spec(JournalReply::Held { value, recorded })) == Step::Refuse(
            ApiError::IdempotencyInFlight,
        ),
{
}

} // verus!
