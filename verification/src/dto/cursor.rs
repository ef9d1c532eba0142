//! The registry cursor on the wire: a string opaque to the client,
//! `<unix nanoseconds>~<uuid>`. A number rather than RFC 3339: in a query
//! string the `+` of a time zone reads as a space.
use time::OffsetDateTime;
use uuid::Uuid;
use vstd::prelude::*;

use crate::bytes::{uuid_chars, uuid_text};
use crate::error::ApiError;
use crate::number::{
    parse_i128, parsed_i128, signed_decimal, signed_decimal_digits, signed_decimal_reads_back,
};
use crate::text::{chars_of, string_of};

verus! {

/// A position in a registry: the moment of the last row (Unix time in
/// nanoseconds) and its id.
#[derive(Debug, Clone, Copy, PartialEq, Eq, Structural)]
pub struct RowCursor {
    pub at_nanos: i128,
    pub id: u128,
}

impl RowCursor {
    pub fn new(at_nanos: i128, id: u128) -> (cursor: Self)
        ensures
            cursor.at_nanos == at_nanos,
            cursor.id == id,
    {
        RowCursor { at_nanos, id }
    }
}

/// Whether `OffsetDateTime::from_unix_timestamp_nanos` accepts the value.
pub uninterp spec fn instant_representable(nanos: i128) -> bool;

/// The Unix nanoseconds of years -9999 to 9999, which `time` represents in
/// every build (a build with `large-dates` represents more).
pub open spec fn within_common_years(nanos: i128) -> bool {
    -377705116800000000000 <= nanos <= 253402300799999999999
}

/// `OffsetDateTime::from_unix_timestamp_nanos(nanos).is_ok()`.
#[verifier::external_body]
fn representable_instant(nanos: i128) -> (ok: bool)
    ensures
        ok == instant_representable(nanos),
        within_common_years(nanos) ==> ok,
{
    OffsetDateTime::from_unix_timestamp_nanos(nanos).is_ok()
}

/// The byte lengths of the texts that `Uuid::parse_str` may accept.
pub open spec fn uuid_text_length(n: nat) -> bool {
    n == 32 || n == 36 || n == 38 || n == 45
}

/// What `Uuid::parse_str` reads from a text.
pub uninterp spec fn uuid_parsed(text: Seq<char>) -> Option<u128>;

/// `Uuid::parse_str`, the id as a `u128`. The hyphenated lowercase text of
/// an id reads back as that id; a text of any length but 32 bytes (simple),
/// 36 (hyphenated), 38 (braced) or 45 (URN) is refused.
#[verifier::external_body]
fn parse_uuid(text: &str) -> (id: Option<u128>)
    ensures
        id == uuid_parsed(text@),
        forall|u: u128| text@ == uuid_text(u) ==> id == Some(u),
        id is Some ==> uuid_text_length(vstd::utf8::encode_utf8(text@).len()),
{
    Uuid::parse_str(text).ok().map(|id| id.as_u128())
}

/// The text of a cursor.
pub open spec fn cursor_text(cursor: RowCursor) -> Seq<char> {
    signed_decimal(cursor.at_nanos as int) + seq!['~'] + uuid_text(cursor.id)
}

/// Index of the first `~` of a text.
pub open spec fn first_tilde(s: Seq<char>) -> Option<int> {
    if s.contains('~') {
        Some(choose|i: int| 0 <= i < s.len() && s[i] == '~' && forall|j: int| 0 <= j < i ==> s[j] != '~')
    } else {
        None
    }
}

/// What `parse` reads: the part before the first `~` as a decimal moment in
/// range, the rest as a UUID.
pub open spec fn cursor_parsed(raw: Seq<char>) -> Option<RowCursor> {
    match first_tilde(raw) {
        None => None,
        Some(i) => match parsed_i128(raw.take(i)) {
            None => None,
            Some(nanos) => if !instant_representable(nanos) {
                None
            } else {
                match uuid_parsed(raw.skip(i + 1)) {
                    Some(id) => Some(RowCursor { at_nanos: nanos, id }),
                    None => None,
                }
            },
        },
    }
}

pub open spec fn invalid_cursor_message(raw: Seq<char>) -> Seq<char> {
    "курсор «"@ + raw + "» не разбирается"@
}

/// The text of a cursor.
pub fn encode(cursor: RowCursor) -> (text: String)
    ensures
        text@ == cursor_text(cursor),
{
    let mut out = signed_decimal_digits(cursor.at_nanos);
    out.push('~');
    let mut id = uuid_chars(cursor.id);
    out.append(&mut id);
    string_of(out.as_slice())
}

/// Reads a cursor; a broken one is a request error, never a silent first
/// page. A cursor written by `encode` reads back as itself.
pub fn parse(raw: &str) -> (cursor: Result<RowCursor, ApiError>)
    ensures
        match cursor_parsed(raw@) {
            Some(c) => cursor == Ok::<_, ApiError>(c),
            None => cursor matches Err(ApiError::Validation(m)) && m@ == invalid_cursor_message(raw@),
        },
        forall|c: RowCursor| raw@ == cursor_text(c) && within_common_years(c.at_nanos) ==> cursor
            == Ok::<_, ApiError>(c),
{
    let chars = chars_of(raw);
    let mut i: usize = 0;
    while i < chars.len() && chars[i] != '~'
        invariant
            i <= chars.len(),
            chars@ == raw@,
            forall|j: int| 0 <= j < i ==> chars@[j] != '~',
        decreases chars.len() - i,
    {
        i = i + 1;
    }
    proof {
        if i < chars.len() {
            assert(raw@.contains('~'));
            let k = first_tilde(raw@)->0;
            if k < i {
                assert(chars@[k] != '~');
            }
            if k > i {
                assert(raw@[i as int] == '~');
            }
            assert(k == i);
        } else {
            assert(!raw@.contains('~'));
        }
        assert forall|c: RowCursor| raw@ == cursor_text(c) implies i == signed_decimal(
            c.at_nanos as int,
        ).len() && chars@.take(i as int) == signed_decimal(c.at_nanos as int) && chars@.skip(i + 1)
            == uuid_text(c.id) by {
            signed_decimal_reads_back(c.at_nanos);
            let d = signed_decimal(c.at_nanos as int);
            assert(cursor_text(c)[d.len() as int] == '~');
            if i < d.len() {
                assert(cursor_text(c)[i as int] == d[i as int]);
                assert(d.contains(d[i as int]));
            }
            if i > d.len() {
                assert(chars@[d.len() as int] != '~');
            }
            assert(chars@.take(i as int) =~= d);
            assert(chars@.skip(i + 1) =~= uuid_text(c.id));
        }
    }
    if i == chars.len() {
        return Err(invalid(raw));
    }
    let head = vstd::slice::slice_subrange(chars.as_slice(), 0, i);
    let nanos = match parse_i128(head) {
        Some(n) => n,
        None => {
            proof {
                assert(head@ == raw@.take(i as int));
                assert forall|c: RowCursor| raw@ == cursor_text(c) implies false by {
                    signed_decimal_reads_back(c.at_nanos);
                }
            }
            return Err(invalid(raw));
        },
    };
    assert(head@ == raw@.take(i as int));
    if !representable_instant(nanos) {
        proof {
            assert forall|c: RowCursor| raw@ == cursor_text(c) implies !within_common_years(c.at_nanos) by {
                signed_decimal_reads_back(c.at_nanos);
            }
        }
        return Err(invalid(raw));
    }
    let tail = string_of(vstd::slice::slice_subrange(chars.as_slice(), i + 1, chars.len()));
    assert(tail@ == raw@.skip(i + 1));
    match parse_uuid(tail.as_str()) {
        Some(id) => {
            proof {
                assert forall|c: RowCursor| raw@ == cursor_text(c) implies c == RowCursor { at_nanos: nanos, id } by {
                    signed_decimal_reads_back(c.at_nanos);
                }
            }
            Ok(RowCursor { at_nanos: nanos, id })
        },
        None => {
            proof {
                assert forall|c: RowCursor| raw@ == cursor_text(c) implies false by {
                    signed_decimal_reads_back(c.at_nanos);
                }
            }
            Err(invalid(raw))
        },
    }
}

fn invalid(raw: &str) -> (e: ApiError)
    ensures
        e matches ApiError::Validation(m) && m@ == invalid_cursor_message(raw@),
{
    let mut text = chars_of("курсор «");
    let mut part = chars_of(raw);
    text.append(&mut part);
    let mut part = chars_of("» не разбирается");
    text.append(&mut part);
    ApiError::Validation(string_of(text.as_slice()))
}

/// The cursor of the next page: only when rows remain beyond the page,
/// otherwise the client would ask for a page known to be empty.
pub fn next(truncated: bool, last: Option<RowCursor>) -> (cursor: Option<String>)
    ensures
        cursor is Some <==> truncated && last is Some,
        cursor matches Some(t) ==> t@ == cursor_text(last->0),
{
    if truncated {
        match last {
            Some(c) => Some(encode(c)),
            None => None,
        }
    } else {
        None
    }
}

} // verus!
