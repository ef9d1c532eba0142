//! The roles that the provider's `id_token` carries. Signature and audience
//! were checked by the OpenID client already; here the payload of the same
//! token is read. Providers shape the roles claim differently (Zitadel: an
//! object "role → organisations"; others: an array of strings), and both
//! shapes are read. The list of roles is closed and `guest` stands for the
//! anonymous visitor, so neither an unknown name nor `guest` is kept.
use vstd::prelude::*;

use crate::oidc::{base64url_decoded, decode_base64url, strings_view};
use crate::text::{chars_of, str_equal, string_of};

verus! {

/// The index of the first `.` of a text.
pub open spec fn first_dot(s: Seq<char>) -> Option<int>
    decreases s.len(),
{
    if s.len() == 0 {
        None
    } else if s[0] == '.' {
        Some(0)
    } else {
        match first_dot(s.drop_first()) {
            Some(i) => Some(i + 1),
            None => None,
        }
    }
}

/// The second `.`-separated part of a token (`split('.').nth(1)`): the
/// payload of a JWT.
pub open spec fn payload_segment(token: Seq<char>) -> Option<Seq<char>> {
    match first_dot(token) {
        None => None,
        Some(i) => {
            let rest = token.skip(i + 1);
            match first_dot(rest) {
                Some(j) => Some(rest.take(j)),
                None => Some(rest),
            }
        },
    }
}

/// The entries of a claim of a JSON payload: the keys of an object (each
/// `Some`), the items of an array (`Some` for a string, `None` for any
/// other value); no entries for another kind of claim, a missing one, or a
/// payload that is not JSON.
pub uninterp spec fn json_claim_entries(payload: Seq<u8>, claim: Seq<char>) -> Seq<
    Option<Seq<char>>,
>;

pub open spec fn entries_view(v: Seq<Option<String>>) -> Seq<Option<Seq<char>>> {
    v.map_values(
        |o: Option<String>|
            match o {
                Some(s) => Some(s@),
                None => None,
            },
    )
}

/// `serde_json::from_slice::<Value>` and the claim read off it: the keys
/// of an object, or the items of an array as strings where they are
/// strings.
#[verifier::external_body]
fn claim_entries(payload: &[u8], claim: &str) -> (entries: Vec<Option<String>>)
    ensures
        entries_view(entries@) == json_claim_entries(payload@, claim@),
{
    let Ok(value) = serde_json::from_slice::<serde_json::Value>(payload) else {
        return Vec::new();
    };
    match value.get(claim) {
        Some(serde_json::Value::Object(map)) => map.keys().map(|k| Some(k.clone())).collect(),
        Some(serde_json::Value::Array(items)) => items.iter().map(
            |item| item.as_str().map(str::to_owned),
        ).collect(),
        _ => Vec::new(),
    }
}

/// The strings among the entries, in order.
pub open spec fn strings_of(entries: Seq<Option<Seq<char>>>) -> Seq<Seq<char>>
    decreases entries.len(),
{
    if entries.len() == 0 {
        Seq::empty()
    } else {
        strings_of(entries.drop_last()) + match entries.last() {
            Some(s) => seq![s],
            None => Seq::empty(),
        }
    }
}

/// The names that the roles claim of a token holds: none when the token
/// has no payload part, the part is not base64url, or the claim is absent.
pub open spec fn claim_names_of(token: Seq<char>, claim: Seq<char>) -> Seq<Seq<char>> {
    match payload_segment(token) {
        None => Seq::empty(),
        Some(segment) => match base64url_decoded(segment) {
            None => Seq::empty(),
            Some(payload) => strings_of(json_claim_entries(payload, claim)),
        },
    }
}

/// The index of the first `.` at or after `from`.
fn dot_from(s: &Vec<char>, from: usize) -> (found: Option<usize>)
    requires
        from <= s@.len(),
    ensures
        found is None <==> first_dot(s@.skip(from as int)) is None,
        found matches Some(k) ==> from <= k < s@.len() && first_dot(s@.skip(from as int)) == Some(
            k - from,
        ),
{
    let mut i: usize = from;
    while i < s.len()
        invariant
            from <= i <= s@.len(),
            first_dot(s@.skip(from as int)) == match first_dot(s@.skip(i as int)) {
                Some(j) => Some(j + (i - from)),
                None => None,
            },
        decreases s.len() - i,
    {
        assert(s@.skip(i as int)[0] == s@[i as int]);
        if s[i] == '.' {
            return Some(i);
        }
        assert(s@.skip(i as int).drop_first() == s@.skip(i + 1));
        i = i + 1;
    }
    None
}

/// The characters of `s` from `start` to `end`.
fn part(s: &Vec<char>, start: usize, end: usize) -> (p: Vec<char>)
    requires
        start <= end <= s@.len(),
    ensures
        p@ == s@.subrange(start as int, end as int),
{
    let mut p: Vec<char> = Vec::new();
    let mut i: usize = start;
    while i < end
        invariant
            start <= i <= end <= s@.len(),
            p@ == s@.subrange(start as int, i as int),
        decreases end - i,
    {
        p.push(s[i]);
        i = i + 1;
    }
    p
}

/// The payload part of a token.
fn payload_of(token: &str) -> (segment: Option<String>)
    ensures
        match segment {
            Some(s) => payload_segment(token@) == Some(s@),
            None => payload_segment(token@) is None,
        },
{
    let chars = chars_of(token);
    assert(chars@.skip(0) == chars@);
    let first = match dot_from(&chars, 0) {
        Some(i) => i,
        None => return None,
    };
    assert(first_dot(token@) == Some(first as int));
    assert(first < chars.len());
    let start = first + 1;
    let end = match dot_from(&chars, start) {
        Some(j) => j,
        None => chars.len(),
    };
    proof {
        let rest = token@.skip(first + 1);
        assert(rest == chars@.skip(start as int));
        match first_dot(rest) {
            Some(j) => {
                assert(rest.take(j) =~= chars@.subrange(start as int, end as int));
            },
            None => {
                assert(rest =~= chars@.subrange(start as int, end as int));
            },
        }
    }
    Some(string_of(part(&chars, start, end).as_slice()))
}

/// The names that the roles claim of an `id_token` holds, in the order of
/// the claim: the keys of an object claim, the strings of an array claim.
pub fn role_claim_names(raw_token: &str, claim: &str) -> (names: Vec<String>)
    ensures
        strings_view(names@) == claim_names_of(raw_token@, claim@),
{
    let segment = match payload_of(raw_token) {
        Some(s) => s,
        None => return Vec::new(),
    };
    let payload = match decode_base64url(segment.as_str()) {
        Some(bytes) => bytes,
        None => return Vec::new(),
    };
    let entries = claim_entries(payload.as_slice(), claim);
    let mut names: Vec<String> = Vec::new();
    let mut i: usize = 0;
    while i < entries.len()
        invariant
            i <= entries@.len(),
            strings_view(names@) == strings_of(entries_view(entries@).take(i as int)),
        decreases entries.len() - i,
    {
        assert(entries_view(entries@).take(i + 1).drop_last() == entries_view(entries@).take(
            i as int,
        ));
        match &entries[i] {
            Some(name) => {
                names.push(name.clone());
                assert(strings_view(names@) == strings_view(names@.drop_last()).push(name@));
            },
            None => {
                assert(names@ == names@);
            },
        }
        i = i + 1;
    }
    assert(entries_view(entries@).take(entries@.len() as int) == entries_view(entries@));
    names
}

// ------------------------------------------------------------------ order

/// The order of `str`: code point by code point, a prefix first.
pub open spec fn text_less(a: Seq<char>, b: Seq<char>) -> bool
    decreases a.len(),
{
    if a.len() == 0 {
        b.len() > 0
    } else if b.len() == 0 {
        false
    } else if a[0] != b[0] {
        a[0] < b[0]
    } else {
        text_less(a.drop_first(), b.drop_first())
    }
}

pub proof fn lemma_text_less_irreflexive(a: Seq<char>)
    ensures
        !text_less(a, a),
    decreases a.len(),
{
    if a.len() > 0 {
        lemma_text_less_irreflexive(a.drop_first());
    }
}

pub proof fn lemma_text_less_total(a: Seq<char>, b: Seq<char>)
    ensures
        a == b || text_less(a, b) || text_less(b, a),
    decreases a.len(),
{
    if a.len() > 0 && b.len() > 0 && a[0] == b[0] {
        lemma_text_less_total(a.drop_first(), b.drop_first());
        if a.drop_first() == b.drop_first() {
            assert(a =~= seq![a[0]] + a.drop_first());
            assert(b =~= seq![b[0]] + b.drop_first());
        }
    } else if a.len() == 0 && b.len() == 0 {
        assert(a =~= b);
    }
}

pub proof fn lemma_text_less_transitive(a: Seq<char>, b: Seq<char>, c: Seq<char>)
    requires
        text_less(a, b),
        text_less(b, c),
    ensures
        text_less(a, c),
    decreases a.len(),
{
    if a.len() > 0 && b.len() > 0 && c.len() > 0 && a[0] == b[0] && b[0] == c[0] {
        lemma_text_less_transitive(a.drop_first(), b.drop_first(), c.drop_first());
    }
}

/// The roles of the system, by their names (`Role::as_str`): the closed
/// list that a name of the claim must belong to.
#[verifier::opaque]
pub open spec fn known_role(name: Seq<char>) -> bool {
    ||| name == "admin"@
    ||| name == "board"@
    ||| name == "finance"@
    ||| name == "guest"@
    ||| name == "organizer"@
    ||| name == "participant"@
    ||| name == "secretary"@
}

/// A role name that the session keeps: a role of the system other than
/// `guest`, the anonymous visitor.
pub open spec fn kept_role(name: Seq<char>) -> bool {
    known_role(name) && name != "guest"@
}

/// The roles a session keeps are exactly the system's roles other than the
/// anonymous `guest`: admin, board, finance, organizer, participant and
/// secretary. Any other name, `guest` included, is dropped.
pub proof fn the_system_roles_but_guest_are_kept(name: Seq<char>)
    ensures
        kept_role(name) <==> (name == "admin"@ || name == "board"@ || name == "finance"@ || name
            == "organizer"@ || name == "participant"@ || name == "secretary"@),
        !kept_role("guest"@),
{
    reveal(known_role);
    reveal_strlit("guest");
    reveal_strlit("admin");
    reveal_strlit("board");
    reveal_strlit("finance");
    reveal_strlit("organizer");
    reveal_strlit("participant");
    reveal_strlit("secretary");
    assert("guest"@[0] == 'g');
    assert("admin"@[0] == 'a');
    assert("board"@[0] == 'b');
    assert("finance"@[0] == 'f');
    assert("organizer"@[0] == 'o');
    assert("participant"@[0] == 'p');
    assert("secretary"@[0] == 's');
}

/// Whether a claim name is kept as a role.
pub fn is_kept_role(name: &str) -> (kept: bool)
    ensures
        kept == kept_role(name@),
{
    reveal(known_role);
    !str_equal(name, "guest") && (str_equal(name, "admin") || str_equal(name, "board")
        || str_equal(name, "finance") || str_equal(name, "organizer") || str_equal(
        name,
        "participant",
    ) || str_equal(name, "secretary"))
}

/// Strictly ascending in the order of `str`: sorted, and nothing twice.
pub open spec fn strictly_ascending(s: Seq<Seq<char>>) -> bool {
    forall|i: int, j: int| 0 <= i < j < s.len() ==> text_less(#[trigger] s[i], #[trigger] s[j])
}

/// Whether `a` comes before `b` in the order of `str`.
fn precedes(a: &String, b: &String) -> (less: bool)
    ensures
        less == text_less(a@, b@),
{
    let x = chars_of(a.as_str());
    let y = chars_of(b.as_str());
    let mut i: usize = 0;
    assert(x@.skip(0) == x@);
    assert(y@.skip(0) == y@);
    while i < x.len() && i < y.len() && x[i] == y[i]
        invariant
            i <= x@.len(),
            i <= y@.len(),
            x@ == a@,
            y@ == b@,
            text_less(a@, b@) == text_less(x@.skip(i as int), y@.skip(i as int)),
        decreases x.len() - i,
    {
        assert(x@.skip(i as int).drop_first() == x@.skip(i + 1));
        assert(y@.skip(i as int).drop_first() == y@.skip(i + 1));
        i = i + 1;
    }
    if i == x.len() {
        i < y.len()
    } else if i == y.len() {
        false
    } else {
        assert(x@.skip(i as int)[0] == x@[i as int]);
        assert(y@.skip(i as int)[0] == y@[i as int]);
        x[i] < y[i]
    }
}

/// The role names ordered as `str` orders them, each once: exactly the
/// names given that name a role of the system, but `guest`.
pub fn ordered_role_names(names: Vec<String>) -> (ordered: Vec<String>)
    ensures
        strictly_ascending(strings_view(ordered@)),
        forall|t: Seq<char>|
            #[trigger] strings_view(ordered@).contains(t) <==> (strings_view(names@).contains(t)
                && kept_role(t)),
{
    let mut out: Vec<String> = Vec::new();
    let mut i: usize = 0;
    while i < names.len()
        invariant
            i <= names@.len(),
            strictly_ascending(strings_view(out@)),
            forall|t: Seq<char>|
                #[trigger] strings_view(out@).contains(t) <==> (strings_view(
                    names@.take(i as int),
                ).contains(t) && kept_role(t)),
        decreases names.len() - i,
    {
        let name = &names[i];
        let ghost before = strings_view(out@);
        let ghost x = name@;
        let ghost seen = strings_view(names@.take(i as int));
        let ghost seen1 = strings_view(names@.take(i + 1));
        assert(seen1 == seen.push(x));
        if !is_kept_role(name.as_str()) {
            assert(!kept_role(x));
            assert forall|t: Seq<char>|
                #[trigger] strings_view(out@).contains(t) <==> (seen1.contains(t)
                    && kept_role(t)) by {
                if seen1.contains(t) && kept_role(t) {
                    let k = choose|k: int|
                        0 <= k < seen1.len() && seen1[k] == t;
                    if k < i {
                        assert(seen[k] == t);
                    }
                }
                if seen.contains(t) {
                    let k = choose|k: int|
                        0 <= k < seen.len() && seen[k] == t;
                    assert(seen1[k] == t);
                }
            }
        } else {
            assert(kept_role(x));
            let mut p: usize = 0;
            while p < out.len() && precedes(&out[p], name)
                invariant
                    p <= out@.len(),
                    out@.len() == before.len(),
                    strings_view(out@) == before,
                    x == name@,
                    forall|k: int| 0 <= k < p ==> text_less(#[trigger] before[k], x),
                decreases out.len() - p,
            {
                p = p + 1;
            }
            let present = p < out.len() && str_equal(out[p].as_str(), name.as_str());
            if !present {
                proof {
                    if p < before.len() {
                        assert(!text_less(before[p as int], x));
                        assert(before[p as int] != x);
                        lemma_text_less_total(before[p as int], x);
                    }
                }
                out.insert(p, name.clone());
                proof {
                    let after = strings_view(out@);
                    assert(after =~= before.insert(p as int, x));
                    before.insert_ensures(p as int, x);
                    assert forall|a: int, b: int| 0 <= a < b < after.len() implies text_less(
                        #[trigger] after[a],
                        #[trigger] after[b],
                    ) by {
                        if b < p {
                            assert(after[a] == before[a] && after[b] == before[b]);
                        } else if b == p {
                            assert(after[a] == before[a]);
                        } else if a < p {
                            assert(after[a] == before[a] && after[b] == before[b - 1]);
                            lemma_text_less_transitive(before[a], x, before[p as int]);
                            if b - 1 > p {
                                lemma_text_less_transitive(before[a], before[p as int], before[b - 1]);
                            }
                        } else if a == p {
                            assert(after[b] == before[b - 1]);
                            if b - 1 > p {
                                lemma_text_less_transitive(x, before[p as int], before[b - 1]);
                            }
                        } else {
                            assert(after[a] == before[a - 1] && after[b] == before[b - 1]);
                        }
                    }
                    assert forall|t: Seq<char>|
                        #[trigger] after.contains(t) <==> (seen1.contains(t)
                            && kept_role(t)) by {
                        if after.contains(t) {
                            let k = choose|k: int| 0 <= k < after.len() && after[k] == t;
                            if k < p {
                                assert(before[k] == t);
                            } else if k > p {
                                assert(before[k - 1] == t);
                            }
                            if t != x {
                                assert(before.contains(t));
                                assert(seen.contains(t));
                                let m = choose|m: int|
                                    0 <= m < seen.len()
                                        && seen[m] == t;
                                assert(seen1[m] == t);
                            } else {
                                assert(seen1[i as int] == t);
                            }
                        }
                        if seen1.contains(t) && kept_role(t) {
                            let m = choose|m: int|
                                0 <= m < seen1.len() && seen1[m] == t;
                            if m < i {
                                assert(seen[m] == t);
                                assert(seen.contains(t));
                                assert(before.contains(t));
                                let k = choose|k: int| 0 <= k < before.len() && before[k] == t;
                                if k < p {
                                    assert(after[k] == t);
                                } else {
                                    assert(after[k + 1] == t);
                                }
                            } else {
                                assert(after[p as int] == t);
                            }
                        }
                    }
                }
            } else {
                proof {
                    assert(before[p as int] == x);
                    assert forall|t: Seq<char>|
                        #[trigger] strings_view(out@).contains(t) <==> (seen1.contains(
                            t,
                        ) && kept_role(t)) by {
                        if seen1.contains(t) && kept_role(t) {
                            let m = choose|m: int|
                                0 <= m < seen1.len() && seen1[m] == t;
                            if m < i {
                                assert(seen[m] == t);
                            } else {
                                assert(before[p as int] == t);
                            }
                        }
                        if strings_view(out@).contains(t) {
                            let k = choose|k: int| 0 <= k < before.len() && before[k] == t;
                            let m = choose|m: int|
                                0 <= m < seen.len()
                                    && seen[m] == t;
                            assert(seen1[m] == t);
                        }
                    }
                }
            }
        }
        i = i + 1;
    }
    assert(names@.take(names@.len() as int) == names@);
    out
}

} // verus!
