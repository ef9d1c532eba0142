//! Byte-level helpers: big-endian octets of identifiers and lowercase hex.
use vstd::prelude::*;
use vstd::slice::slice_subrange;

verus! {

/// The last `k` octets of `n`, most significant first.
pub open spec fn be_octets(n: nat, k: nat) -> Seq<u8>
    decreases k,
{
    if k == 0 {
        Seq::empty()
    } else {
        be_octets(n / 256, (k - 1) as nat).push((n % 256) as u8)
    }
}

/// The sixteen octets of a UUID, as `Uuid::as_bytes` lays them out.
pub open spec fn uuid_octets(id: u128) -> Seq<u8> {
    be_octets(id as nat, 16)
}

/// The sixteen octets of a UUID held as a `u128` (big-endian).
pub fn uuid_bytes(id: u128) -> (octets: Vec<u8>)
    ensures
        octets@ == uuid_octets(id),
{
    let mut octets: Vec<u8> = Vec::new();
    let mut rest: u128 = id;
    let mut k: usize = 0;
    while k < 16
        invariant
            k <= 16,
            be_octets(id as nat, 16) == be_octets(rest as nat, (16 - k) as nat) + octets@,
        decreases 16 - k,
    {
        let b = (rest % 256) as u8;
        let ghost before = octets@;
        octets.insert(0, b);
        assert(be_octets(rest as nat, (16 - k) as nat) == be_octets((rest / 256) as nat, (16 - k
            - 1) as nat).push(b));
        assert(be_octets(rest as nat, (16 - k) as nat) + before == be_octets((rest / 256) as nat,
            (16 - k - 1) as nat) + octets@);
        rest = rest / 256;
        k = k + 1;
    }
    assert(be_octets(rest as nat, 0) + octets@ == octets@);
    octets
}

/// Lowercase hex digit of a value below sixteen.
pub open spec fn hex_digit(d: int) -> char {
    if d < 10 {
        ((d + 48) as u32) as char
    } else {
        ((d + 87) as u32) as char
    }
}

/// Two lowercase hex digits per byte, as `format!("{:02x}")` writes them.
pub open spec fn hex_lower(bytes: Seq<u8>) -> Seq<char>
    decreases bytes.len(),
{
    if bytes.len() == 0 {
        Seq::empty()
    } else {
        hex_lower(bytes.drop_last()).push(hex_digit((bytes.last() / 16) as int)).push(
            hex_digit((bytes.last() % 16) as int),
        )
    }
}

/// The hex of `n` bytes has `2 n` digits.
pub proof fn lemma_hex_lower_len(bytes: Seq<u8>)
    ensures
        hex_lower(bytes).len() == 2 * bytes.len(),
    decreases bytes.len(),
{
    if bytes.len() > 0 {
        lemma_hex_lower_len(bytes.drop_last());
    }
}

pub fn hex_digit_of(d: u8) -> (c: char)
    requires
        d < 16,
    ensures
        c == hex_digit(d as int),
{
    match d {
        0 => '0',
        1 => '1',
        2 => '2',
        3 => '3',
        4 => '4',
        5 => '5',
        6 => '6',
        7 => '7',
        8 => '8',
        9 => '9',
        10 => 'a',
        11 => 'b',
        12 => 'c',
        13 => 'd',
        14 => 'e',
        _ => 'f',
    }
}

/// Appends the lowercase hex of `bytes` to `out`.
pub fn push_hex_lower(out: &mut Vec<char>, bytes: &[u8])
    ensures
        final(out)@ == old(out)@ + hex_lower(bytes@),
{
    let mut i: usize = 0;
    while i < bytes.len()
        invariant
            i <= bytes.len(),
            out@ == old(out)@ + hex_lower(bytes@.take(i as int)),
        decreases bytes.len() - i,
    {
        let b = bytes[i];
        out.push(hex_digit_of(b / 16));
        out.push(hex_digit_of(b % 16));
        assert(bytes@.take(i + 1).drop_last() == bytes@.take(i as int));
        i = i + 1;
    }
    assert(bytes@.take(bytes@.len() as int) == bytes@);
}

pub proof fn lemma_be_octets_len(n: nat, k: nat)
    ensures
        be_octets(n, k).len() == k,
    decreases k,
{
    if k > 0 {
        lemma_be_octets_len(n / 256, (k - 1) as nat);
    }
}

/// The hyphenated lowercase text of a UUID (`Uuid`'s `Display`):
/// 8-4-4-4-12 hex digits.
pub open spec fn uuid_text(id: u128) -> Seq<char> {
    let o = uuid_octets(id);
    hex_lower(o.subrange(0, 4)) + seq!['-'] + hex_lower(o.subrange(4, 6)) + seq!['-'] + hex_lower(
        o.subrange(6, 8),
    ) + seq!['-'] + hex_lower(o.subrange(8, 10)) + seq!['-'] + hex_lower(o.subrange(10, 16))
}

/// The hyphenated lowercase text of a UUID held as a `u128`.
pub fn uuid_chars(id: u128) -> (text: Vec<char>)
    ensures
        text@ == uuid_text(id),
{
    let octets = uuid_bytes(id);
    proof {
        lemma_be_octets_len(id as nat, 16);
    }
    let o = octets.as_slice();
    let mut text: Vec<char> = Vec::new();
    push_hex_lower(&mut text, slice_subrange(o, 0, 4));
    text.push('-');
    push_hex_lower(&mut text, slice_subrange(o, 4, 6));
    text.push('-');
    push_hex_lower(&mut text, slice_subrange(o, 6, 8));
    text.push('-');
    push_hex_lower(&mut text, slice_subrange(o, 8, 10));
    text.push('-');
    push_hex_lower(&mut text, slice_subrange(o, 10, 16));
    text
}

/// `n` bytes from the thread's cryptographic generator (`rand::fill`).
#[verifier::external_body]
pub(crate) fn random_bytes(n: usize) -> (bytes: Vec<u8>)
    ensures
        bytes@.len() == n,
{
    let mut bytes = vec![0u8; n];
    rand::fill(&mut bytes[..]);
    bytes
}

} // verus!
