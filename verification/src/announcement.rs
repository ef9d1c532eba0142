//! Amounts of money as the printed forms show them: «52 495,00», digits
//! grouped by a narrow no-break space, a decimal comma and exactly two
//! fractional digits, since tiyn are significant.
use vstd::prelude::*;

use crate::number::{decimal, decimal_digits, digit_char, digit_of};
use crate::text::string_of;
use rust_decimal::Decimal;

verus! {

/// A decimal amount as `rust_decimal` holds it: `mantissa / 10^scale`.
#[derive(Debug, Clone, Copy, PartialEq, Eq, Structural)]
pub struct Amount {
    pub mantissa: i128,
    pub scale: u32,
}

/// The largest magnitude of a mantissa: 96 bits.
pub const MAX_MANTISSA: u128 = 79228162514264337593543950335;

impl Amount {
    /// Whether `rust_decimal` can hold the amount: a 96-bit mantissa and at
    /// most 28 fractional digits.
    pub open spec fn representable(self) -> bool {
        &&& self.scale <= 28
        &&& -(MAX_MANTISSA as int) <= self.mantissa <= MAX_MANTISSA
    }
}

/// `10^k`.
pub open spec fn pow10(k: nat) -> nat
    decreases k,
{
    if k == 0 {
        1
    } else {
        10 * pow10((k - 1) as nat)
    }
}

/// `n / d` rounded to the nearest integer, a tie to the even neighbour
/// (banker's rounding).
pub open spec fn half_even(n: nat, d: nat) -> nat {
    let q = n / d;
    let r = n % d;
    if 2 * r > d || (2 * r == d && q % 2 == 1) {
        q + 1
    } else {
        q
    }
}

/// The magnitude of a mantissa.
pub open spec fn magnitude(m: i128) -> nat {
    if m < 0 {
        (-m) as nat
    } else {
        m as nat
    }
}

/// `mantissa / 10^scale` rounded to hundredths by banker's rounding, as
/// `Decimal::round_dp(2)` gives it: the magnitude of the mantissa and the
/// scale; an amount with at most two fractional digits stays as it is.
pub open spec fn rounded_to_cents(mantissa: i128, scale: u32) -> (nat, nat) {
    if scale <= 2 {
        (magnitude(mantissa), scale as nat)
    } else {
        (half_even(magnitude(mantissa), pow10((scale - 2) as nat)), 2)
    }
}

/// `Decimal::round_dp(2)` on `mantissa / 10^scale`, given back as sign,
/// magnitude and scale: banker's rounding to hundredths, the sign of the
/// input unless the result is zero (`rust_decimal` keeps no negative zero
/// there).
#[verifier::external_body]
fn round_to_cents(mantissa: i128, scale: u32) -> (r: (bool, u128, u32))
    requires
        scale <= 28,
        -(MAX_MANTISSA as int) <= mantissa <= MAX_MANTISSA,
    ensures
        r.1 as nat == rounded_to_cents(mantissa, scale).0,
        r.2 as nat == rounded_to_cents(mantissa, scale).1,
        r.0 == (mantissa < 0 && r.1 != 0),
        r.1 <= MAX_MANTISSA,
{
    let d = Decimal::from_i128_with_scale(mantissa, scale).round_dp(2);
    (d.is_sign_negative(), d.mantissa().unsigned_abs(), d.scale())
}

/// The narrow no-break space that separates groups of three digits.
pub open spec fn group_separator() -> char {
    '\u{202f}'
}

/// The first `n` characters of `digits` with a separator before each one
/// whose distance from the end of `digits` is a positive multiple of three.
pub open spec fn grouped_prefix(digits: Seq<char>, n: nat) -> Seq<char>
    decreases n,
{
    if n == 0 {
        Seq::empty()
    } else {
        let i = n - 1;
        let before = grouped_prefix(digits, i as nat);
        if i > 0 && (digits.len() - i) % 3 == 0 {
            before.push(group_separator()).push(digits[i])
        } else {
            before.push(digits[i])
        }
    }
}

/// `digits` grouped by threes from the right.
pub open spec fn grouped(digits: Seq<char>) -> Seq<char> {
    grouped_prefix(digits, digits.len())
}

/// The whole units of a magnitude with at most two fractional digits.
pub open spec fn whole_units(magnitude: nat, scale: nat) -> nat {
    if scale == 0 {
        magnitude
    } else if scale == 1 {
        magnitude / 10
    } else {
        magnitude / 100
    }
}

/// The hundredths of a magnitude with at most two fractional digits.
pub open spec fn hundredths(magnitude: nat, scale: nat) -> nat {
    if scale == 0 {
        0
    } else if scale == 1 {
        (magnitude % 10) * 10
    } else {
        magnitude % 100
    }
}

/// The printed form of a signed amount with at most two fractional digits.
pub open spec fn ru_text(negative: bool, magnitude: nat, scale: nat) -> Seq<char> {
    let cents = hundredths(magnitude, scale);
    (if negative {
        seq!['\u{2212}']
    } else {
        Seq::empty()
    }) + grouped(decimal(whole_units(magnitude, scale))) + seq![
        ',',
        digit_char((cents / 10) as int),
        digit_char((cents % 10) as int),
    ]
}

/// The printed form of an amount, rounded to hundredths first; a minus
/// sign only before a non-zero result.
pub open spec fn ru_amount(value: Amount) -> Seq<char> {
    let r = rounded_to_cents(value.mantissa, value.scale);
    ru_text(value.mantissa < 0 && r.0 != 0, r.0, r.1)
}

/// «52 495,00»: the amount rounded to hundredths (banker's rounding), its
/// whole part grouped by threes with a narrow no-break space, a decimal
/// comma, exactly two fractional digits, and a minus sign (U+2212) before a
/// negative amount.
pub fn format_decimal_ru(value: Amount) -> (text: String)
    requires
        value.representable(),
    ensures
        text@ == ru_amount(value),
{
    let (negative, magnitude, scale) = round_to_cents(value.mantissa, value.scale);
    let units: u128 = if scale == 0 {
        magnitude
    } else if scale == 1 {
        magnitude / 10
    } else {
        magnitude / 100
    };
    let cents: u128 = if scale == 0 {
        0
    } else if scale == 1 {
        (magnitude % 10) * 10
    } else {
        magnitude % 100
    };
    let digits = decimal_digits(units);
    let mut out: Vec<char> = Vec::new();
    if negative {
        out.push('\u{2212}');
    }
    let ghost sign = out@;
    let len = digits.len();
    let mut i: usize = 0;
    while i < len
        invariant
            i <= len,
            len == digits@.len(),
            out@ == sign + grouped_prefix(digits@, i as nat),
        decreases len - i,
    {
        if i > 0 && (len - i) % 3 == 0 {
            out.push('\u{202f}');
        }
        out.push(digits[i]);
        i = i + 1;
    }
    out.push(',');
    out.push(digit_of((cents / 10) as u32));
    out.push(digit_of((cents % 10) as u32));
    string_of(out.as_slice())
}

// ------------------------------------------------------ announcement form

/// The tender as the announcement shows it; instants are Unix nanoseconds.
pub struct AnnouncedTender {
    pub id: u128,
    pub status: String,
    pub title: String,
    pub announced_at: Option<i128>,
    pub submission_deadline: Option<i128>,
    pub opening_at: Option<i128>,
    pub trading_at: Option<i128>,
}

/// A lot of the tender with its object. `rate_unit_title` is the Russian
/// name of the unit the rate is given for (per month, per hour).
pub struct AnnouncedLot {
    pub seq: i32,
    pub purpose: String,
    pub lease_months: i32,
    pub base_rate_monthly: Amount,
    pub guarantee_fee: Amount,
    pub viewing_terms: Option<String>,
    pub rate_unit_title: String,
    pub hours_total: Option<i32>,
    pub object_name: String,
    pub object_address: String,
    pub object_area: Amount,
}

pub struct AnnouncementLotLine {
    pub seq: i32,
    pub object: String,
    pub area: String,
    pub purpose: String,
    pub lease_months: i32,
    pub monthly: String,
    pub rate_unit: String,
    pub hours_total: Option<i32>,
    pub fee: String,
}

/// When and how the object of a lot may be viewed.
pub struct Viewing {
    pub seq: i32,
    pub text: String,
}

/// The data of the printed announcement: every value already formatted.
pub struct AnnouncementContent {
    pub is_draft: bool,
    pub number: String,
    pub title: String,
    pub published_at: String,
    pub submission_deadline: String,
    pub opening_at: String,
    pub trading_at: String,
    pub lots: Vec<AnnouncementLotLine>,
    pub viewings: Vec<Viewing>,
}

/// An instant of the announcement in Asia/Almaty time, `не назначено` when
/// it is not set (or cannot be written).
pub open spec fn announced_time(value: Option<i128>) -> Seq<char> {
    match value {
        Some(n) => match crate::admission::almaty_minutes(n) {
            Some(t) => t,
            None => "не назначено"@,
        },
        None => "не назначено"@,
    }
}

/// An instant of the announcement in Asia/Almaty time to the minute.
pub fn format_almaty_opt(value: Option<i128>) -> (text: String)
    ensures
        text@ == announced_time(value),
{
    match value {
        Some(n) => match crate::admission::almaty_text(n) {
            Some(t) => t,
            None => "не назначено".to_owned(),
        },
        None => "не назначено".to_owned(),
    }
}

pub open spec fn lot_line_of(line: AnnouncementLotLine, lot: AnnouncedLot) -> bool {
    &&& line.seq == lot.seq
    &&& line.object@ == lot.object_name@ + " ("@ + lot.object_address@ + ")"@
    &&& line.area@ == ru_amount(lot.object_area)
    &&& line.purpose@ == lot.purpose@
    &&& line.lease_months == lot.lease_months
    &&& line.monthly@ == ru_amount(lot.base_rate_monthly)
    &&& line.rate_unit@ == lot.rate_unit_title@
    &&& line.hours_total == lot.hours_total
    &&& line.fee@ == ru_amount(lot.guarantee_fee)
}

/// The viewing terms of the first `n` lots, in order, for the lots that
/// have them.
pub open spec fn viewings_of(lots: Seq<AnnouncedLot>, n: nat) -> Seq<(i32, Seq<char>)>
    decreases n,
{
    if n == 0 {
        Seq::empty()
    } else {
        viewings_of(lots, (n - 1) as nat) + match lots[n - 1].viewing_terms {
            Some(t) => seq![(lots[n - 1].seq, t@)],
            None => Seq::empty(),
        }
    }
}

pub open spec fn viewings_view(v: Seq<Viewing>) -> Seq<(i32, Seq<char>)> {
    v.map_values(|w: Viewing| (w.seq, w.text@))
}

pub open spec fn amounts_representable(lots: Seq<AnnouncedLot>) -> bool {
    forall|i: int|
        0 <= i < lots.len() ==> (#[trigger] lots[i]).object_area.representable()
            && lots[i].base_rate_monthly.representable() && lots[i].guarantee_fee.representable()
}

/// The data of the printed announcement of a tender: a draft is marked as
/// one, instants show in Asia/Almaty time, amounts in the Russian form, and
/// the viewing terms are listed for the lots that have them.
pub fn announcement_data(tender: &AnnouncedTender, lots: &Vec<AnnouncedLot>) -> (content:
    AnnouncementContent)
    requires
        amounts_representable(lots@),
    ensures
        content.is_draft == (tender.status@ == "draft"@),
        content.number@ == crate::admission::short_number_text(tender.id),
        content.title@ == tender.title@,
        content.published_at@ == announced_time(tender.announced_at),
        content.submission_deadline@ == announced_time(tender.submission_deadline),
        content.opening_at@ == announced_time(tender.opening_at),
        content.trading_at@ == announced_time(tender.trading_at),
        content.lots@.len() == lots@.len(),
        forall|i: int| 0 <= i < lots@.len() ==> lot_line_of(#[trigger] content.lots@[i], lots@[i]),
        viewings_view(content.viewings@) == viewings_of(lots@, lots@.len() as nat),
{
    let mut lines: Vec<AnnouncementLotLine> = Vec::new();
    let mut viewings: Vec<Viewing> = Vec::new();
    let mut i: usize = 0;
    while i < lots.len()
        invariant
            i <= lots@.len(),
            amounts_representable(lots@),
            lines@.len() == i,
            forall|j: int| 0 <= j < i ==> lot_line_of(#[trigger] lines@[j], lots@[j]),
            viewings_view(viewings@) == viewings_of(lots@, i as nat),
        decreases lots.len() - i,
    {
        let lot = &lots[i];
        assert(lots@[i as int].object_area.representable());
        let mut object = crate::text::chars_of(lot.object_name.as_str());
        let mut part = crate::text::chars_of(" (");
        object.append(&mut part);
        let mut part = crate::text::chars_of(lot.object_address.as_str());
        object.append(&mut part);
        let mut part = crate::text::chars_of(")");
        object.append(&mut part);
        lines.push(AnnouncementLotLine {
            seq: lot.seq,
            object: string_of(object.as_slice()),
            area: format_decimal_ru(lot.object_area),
            purpose: lot.purpose.clone(),
            lease_months: lot.lease_months,
            monthly: format_decimal_ru(lot.base_rate_monthly),
            rate_unit: lot.rate_unit_title.clone(),
            hours_total: lot.hours_total,
            fee: format_decimal_ru(lot.guarantee_fee),
        });
        let ghost before = viewings@;
        match &lot.viewing_terms {
            Some(text) => {
                viewings.push(Viewing { seq: lot.seq, text: text.clone() });
                assert(viewings_view(viewings@) == viewings_view(before).push((lot.seq, text@)));
            },
            None => {},
        }
        i = i + 1;
    }
    let status = crate::text::chars_of(tender.status.as_str());
    let draft = crate::text::chars_of("draft");
    AnnouncementContent {
        is_draft: crate::text::chars_equal(status.as_slice(), draft.as_slice()),
        number: crate::admission::short_number(tender.id),
        title: tender.title.clone(),
        published_at: format_almaty_opt(tender.announced_at),
        submission_deadline: format_almaty_opt(tender.submission_deadline),
        opening_at: format_almaty_opt(tender.opening_at),
        trading_at: format_almaty_opt(tender.trading_at),
        lots: lines,
        viewings,
    }
}

} // verus!
