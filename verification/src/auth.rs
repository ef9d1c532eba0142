//! Local sign-in: email and password (Argon2id), one-time confirmation codes
//! and the rules on who may reach the password check at all.
use argon2::password_hash::phc::PasswordHash;
use argon2::password_hash::{PasswordHasher as _, PasswordVerifier as _};
use argon2::Argon2;
use vstd::prelude::*;

use crate::error::ApiError;
use crate::number::{digit_char, digit_of};
use crate::text::{chars_equal, chars_of, string_of};

verus! {

/// The sign-in request.
#[derive(Debug, Clone)]
pub struct LoginRequest {
    pub email: String,
    pub password: String,
}

/// Change of one's own password from the session.
#[derive(Debug, Clone)]
pub struct ChangePasswordRequest {
    /// The current password: without it a stolen session becomes a stolen
    /// account.
    pub current_password: String,
    /// Same bounds as at registration (12 to 128 characters).
    pub new_password: String,
}

/// The stored account as the sign-in reads it.
#[derive(Debug, Clone)]
pub struct UserRecord {
    pub id: u128,
    pub email: String,
    pub password_hash: Option<String>,
    pub full_name: String,
    pub locale: String,
    pub applicant_kind: Option<String>,
    pub id_number: Option<String>,
    pub phone: Option<String>,
    /// When the email was confirmed (Unix nanoseconds).
    pub email_confirmed_at: Option<i128>,
    /// When the phone was confirmed (Unix nanoseconds).
    pub phone_confirmed_at: Option<i128>,
    pub is_active: bool,
}

/// The interface language of a new account when none is given.
pub fn default_locale() -> (locale: String)
    ensures
        locale@ == "ru"@,
{
    "ru".to_owned()
}

/// The interface languages.
pub open spec fn supported_locale(value: Seq<char>) -> bool {
    value == "kk"@ || value == "ru"@ || value == "en"@
}

/// Check of the `locale` field: one of `kk`, `ru`, `en`.
pub fn known_locale(value: &str) -> (check: Result<(), String>)
    ensures
        check is Ok <==> supported_locale(value@),
        check matches Err(m) ==> m@ == "locale должен быть kk, ru или en"@,
{
    let v = chars_of(value);
    let kk = chars_of("kk");
    let ru = chars_of("ru");
    let en = chars_of("en");
    if chars_equal(&v, &kk) || chars_equal(&v, &ru) || chars_equal(&v, &en) {
        Ok(())
    } else {
        Err("locale должен быть kk, ru или en".to_owned())
    }
}

/// A confirmation code: exactly eight ASCII digits.
pub open spec fn code_well_formed(bytes: Seq<u8>) -> bool {
    bytes.len() == 8 && forall|i: int| 0 <= i < bytes.len() ==> 48 <= #[trigger] bytes[i] <= 57
}

/// Check of the one-time confirmation code.
pub fn valid_verification_code(value: &str) -> (check: Result<(), String>)
    ensures
        check is Ok <==> code_well_formed(vstd::utf8::encode_utf8(value@)),
        check matches Err(m) ==> m@ == "код должен состоять из 8 цифр"@,
{
    let bytes = value.as_bytes();
    let mut ok = bytes.len() == 8;
    let mut i: usize = 0;
    while i < bytes.len()
        invariant
            i <= bytes.len(),
            ok == (bytes@.len() == 8 && forall|j: int| 0 <= j < i ==> 48 <= #[trigger] bytes@[j] <= 57),
        decreases bytes.len() - i,
    {
        let b = bytes[i];
        if !(48 <= b && b <= 57) {
            ok = false;
        }
        i = i + 1;
    }
    if ok {
        Ok(())
    } else {
        Err("код должен состоять из 8 цифр".to_owned())
    }
}

/// Whether Argon2 accepts `password` against the PHC string `phc`.
pub uninterp spec fn argon2_accepts(password: Seq<char>, phc: Seq<char>) -> bool;

/// `Argon2::default().hash_password`: a PHC string with a fresh random salt.
/// The password it was made from verifies against it.
#[verifier::external_body]
fn argon2_hash(password: &str) -> (phc: Result<String, String>)
    ensures
        phc matches Ok(h) ==> argon2_accepts(password@, h@),
{
    match Argon2::default().hash_password(password.as_bytes()) {
        Ok(hash) => Ok(hash.to_string()),
        Err(error) => Err(error.to_string()),
    }
}

/// `Argon2::default().verify_password` against a PHC string (a string that
/// does not parse as one verifies nothing).
#[verifier::external_body]
fn argon2_verify(password: &str, phc: &str) -> (accepted: bool)
    ensures
        accepted == argon2_accepts(password@, phc@),
{
    match phc.parse::<PasswordHash>() {
        Ok(parsed) => Argon2::default().verify_password(password.as_bytes(), &parsed).is_ok(),
        Err(_) => false,
    }
}

/// The hash of a new password.
pub fn hash_password(password: &str) -> (phc: Result<String, ApiError>)
    ensures
        phc matches Ok(h) ==> argon2_accepts(password@, h@),
        phc is Err ==> phc->Err_0 is Internal,
{
    match argon2_hash(password) {
        Ok(h) => Ok(h),
        Err(description) => Err(ApiError::internal(description)),
    }
}

/// A dummy Argon2id hash: checking against it costs as much as a real
/// check, so an unknown account answers as slowly as a wrong password.
pub const DUMMY_HASH: &'static str = "$argon2id$v=19$m=19456,t=2,p=1$C29tZXNhbHRzb21lc2FsdA$Zg8dLKiCC7EqhFsGvBnBFCoWTVaLksIQFXHy3nAxHQE";

pub open spec fn opt_str_view(o: Option<&str>) -> Option<Seq<char>> {
    match o {
        Some(s) => Some(s@),
        None => None,
    }
}

/// Whether a password passes against the stored hash, if there is one.
pub open spec fn password_verified(password: Seq<char>, stored: Option<Seq<char>>) -> bool {
    match stored {
        Some(h) => argon2_accepts(password, h),
        None => false,
    }
}

/// The password check. Without a stored hash the dummy hash is checked all
/// the same (equal timing), and the answer is no.
pub fn verify_password(password: &str, stored_hash: Option<&str>) -> (verified: bool)
    ensures
        verified == password_verified(password@, opt_str_view(stored_hash)),
{
    let hash = match stored_hash {
        Some(h) => h,
        None => DUMMY_HASH,
    };
    let accepted = argon2_verify(password, hash);
    accepted && stored_hash.is_some()
}

pub open spec fn confirmed(record: UserRecord) -> bool {
    record.email_confirmed_at is Some || record.phone_confirmed_at is Some
}

/// An active account reaches the password check once either of its
/// contacts is confirmed: a confirmed phone admits it as a confirmed email
/// does. An account with neither confirmed, or a deactivated one, does not.
pub proof fn a_confirmed_contact_admits_an_active_account(r: UserRecord)
    ensures
        r.is_active && r.phone_confirmed_at is Some ==> r.is_active && confirmed(r),
        r.is_active && r.email_confirmed_at is Some ==> r.is_active && confirmed(r),
        r.email_confirmed_at is None && r.phone_confirmed_at is None ==> !confirmed(r),
{
}

/// Who reaches the password check at all: an active account with a
/// confirmed email or phone, together with its hash. An unknown email, a
/// deactivated account and an unconfirmed one all come out as "nobody, no
/// hash", and reach the check the same way.
pub fn admitted_credentials(user: Option<UserRecord>) -> (admitted: (Option<UserRecord>, Option<String>))
    ensures
        match user {
            Some(r) => if r.is_active && confirmed(r) {
                admitted.0 == Some(r) && admitted.1 == r.password_hash
            } else {
                admitted.0 is None && admitted.1 is None
            },
            None => admitted.0 is None && admitted.1 is None,
        },
        match user {
            Some(r) => r.is_active && (r.email_confirmed_at is Some || r.phone_confirmed_at is Some)
                ==> admitted.0 == Some(r) && admitted.1 == r.password_hash,
            None => admitted.0 is None,
        },
{
    match user {
        Some(record) => {
            if record.is_active && (record.email_confirmed_at.is_some()
                || record.phone_confirmed_at.is_some()) {
                let hash = match &record.password_hash {
                    Some(h) => Some(h.clone()),
                    None => None,
                };
                (Some(record), hash)
            } else {
                (None, None)
            }
        },
        None => (None, None),
    }
}

/// The outcome of a sign-in: the admitted account when its password
/// checked, otherwise the one refusal for every case.
pub fn login_outcome(admitted: Option<UserRecord>, verified: bool) -> (outcome: Result<UserRecord, ApiError>)
    ensures
        match admitted {
            Some(r) => if verified {
                outcome == Ok::<UserRecord, ApiError>(r)
            } else {
                outcome matches Err(ApiError::InvalidCredentials)
            },
            None => outcome matches Err(ApiError::InvalidCredentials),
        },
{
    match admitted {
        Some(record) => {
            if verified {
                Ok(record)
            } else {
                Err(ApiError::InvalidCredentials)
            }
        },
        None => Err(ApiError::InvalidCredentials),
    }
}

pub open spec fn no_local_password_message() -> Seq<char> {
    "у учетной записи нет локального пароля - вход выполняется через внешнего провайдера"@
}

/// The check before a password change: the current password must match. An
/// account without a local password (opened by the provider) is not given
/// one on the way.
pub fn authorize_password_change(stored_hash: Option<&str>, current: &str) -> (verdict: Result<(), ApiError>)
    ensures
        verdict is Ok <==> change_authorized(opt_str_view(stored_hash), current@),
        match opt_str_view(stored_hash) {
            None => verdict matches Err(ApiError::Validation(m)) && m@ == no_local_password_message(),
            Some(h) => if argon2_accepts(current@, h) {
                verdict is Ok
            } else {
                verdict matches Err(ApiError::InvalidCredentials)
            },
        },
{
    let stored = match stored_hash {
        None => {
            return Err(ApiError::Validation(
                "у учетной записи нет локального пароля - вход выполняется через внешнего провайдера".to_owned(),
            ));
        },
        Some(stored) => stored,
    };
    if verify_password(current, Some(stored)) {
        Ok(())
    } else {
        Err(ApiError::InvalidCredentials)
    }
}

/// Whether the check before a password change lets `current` through.
pub open spec fn change_authorized(stored: Option<Seq<char>>, current: Seq<char>) -> bool {
    match stored {
        Some(h) => argon2_accepts(current, h),
        None => false,
    }
}

/// A password hashed by `hash_password` passes the check before the next
/// change: whatever hash `hash_password` gives for a password (its
/// `ensures`), the check lets that same password through.
pub proof fn hashed_password_opens_the_change(password: Seq<char>, phc: Seq<char>)
    requires
        argon2_accepts(password, phc),
    ensures
        change_authorized(Some(phc), password),
{
}


/// The channel by which a new account confirms itself.
#[derive(Debug, Clone, Copy, PartialEq, Eq, Structural)]
pub enum VerificationChannel {
    Email,
    Sms,
}

/// Registration of a participant.
pub struct RegisterRequest {
    pub email: String,
    pub password: String,
    pub full_name: String,
    pub applicant_kind: crate::dto::ApplicantKindDto,
    pub id_number: String,
    pub phone: String,
    pub verification_channel: VerificationChannel,
    pub locale: String,
}

/// A field of a registration whose length is out of its bounds.
#[derive(Debug, Clone, Copy, PartialEq, Eq, Structural)]
pub enum RegisterField {
    Email,
    Password,
    FullName,
    Locale,
}

/// An email of at most 254 bytes.
pub open spec fn email_within_bounds(email: Seq<char>) -> bool {
    vstd::utf8::encode_utf8(email).len() <= 254
}

/// A password of 12 to 128 characters.
pub open spec fn password_within_bounds(password: Seq<char>) -> bool {
    12 <= password.len() <= 128
}

/// A full name of 1 to 200 characters.
pub open spec fn full_name_within_bounds(name: Seq<char>) -> bool {
    1 <= name.len() <= 200
}

pub open spec fn field_if(bad: bool, field: RegisterField) -> Seq<RegisterField> {
    if bad {
        seq![field]
    } else {
        Seq::empty()
    }
}

/// The fields of a registration that break their bounds, in the order of
/// the request.
pub open spec fn register_bounds_spec(r: RegisterRequest) -> Seq<RegisterField> {
    field_if(!email_within_bounds(r.email@), RegisterField::Email) + field_if(
        !password_within_bounds(r.password@),
        RegisterField::Password,
    ) + field_if(!full_name_within_bounds(r.full_name@), RegisterField::FullName) + field_if(
        !supported_locale(r.locale@),
        RegisterField::Locale,
    )
}

/// The bounds of a registration: an email of at most 254 bytes, a password
/// of 12 to 128 characters, a full name of 1 to 200 characters and a known
/// interface language. The fields that break them come back in the order of
/// the request; none when the request keeps them all. (The form of the
/// email, the id number and the phone are checked elsewhere.)
pub fn register_bounds(request: &RegisterRequest) -> (broken: Vec<RegisterField>)
    ensures
        broken@ == register_bounds_spec(*request),
{
    let mut broken: Vec<RegisterField> = Vec::new();
    let email_bytes = request.email.as_str().as_bytes().len();
    if email_bytes > 254 {
        broken.push(RegisterField::Email);
    }
    let ghost after_email = broken@;
    let password_chars = chars_of(request.password.as_str()).len();
    if password_chars < 12 || password_chars > 128 {
        broken.push(RegisterField::Password);
    }
    let ghost after_password = broken@;
    let name_chars = chars_of(request.full_name.as_str()).len();
    if name_chars < 1 || name_chars > 200 {
        broken.push(RegisterField::FullName);
    }
    let ghost after_name = broken@;
    if known_locale(request.locale.as_str()).is_err() {
        broken.push(RegisterField::Locale);
    }
    proof {
        let r = *request;
        assert(after_email == field_if(!email_within_bounds(r.email@), RegisterField::Email));
        assert(after_password == after_email + field_if(
            !password_within_bounds(r.password@),
            RegisterField::Password,
        ));
        assert(after_name == after_password + field_if(
            !full_name_within_bounds(r.full_name@),
            RegisterField::FullName,
        ));
        assert(broken@ == after_name + field_if(!supported_locale(r.locale@), RegisterField::Locale));
    }
    broken
}

/// The answer to a registration: a code went out by the channel.
pub struct RegistrationPendingDto {
    pub email: String,
    pub verification_channel: VerificationChannel,
}

/// Confirmation of a new account by the code it was sent.
pub struct ConfirmRegistrationRequest {
    pub email: String,
    pub verification_channel: VerificationChannel,
    pub code: String,
}

/// Where the confirmation code goes: the email address or the phone.
pub fn verification_recipient<'a>(channel: VerificationChannel, email: &'a str, phone: &'a str) -> (recipient: &'a str)
    ensures
        recipient@ == match channel {
            VerificationChannel::Email => email@,
            VerificationChannel::Sms => phone@,
        },
{
    match channel {
        VerificationChannel::Email => email,
        VerificationChannel::Sms => phone,
    }
}

/// The last `k` decimal digits of `n`, zero-padded on the left
/// (`format!("{:0k$}")` for `n < 10^k`).
pub open spec fn padded_digits(n: nat, k: nat) -> Seq<char>
    decreases k,
{
    if k == 0 {
        Seq::empty()
    } else {
        padded_digits(n / 10, (k - 1) as nat).push(digit_char((n % 10) as int))
    }
}

proof fn lemma_padded_digits(n: nat, k: nat)
    ensures
        padded_digits(n, k).len() == k,
        forall|i: int| 0 <= i < k ==> '0' <= #[trigger] padded_digits(n, k)[i] <= '9',
    decreases k,
{
    if k > 0 {
        lemma_padded_digits(n / 10, (k - 1) as nat);
        let d = (n % 10) as int;
        assert(0 <= d < 10);
        assert('0' <= digit_char(d) <= '9');
        assert forall|i: int| 0 <= i < k implies '0' <= #[trigger] padded_digits(n, k)[i] <= '9' by {
            if i < k - 1 {
                assert(padded_digits(n, k)[i] == padded_digits(n / 10, (k - 1) as nat)[i]);
            }
        }
    }
}

/// A code made of eight digits passes the check of confirmation codes.
pub proof fn issued_code_is_well_formed(n: nat)
    ensures
        code_well_formed(vstd::utf8::encode_utf8(padded_digits(n, 8))),
{
    let code = padded_digits(n, 8);
    lemma_padded_digits(n, 8);
    assert(vstd::utf8::is_ascii_chars(code)) by {
        assert forall|i: int| 0 <= i < code.len() implies '\0' <= #[trigger] code[i] <= '\u{7f}' by {
            assert('0' <= code[i] <= '9');
        }
    }
    vstd::utf8::is_ascii_chars_encode_utf8(code);
    let bytes = vstd::utf8::encode_utf8(code);
    assert forall|i: int| 0 <= i < bytes.len() implies 48 <= #[trigger] bytes[i] <= 57 by {
        assert(code[i] as u8 == bytes[i]);
        assert('0' <= code[i] <= '9');
    }
}

/// The confirmation code written from a drawn number: its last eight
/// decimal digits, zero-padded (`format!("{:08}", drawn % 100_000_000)`).
pub fn code_from(drawn: u32) -> (code: String)
    ensures
        code@ == padded_digits((drawn % 100000000) as nat, 8),
        code_well_formed(vstd::utf8::encode_utf8(code@)),
{
    let mut n: u32 = drawn % 100000000;
    let mut digits: Vec<char> = Vec::new();
    let mut k: usize = 0;
    while k < 8
        invariant
            k <= 8,
            padded_digits((drawn % 100000000) as nat, 8) == padded_digits(n as nat, (8 - k) as nat)
                + digits@,
        decreases 8 - k,
    {
        let d = digit_of(n % 10);
        let ghost before = digits@;
        digits.insert(0, d);
        assert(padded_digits(n as nat, (8 - k) as nat) == padded_digits((n / 10) as nat, (8 - k - 1) as nat).push(d));
        assert(padded_digits(n as nat, (8 - k) as nat) + before == padded_digits((n / 10) as nat, (8 - k - 1) as nat) + digits@);
        n = n / 10;
        k = k + 1;
    }
    assert(padded_digits(n as nat, 0) + digits@ == digits@);
    proof {
        issued_code_is_well_formed((drawn % 100000000) as nat);
    }
    string_of(digits.as_slice())
}

/// A fresh confirmation code: `code_from` of a number drawn from four
/// random bytes; it passes `valid_verification_code`.
pub fn verification_code() -> (code: String)
    ensures
        exists|drawn: u32| code@ == #[trigger] padded_digits((drawn % 100000000) as nat, 8),
        code_well_formed(vstd::utf8::encode_utf8(code@)),
{
    let bytes = crate::bytes::random_bytes(4);
    let drawn: u32 = ((bytes[0] as u32) * 16777216) + ((bytes[1] as u32) * 65536) + ((bytes[2]
        as u32) * 256) + (bytes[3] as u32);
    code_from(drawn)
}

/// A password stored by its hash signs in: whatever hash `hash_password`
/// (or a password reset) gives for a password, the sign-in check passes that
/// same password against it.
pub proof fn a_hashed_password_signs_in(password: Seq<char>, phc: Seq<char>)
    requires
        argon2_accepts(password, phc),
    ensures
        password_verified(password, Some(phc)),
{
}

} // verus!
