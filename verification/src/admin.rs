//! Administration: granting roles, resetting passwords and the data purge of
//! a deployment (allowed by configuration only, confirmed by a typed word).
use vstd::prelude::*;

use crate::error::ApiError;
use crate::text::{chars_equal, chars_of, str_equal, string_of, trim_chars, trimmed};

verus! {

/// Request to grant a role to a user.
#[derive(Debug, Clone)]
pub struct GrantRoleRequest {
    pub role: String,
}

/// A new one-time password, shown once to the administrator.
#[derive(Debug, Clone)]
pub struct PasswordResetDto {
    pub password: String,
}

/// Request to switch an account on or off.
#[derive(Debug, Clone, Copy)]
pub struct SetActiveRequest {
    pub is_active: bool,
}

/// The 32 symbols of a one-time password: `0`/`O` and `1`/`l`/`I` are left
/// out, since the password is dictated and copied by eye. A power of two, so
/// a byte picks a symbol without bias.
pub open spec fn otp_alphabet() -> Seq<char> {
    seq!['2', '3', '4', '5', '6', '7', '8', '9', 'a', 'b', 'c', 'd', 'e', 'f', 'g', 'h', 'i', 'j', 'k', 'm', 'n', 'p', 'q', 'r', 's', 't', 'u', 'v', 'w', 'x', 'y', 'z']
}

fn otp_symbol(i: u8) -> (c: char)
    requires
        i < 32,
    ensures
        c == otp_alphabet()[i as int],
{
    match i {
        0 => '2',
        1 => '3',
        2 => '4',
        3 => '5',
        4 => '6',
        5 => '7',
        6 => '8',
        7 => '9',
        8 => 'a',
        9 => 'b',
        10 => 'c',
        11 => 'd',
        12 => 'e',
        13 => 'f',
        14 => 'g',
        15 => 'h',
        16 => 'i',
        17 => 'j',
        18 => 'k',
        19 => 'm',
        20 => 'n',
        21 => 'p',
        22 => 'q',
        23 => 'r',
        24 => 's',
        25 => 't',
        26 => 'u',
        27 => 'v',
        28 => 'w',
        29 => 'x',
        30 => 'y',
        _ => 'z',
    }
}

/// The password written from random bytes: one symbol per byte, a hyphen
/// before every fifth.
pub open spec fn otp_text(bytes: Seq<u8>) -> Seq<char>
    decreases bytes.len(),
{
    if bytes.len() == 0 {
        Seq::empty()
    } else {
        let i = bytes.len() - 1;
        otp_text(bytes.drop_last()) + (if i > 0 && i % 5 == 0 {
            seq!['-']
        } else {
            Seq::empty()
        }) + seq![otp_alphabet()[(bytes.last() % 32) as int]]
    }
}

proof fn lemma_otp_text_shape(bytes: Seq<u8>)
    requires
        bytes.len() <= 20,
    ensures
        otp_text(bytes).len() == bytes.len() + (if bytes.len() == 0 { 0int } else { (bytes.len() - 1) / 5 }),
        forall|k: int| 0 <= k < otp_text(bytes).len() ==> ((k == 5 || k == 11 || k == 17) <==> #[trigger] otp_text(bytes)[k] == '-'),
        forall|k: int| 0 <= k < otp_text(bytes).len() && k != 5 && k != 11 && k != 17 ==> otp_alphabet().contains(#[trigger] otp_text(bytes)[k]),
    decreases bytes.len(),
{
    if bytes.len() > 0 {
        lemma_otp_text_shape(bytes.drop_last());
        let prev = otp_text(bytes.drop_last());
        let t = otp_text(bytes);
        let i = bytes.len() - 1;
        let sym = otp_alphabet()[(bytes.last() % 32) as int];
        assert(otp_alphabet().contains(sym));
        assert(sym != '-') by {
            assert(otp_alphabet().len() == 32);
            assert forall|j: int| 0 <= j < 32 implies otp_alphabet()[j] != '-' by {}
        }
        assert forall|k: int| 0 <= k < t.len() implies ((k == 5 || k == 11 || k == 17) <==> #[trigger] t[k] == '-') by {
            if k < prev.len() {
                assert(t[k] == prev[k]);
            }
        }
        assert forall|k: int| 0 <= k < t.len() && k != 5 && k != 11 && k != 17 implies otp_alphabet().contains(#[trigger] t[k]) by {
            if k < prev.len() {
                assert(t[k] == prev[k]);
            }
        }
    }
}

/// The one-time password written from twenty drawn bytes: one symbol of
/// the alphabet per byte (its five low bits), in groups of five joined by
/// hyphens - 23 characters.
pub fn otp_from(bytes: &[u8]) -> (password: String)
    requires
        bytes@.len() == 20,
    ensures
        password@ == otp_text(bytes@),
        password@.len() == 23,
        forall|k: int| 0 <= k < 23 ==> ((k == 5 || k == 11 || k == 17) <==> #[trigger] password@[k] == '-'),
        forall|k: int| 0 <= k < 23 && k != 5 && k != 11 && k != 17 ==> otp_alphabet().contains(#[trigger] password@[k]),
{
    let mut out: Vec<char> = Vec::new();
    let mut i: usize = 0;
    while i < 20
        invariant
            i <= 20,
            bytes@.len() == 20,
            out@ == otp_text(bytes@.take(i as int)),
        decreases 20 - i,
    {
        assert(bytes@.take(i + 1).drop_last() == bytes@.take(i as int));
        if i > 0 && i % 5 == 0 {
            out.push('-');
        }
        out.push(otp_symbol(bytes[i] % 32));
        assert(out@ =~= otp_text(bytes@.take(i + 1)));
        i = i + 1;
    }
    assert(bytes@.take(20) == bytes@);
    proof {
        lemma_otp_text_shape(bytes@);
    }
    string_of(out.as_slice())
}

/// A one-time password: twenty random bytes written by `otp_from` (a
/// hundred bits of entropy).
pub fn one_time_password() -> (password: String)
    ensures
        exists|bytes: Seq<u8>| bytes.len() == 20 && password@ == otp_text(bytes),
        password@.len() == 23,
        forall|k: int| 0 <= k < 23 ==> ((k == 5 || k == 11 || k == 17) <==> #[trigger] password@[k] == '-'),
        forall|k: int| 0 <= k < 23 && k != 5 && k != 11 && k != 17 ==> otp_alphabet().contains(#[trigger] password@[k]),
{
    let bytes = crate::bytes::random_bytes(20);
    otp_from(bytes.as_slice())
}

/// The word that confirms a mass purge, the same in every locale.
pub const PURGE_CONFIRMATION: &'static str = "purge";

/// Where a mass purge starts; whatever holds on to the removed rows goes
/// with them.
#[derive(Debug, Clone, Copy, PartialEq, Eq, Structural)]
pub enum AdminPurgeScope {
    /// Every procedure and object of the deployment.
    Everything,
    /// Every tender; objects stay.
    Tenders,
    /// Every object together with tenders, plots and special requests on it.
    Objects,
    /// Every special request with its decisions, dossiers and investment contracts.
    SpecialRequests,
    /// Every land plot with its applications, decisions and contracts.
    LandPlots,
    /// Every notification.
    Notifications,
}

impl Default for AdminPurgeScope {
    fn default() -> (scope: Self)
        ensures
            scope == AdminPurgeScope::Everything,
    {
        AdminPurgeScope::Everything
    }
}

pub open spec fn admin_purge_scope_name(scope: AdminPurgeScope) -> Seq<char> {
    match scope {
        AdminPurgeScope::Everything => "everything"@,
        AdminPurgeScope::Tenders => "tenders"@,
        AdminPurgeScope::Objects => "objects"@,
        AdminPurgeScope::SpecialRequests => "special_requests"@,
        AdminPurgeScope::LandPlots => "land_plots"@,
        AdminPurgeScope::Notifications => "notifications"@,
    }
}

impl AdminPurgeScope {
    /// The name of the scope as the database purge checks it.
    pub fn as_db(self) -> (name: &'static str)
        ensures
            name@ == admin_purge_scope_name(self),
    {
        match self {
            AdminPurgeScope::Everything => "everything",
            AdminPurgeScope::Tenders => "tenders",
            AdminPurgeScope::Objects => "objects",
            AdminPurgeScope::SpecialRequests => "special_requests",
            AdminPurgeScope::LandPlots => "land_plots",
            AdminPurgeScope::Notifications => "notifications",
        }
    }
}

/// Request of a mass purge.
#[derive(Debug, Clone)]
pub struct AdminPurgeRequest {
    /// The confirmation word, exactly `PURGE_CONFIRMATION`.
    pub confirmation: String,
    /// What to erase; without the field, the whole deployment.
    pub scope: AdminPurgeScope,
}

/// Rows removed per table of the `core` schema (tables without removals
/// left out), in table order.
#[derive(Debug, Clone)]
pub struct AdminPurgeResultDto {
    pub deleted: Vec<(String, i64)>,
}

#[derive(Debug, Clone, Copy)]
pub struct AdminDemoAccountsDto {
    /// How many demo accounts were switched off.
    pub deactivated: u64,
}

/// How many rows of each kind the deployment holds: what a purge removes.
#[derive(Debug, Clone, Copy)]
pub struct AdminDataCountsDto {
    pub objects: i64,
    pub tenders: i64,
    pub lots: i64,
    pub applications: i64,
    pub protocols: i64,
    pub auctions: i64,
    pub contracts: i64,
    pub acts: i64,
    pub ledger_entries: i64,
    pub special_requests: i64,
    pub land_plots: i64,
    pub investment_contracts: i64,
    pub dossier_items: i64,
    pub public_records: i64,
    pub obligations: i64,
    pub notifications: i64,
    /// Active demo accounts `*@tou.demo`.
    pub demo_accounts: i64,
}

pub open spec fn purge_disabled_message() -> Seq<char> {
    "очистка данных выключена: задайте ALLOW_DATA_PURGE=1 в окружении api и перезапустите его"@
}

pub open spec fn confirmation_mismatch_message() -> Seq<char> {
    "подтверждение не совпало: ожидается слово «purge»"@
}

/// Whether the setting of `ALLOW_DATA_PURGE` switches mass purges on:
/// only the value `1` does; an unset variable leaves them off.
pub fn purge_switch(setting: Option<&str>) -> (enabled: bool)
    ensures
        enabled <==> (setting matches Some(v) && v@ == "1"@),
{
    match setting {
        Some(v) => str_equal(v, "1"),
        None => false,
    }
}

/// The switch of intent: without `ALLOW_DATA_PURGE` a role's right does not
/// reach the removal.
pub fn require_purge_enabled(enabled: bool) -> (verdict: Result<(), ApiError>)
    ensures
        enabled ==> verdict is Ok,
        !enabled ==> (verdict matches Err(ApiError::Validation(m)) && m@ == purge_disabled_message()),
{
    if enabled {
        Ok(())
    } else {
        Err(ApiError::Validation(
            "очистка данных выключена: задайте ALLOW_DATA_PURGE=1 в окружении api и перезапустите его".to_owned(),
        ))
    }
}

/// Both conditions of a mass purge: purging enabled, and the confirmation word
/// (trimmed) exactly `purge`.
pub fn purge_permitted(enabled: bool, confirmation: &str) -> (verdict: Result<(), ApiError>)
    ensures
        verdict is Ok <==> enabled && trimmed(confirmation@) == PURGE_CONFIRMATION@,
        !enabled ==> (verdict matches Err(ApiError::Validation(m)) && m@ == purge_disabled_message()),
        enabled && trimmed(confirmation@) != PURGE_CONFIRMATION@ ==> (verdict matches Err(
            ApiError::Validation(m),
        ) && m@ == confirmation_mismatch_message()),
{
    match require_purge_enabled(enabled) {
        Err(e) => return Err(e),
        Ok(()) => {},
    }
    let raw = chars_of(confirmation);
    let word = trim_chars(raw.as_slice());
    let expected = chars_of(PURGE_CONFIRMATION);
    if chars_equal(word.as_slice(), expected.as_slice()) {
        Ok(())
    } else {
        Err(ApiError::Validation("подтверждение не совпало: ожидается слово «purge»".to_owned()))
    }
}

/// The refusal to reset the password of an account the provider opened.
pub open spec fn external_account_message() -> Seq<char> {
    "учетная запись входит через внешнего провайдера - пароль сбрасывается у него"@
}

/// A reset of a forgotten password by the administrator: a fresh one-time
/// password and its hash. An account without a local password (opened by
/// the external provider) is not given one: that would open a way in past
/// the provider's policies. The hash is one the new password passes.
pub fn issue_password_reset(stored_hash: Option<&str>) -> (result: Result<(String, String), ApiError>)
    ensures
        stored_hash is None ==> (result matches Err(ApiError::Validation(m)) && m@
            == external_account_message()),
        stored_hash is Some && result is Err ==> result->Err_0 is Internal,
        result matches Ok((password, hash)) ==> {
            &&& stored_hash is Some
            &&& crate::auth::argon2_accepts(password@, hash@)
            &&& password@.len() == 23
            &&& forall|k: int|
                0 <= k < 23 && k != 5 && k != 11 && k != 17 ==> otp_alphabet().contains(
                    #[trigger] password@[k],
                )
        },
{
    if stored_hash.is_none() {
        return Err(
            ApiError::Validation(
                "учетная запись входит через внешнего провайдера - пароль сбрасывается у него".to_owned(),
            ),
        );
    }
    let password = one_time_password();
    match crate::auth::hash_password(password.as_str()) {
        Ok(hash) => Ok((password, hash)),
        Err(e) => Err(e),
    }
}

} // verus!
