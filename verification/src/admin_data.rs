//! Purge of deployment data from the administrator's cabinet: the whole
//! deployment, a kind of data, or one record of any kind. The removal
//! itself lives in the database; here are the conditions and the kinds.
use vstd::prelude::*;

use crate::error::ApiError;

pub use crate::admin::{
    purge_permitted, require_purge_enabled, AdminDataCountsDto, AdminDemoAccountsDto,
    AdminPurgeResultDto, PURGE_CONFIRMATION,
};

verus! {

/// Scope of a purge: the whole deployment or one kind of data of the
/// "Data" tab.
#[derive(Debug, Clone, Copy, PartialEq, Eq, Structural)]
pub enum AdminPurgeScope {
    /// Every procedure and object of the deployment.
    Everything,
    Objects,
    Tenders,
    Lots,
    Applications,
    Protocols,
    Auctions,
    Contracts,
    Acts,
    LedgerEntries,
    SpecialRequests,
    LandPlots,
    InvestmentContracts,
    DossierItems,
    PublicRecords,
    Obligations,
    Notifications,
}

impl Default for AdminPurgeScope {
    fn default() -> (scope: Self)
        ensures
            scope == AdminPurgeScope::Everything,
    {
        AdminPurgeScope::Everything
    }
}

pub open spec fn data_scope_name(scope: AdminPurgeScope) -> Seq<char> {
    match scope {
        AdminPurgeScope::Everything => "everything"@,
        AdminPurgeScope::Objects => "objects"@,
        AdminPurgeScope::Tenders => "tenders"@,
        AdminPurgeScope::Lots => "lots"@,
        AdminPurgeScope::Applications => "applications"@,
        AdminPurgeScope::Protocols => "protocols"@,
        AdminPurgeScope::Auctions => "auctions"@,
        AdminPurgeScope::Contracts => "contracts"@,
        AdminPurgeScope::Acts => "acts"@,
        AdminPurgeScope::LedgerEntries => "ledger_entries"@,
        AdminPurgeScope::SpecialRequests => "special_requests"@,
        AdminPurgeScope::LandPlots => "land_plots"@,
        AdminPurgeScope::InvestmentContracts => "investment_contracts"@,
        AdminPurgeScope::DossierItems => "dossier_items"@,
        AdminPurgeScope::PublicRecords => "public_records"@,
        AdminPurgeScope::Obligations => "obligations"@,
        AdminPurgeScope::Notifications => "notifications"@,
    }
}

impl AdminPurgeScope {
    /// The name of the scope as the database purge checks it.
    pub fn as_db(self) -> (name: &'static str)
        ensures
            name@ == data_scope_name(self),
    {
        match self {
            AdminPurgeScope::Everything => "everything",
            AdminPurgeScope::Objects => "objects",
            AdminPurgeScope::Tenders => "tenders",
            AdminPurgeScope::Lots => "lots",
            AdminPurgeScope::Applications => "applications",
            AdminPurgeScope::Protocols => "protocols",
            AdminPurgeScope::Auctions => "auctions",
            AdminPurgeScope::Contracts => "contracts",
            AdminPurgeScope::Acts => "acts",
            AdminPurgeScope::LedgerEntries => "ledger_entries",
            AdminPurgeScope::SpecialRequests => "special_requests",
            AdminPurgeScope::LandPlots => "land_plots",
            AdminPurgeScope::InvestmentContracts => "investment_contracts",
            AdminPurgeScope::DossierItems => "dossier_items",
            AdminPurgeScope::PublicRecords => "public_records",
            AdminPurgeScope::Obligations => "obligations",
            AdminPurgeScope::Notifications => "notifications",
        }
    }
}

/// Request of a mass purge.
#[derive(Debug, Clone)]
pub struct AdminPurgeRequest {
    /// The confirmation word, exactly `PURGE_CONFIRMATION`.
    pub confirmation: String,
    /// What to erase; without the field, the whole deployment.
    pub scope: AdminPurgeScope,
}

/// Query of the record list of one kind.
#[derive(Debug, Clone, Copy)]
pub struct AdminRecordsParams {
    /// The kind of data; `everything` is no list.
    pub kind: AdminPurgeScope,
}

pub open spec fn everything_is_no_list_message() -> Seq<char> {
    "область everything перечнем записей не является - укажите вид данных"@
}

/// A scope that has records: `everything` is not a kind of data, and asking
/// for its records is refused rather than answered with an empty page.
pub fn record_kind(scope: AdminPurgeScope) -> (kind: Result<AdminPurgeScope, ApiError>)
    ensures
        scope == AdminPurgeScope::Everything ==> (kind matches Err(ApiError::Validation(m)) && m@
            == everything_is_no_list_message()),
        scope != AdminPurgeScope::Everything ==> kind == Ok::<_, ApiError>(scope),
{
    if scope == AdminPurgeScope::Everything {
        return Err(ApiError::Validation(
            "область everything перечнем записей не является - укажите вид данных".to_owned(),
        ));
    }
    Ok(scope)
}

} // verus!
