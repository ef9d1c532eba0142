//! Verified core of the HTTP layer of the TOU.Rent property-lease system:
//! the decisions, texts and checks of the service, with what they return
//! stated in their contracts.
//!
//! Shared helpers come first: characters and decimal text, bytes and UUIDs,
//! the error contract. The other modules follow the areas of the service.
pub mod bytes;
pub mod number;
pub mod text;

pub mod error;

pub mod admin;
pub mod admin_data;
pub mod acts;
pub mod admission;
pub mod amendments;
pub mod announcement;
pub mod applications;
pub mod auctions;
pub mod auth;
pub mod commission;
pub mod commission_documents;
pub mod contract_amendments;
pub mod contracts;
pub mod csrf;
pub mod dto;
pub mod evasion;
pub mod failure;
pub mod file_crypto;
pub mod idempotency;
pub mod investment;
pub mod land;
pub mod ledger;
pub mod notifications;
pub mod offline_results;
pub mod oidc;
