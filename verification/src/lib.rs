//! Verified policy, billing and validation logic of the API gateway.

pub mod text;
pub mod crypto;
pub mod decimal;
pub mod policy;
pub mod budget;
pub mod error;
pub mod settlement;
pub mod subscription;
pub mod users;
pub mod auth;
pub mod client_keys;
pub mod admission;
pub mod snapshot;
pub mod identity;
pub mod usage;
pub mod recovery;
pub mod requests;
pub mod billing_rules;
pub mod ledger;
pub mod admission_rules;
pub mod diagnostics;
pub mod login_flow;
pub mod session_flow;
pub mod password_flow;
