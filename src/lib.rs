//! Provisioning of ICRC-1 token ledgers: turning a token request into the
//! ledger's initialization arguments, and sequencing the two management
//! calls (create a canister, install the ledger into it) that deploy it.

pub mod ic_types;
pub mod ledger_args;
pub mod deployment;
