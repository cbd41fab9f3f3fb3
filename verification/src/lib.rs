//! Membership and invite authorization for a chat backend: credential
//! issuance, password handling and the invite lifecycle, written as
//! decision functions over plain values and verified with Verus.
//!
//! Every operation that needs the record store is a small state machine.
//! Its entry function returns the first request for the store; its
//! `*_resume` function takes the store's reply and returns either the
//! next request or the final result. The caller performs the requests.

pub mod auth;
pub mod auth_laws;
pub mod clock;
pub mod error;
pub mod flow;
pub mod ident;
pub mod invite;
pub mod invite_laws;
pub mod memory;
pub mod model;
pub mod password;
pub mod run;
pub mod store;
pub mod store_model;
pub mod token;
