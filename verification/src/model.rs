//! The records the service keeps. Identifiers are UUIDs held as their
//! 128-bit value; times are counted from the Unix epoch.
use vstd::prelude::*;

verus! {

/// An account.
#[derive(Debug, Clone, PartialEq, Eq)]
pub struct User {
    pub id: u128,
    pub email: String,
    pub first_name: String,
    pub last_name: String,
    /// The bcrypt hash of the account's password.
    pub password: String,
    pub admin: bool,
}

/// A goal that a user set.
#[derive(Debug, Clone, PartialEq, Eq)]
pub struct Goal {
    pub id: u128,
    pub user_id: u128,
    pub title: String,
    pub description: String,
}

/// A login session, valid until `expires_at` seconds and
/// `expires_at_nanos` nanoseconds after the Unix epoch.
#[derive(Debug, Clone, PartialEq, Eq)]
pub struct Session {
    pub id: u128,
    pub user_id: u128,
    pub expires_at: u64,
    pub expires_at_nanos: u32,
}

/// A pending password reset, redeemed with `token`.
#[derive(Debug, Clone, PartialEq, Eq)]
pub struct Reset {
    pub id: u128,
    pub user_id: u128,
    pub token: String,
}

} // verus!
