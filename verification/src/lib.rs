//! A goal-tracking web service: accounts, sessions, password resets and
//! goals. This crate holds the service's rules and decisions, each with its
//! contract; the HTTP server, the database and the mailer drive them.
pub mod account;
pub mod auth;
pub mod config;
pub mod error;
pub mod goals;
pub mod model;
pub mod scheduler;
pub mod steps;
pub mod text;
pub mod util;
pub mod validate;

use vstd::prelude::*;

verus! {

/// A message of the service's own.
#[derive(Debug)]
pub enum Messsage {
    Testing,
}

} // verus!
