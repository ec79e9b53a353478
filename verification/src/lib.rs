//! Timed interaction engine for a remote programming judge: a deadline clock,
//! a bounded retry loop, an outcome classifier and the state machine of one
//! submission session, together with the rules for stored credentials and
//! defaults. Every decision is a verified function over plain values; reading
//! the clock, sleeping and talking to the judge are left to the caller.

pub mod deadline;
pub mod outcome;
pub mod retry;
pub mod runner;
pub mod session;
pub mod store;
pub mod submit;
pub mod target;
pub mod auth;
pub mod config;
pub mod contest;
pub mod fetch;
pub mod trace;
