//! Rate-limiting and access-control core of a small HTTP API service.
//!
//! The service keeps, per URL, a request budget (`limit_count` requests per
//! window of `limit_per`) and a minimum access level; per client IP and URL it
//! keeps an access record. This crate holds the data model and every decision
//! the service takes: whether a request is over budget, what the rate-limit
//! and role-based-access middlewares do next, how login tokens are dated and
//! checked, and which URLs are registered at start-up.
use vstd::prelude::*;

pub mod auth;
pub mod bootstrap;
pub mod clock;
pub mod ips;
pub mod rate_limit;
pub mod rbac;
pub mod reply;
pub mod tokens;
pub mod urls;
pub mod users;

verus! {
} // verus!
