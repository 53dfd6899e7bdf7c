//! Request-handling fixtures and harness decisions for comparing execution
//! strategies of a small HTTP-style handler: the guests' fixed behaviour, the
//! golden checks, the fork outcome, the build-once guard, capability routing
//! and the per-strategy plans.

pub mod fixture;
pub mod guest;
pub mod check;
pub mod isolation;
pub mod once;
pub mod capability;
pub mod harness;
pub mod laws;
