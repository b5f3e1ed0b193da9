//! Verified core of the Vocai vocabulary trainer: spaced repetition
//! scheduling, request rate limiting, session cookies, request and prompt
//! building for the AI services, and the decisions behind each HTTP handler.

pub mod text;
pub mod srs;
pub mod rate_limit;
pub mod ids;
pub mod urlenc;
pub mod session;
pub mod nvidia;
pub mod pollinations;
pub mod handlers;
