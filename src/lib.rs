//! Graduation of a token to a concentrated-liquidity pool, as one ordered,
//! all-or-nothing sequence of calls into the pool program.
//!
//! The library decides which call comes next, with which arguments and under
//! which signer, and what a failure means; the host program performs each
//! call and reports its outcome back.
pub mod authority;
pub mod graduation;
pub mod laws;
pub mod plan;
