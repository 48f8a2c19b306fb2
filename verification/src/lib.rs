//! A generic sub-account factory: a contract that stores one deployable code
//! blob exactly once and thereafter provisions named sub-accounts that run
//! that code, forwarding the caller's deposit and optionally invoking an
//! initializer, with a completion callback that refunds the caller when the
//! provisioning chain fails.

pub mod callback;
pub mod digest;
pub mod errors;
pub mod gas;
pub mod hello;
pub mod provision;
pub mod registry;
