//! The runtime-checked secret containers: the bound is enforced by a real
//! counter checked at each exposure call rather than statically.

pub mod common;
pub mod error;
pub mod secret;
pub mod secret_sync;
pub mod traits;
