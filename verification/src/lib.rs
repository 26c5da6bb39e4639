//! A secret-wrapping primitive that bounds how many times a sensitive value
//! may be read over its lifetime.
//!
//! The crate offers two container families around a payload `T`:
//!
//! * [`secret::Secret`], whose exposure count is ghost state checked
//!   statically: a program that would expose the secret more often than its
//!   declared maximum does not verify;
//! * [`runtime::secret::RTSecret`], whose exposure count is a real counter
//!   checked at each call, sized by the caller through the closed family of
//!   counter representations in [`traits`].
//!
//! Each exposure hands a short-lived guard to a caller-supplied closure; the
//! guard's lifetime is universally quantified, so it cannot escape the
//! closure.  Payload types may opt into scrubbing, duplication and redacted
//! debug rendering through the capability traits in [`traits`].

mod sealed;

pub mod prelude;

pub mod runtime;
pub mod secret;
pub mod traits;
pub mod types;
