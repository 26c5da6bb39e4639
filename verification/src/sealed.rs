//! Sealing machinery that closes the set of counter representations.
//!
//! The module is private to the crate, so no outside crate can name
//! `SealedTrait` and therefore none can implement
//! `ChooseMinimallyRepresentableUInt` for a type of its own.
use vstd::prelude::*;

verus! {

/// A token that only this crate can construct; trait methods that must not be
/// callable in any meaningful way from outside take one by value.
pub struct SealedToken {}

/// Supertrait of the counter-representation trait; implementable only inside
/// this crate.
pub trait SealedTrait {

}

} // verus!
