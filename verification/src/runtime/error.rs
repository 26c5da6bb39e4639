//! Errors reported by the runtime containers.
use vstd::prelude::*;

use crate::traits::ChooseMinimallyRepresentableUInt;

verus! {

/// The secret was asked to be exposed more times than it is allowed to.
///
/// `mec` is the container's bound, `ec` the exposure count at the moment of
/// the rejected attempt; both are carried in the container's counter
/// representation `C`.
#[derive(Debug)]
pub struct ExposeMoreThanMaximallyAllowError<C: ChooseMinimallyRepresentableUInt> {
    pub mec: C,
    pub ec: C,
}

/// An error during an exposure attempt on a runtime container.
#[derive(Debug)]
#[non_exhaustive]
pub enum ExposeSecretError<C: ChooseMinimallyRepresentableUInt> {
    ExposeMoreThanMaximallyAllow(ExposeMoreThanMaximallyAllowError<C>),
}

} // verus!
