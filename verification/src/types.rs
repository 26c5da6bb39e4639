//! Zero-sized stand-ins used by the runtime containers.
use vstd::prelude::*;

use crate::sealed::{SealedToken, SealedTrait};
use crate::traits::ChooseMinimallyRepresentableUInt;

verus! {

/// A zero-sized counter representation.
///
/// It stands for the "no counting" case: a runtime container whose exposure
/// counter has this type pays no storage for the counter and performs no
/// bookkeeping.  As a number it is always zero, and it can represent no bound
/// above zero.
#[derive(Clone, Copy, PartialEq, Eq, Structural, Hash, Debug)]
pub struct NumericalZeroSizedType {}

impl SealedTrait for NumericalZeroSizedType {

}

impl ChooseMinimallyRepresentableUInt for NumericalZeroSizedType {
    open spec fn as_nat(self) -> nat {
        0
    }

    open spec fn spec_max_value() -> nat {
        0
    }

    fn zero() -> (r: Self) {
        NumericalZeroSizedType {  }
    }

    fn cast_unsigned_to_self_type(value: u64, token: SealedToken) -> (r: Self) {
        NumericalZeroSizedType {  }
    }

    fn lt(&self, other: &Self) -> (r: bool) {
        false
    }

    fn incremented(self) -> (r: Self) {
        // Never callable: no count above zero fits this representation, so
        // the precondition of `incremented` is unsatisfiable here.
        proof {
            assert(false);
        }
        NumericalZeroSizedType {  }
    }
}

} // verus!
