//! Shared pieces of the runtime containers.
use vstd::prelude::*;

use crate::types::NumericalZeroSizedType;

verus! {

/// The counter representation of a runtime secret that conducts no exposure
/// counting at all: zero-sized, always zero.
pub type Unchecked = NumericalZeroSizedType;

} // verus!
