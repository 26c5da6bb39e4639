//! A runtime secret meant for sharing across threads.
//!
//! The container itself is a passive value; a caller that shares it between
//! threads wraps it in an exclusive-access primitive, and every operation
//! that touches the counter takes the container by exclusive reference, so a
//! check of the counter and the following increment can never interleave
//! with another thread's.
use vstd::prelude::*;

verus! {

/// A runtime secret with a plain machine-word exposure counter, bounded by
/// `MEC`.
pub struct RTSyncSecret<T, const MEC: usize> {
    inner: T,
    ec: usize,
}

impl<T, const MEC: usize> RTSyncSecret<T, MEC> {
    #[verifier::type_invariant]
    spec fn type_inv(self) -> bool {
        self.ec <= MEC
    }

    /// The wrapped payload.
    pub closed spec fn spec_payload(self) -> T {
        self.inner
    }

    /// Exposures granted so far.
    pub closed spec fn spec_ec(self) -> nat {
        self.ec as nat
    }

    /// Create a container around `value`, with no exposure granted yet.
    pub fn new(value: T) -> (r: Self)
        ensures
            r.spec_payload() == value,
            r.spec_ec() == 0,
    {
        RTSyncSecret { inner: value, ec: 0 }
    }

    /// Create a container around the value that `factory` produces, with no
    /// exposure granted yet.
    pub fn new_with<F: FnOnce() -> T>(factory: F) -> (r: Self)
        requires
            call_requires(factory, ()),
        ensures
            r.spec_ec() == 0,
            call_ensures(factory, (), r.spec_payload()),
    {
        RTSyncSecret { inner: factory(), ec: 0 }
    }

    /// The current exposure count.
    pub fn exposure_count(&self) -> (r: usize)
        ensures
            r == self.spec_ec(),
    {
        self.ec
    }
}

/// Exposure-bound invariant of the shared-use container: its exposure count
/// never exceeds its bound.
pub fn lemma_exposure_count_bounded<T, const MEC: usize>(s: &RTSyncSecret<T, MEC>)
    ensures
        s.spec_ec() <= MEC as nat,
{
    proof {
        use_type_invariant(s);
    }
}

} // verus!

