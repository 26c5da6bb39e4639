//! Interface of the runtime-checked secret containers.
use vstd::prelude::*;

use crate::runtime::error::ExposeSecretError;
use crate::runtime::secret::RTExposedSecret;
use crate::traits::ChooseMinimallyRepresentableUInt;

verus! {

/// A secret container whose exposure bound is enforced at run time.
///
/// Both operations take the container by exclusive reference, so a check of
/// the counter and the following increment form one uninterruptible step for
/// the calling thread; sharing a container across threads therefore goes
/// through an exclusive-access primitive around the whole container.
///
/// `expose_secret` demands, as a precondition, a count strictly below the
/// bound, so for verified callers an overrun is a verification error rather
/// than a runtime failure.  `try_expose_secret` accepts any state and
/// reports an overrun as a value.
pub trait RTExposeSecret<T>: Sized {
    /// The representation carried by the error values of
    /// `try_expose_secret`.
    type Counter: ChooseMinimallyRepresentableUInt;

    /// The wrapped payload.
    spec fn spec_payload(self) -> T;

    /// Exposures granted so far.
    spec fn spec_ec(self) -> nat;

    /// Maximum exposures this container may ever grant.
    spec fn spec_mec(self) -> nat;

    /// Expose the payload to `scope` once, incrementing the exposure count
    /// in place.
    fn expose_secret<R, F: for<'brand> FnOnce(RTExposedSecret<'brand, T>) -> R>(
        &mut self,
        scope: F,
    ) -> (res: R)
        requires
            old(self).spec_ec() < old(self).spec_mec(),
            forall|g: RTExposedSecret<'_, T>|
                g@ == old(self).spec_payload() ==> call_requires(scope, (g,)),
        ensures
            final(self).spec_payload() == old(self).spec_payload(),
            final(self).spec_mec() == old(self).spec_mec(),
            final(self).spec_ec() == old(self).spec_ec() + 1,
            exists|g: RTExposedSecret<'_, T>|
                g@ == old(self).spec_payload() && call_ensures(scope, (g,), res),
    ;

    /// Expose the payload to `scope` once if the bound allows it; report the
    /// overrun otherwise, carrying both the bound and the offending count.
    /// The counter never decreases, and it moves by exactly one per granted
    /// exposure.
    fn try_expose_secret<R, F: for<'brand> FnOnce(RTExposedSecret<'brand, T>) -> R>(
        &mut self,
        scope: F,
    ) -> (res: Result<R, ExposeSecretError<Self::Counter>>)
        requires
            forall|g: RTExposedSecret<'_, T>|
                g@ == old(self).spec_payload() ==> call_requires(scope, (g,)),
        ensures
            final(self).spec_payload() == old(self).spec_payload(),
            final(self).spec_mec() == old(self).spec_mec(),
            final(self).spec_ec() >= old(self).spec_ec(),
            old(self).spec_ec() < old(self).spec_mec() ==> {
                &&& final(self).spec_ec() == old(self).spec_ec() + 1
                &&& res matches Ok(v) && exists|g: RTExposedSecret<'_, T>|
                    g@ == old(self).spec_payload() && call_ensures(scope, (g,), v)
            },
            old(self).spec_ec() >= old(self).spec_mec() ==> {
                &&& final(self).spec_ec() == old(self).spec_ec()
                &&& res matches Err(ExposeSecretError::ExposeMoreThanMaximallyAllow(e))
                    && e.ec.as_nat() == old(self).spec_ec()
                    && e.mec.as_nat() == old(self).spec_mec()
            },
    ;
}

} // verus!
