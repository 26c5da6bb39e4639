//! The runtime-checked secret container.
use vstd::prelude::*;

use crate::runtime::error::{ExposeMoreThanMaximallyAllowError, ExposeSecretError};
use crate::runtime::traits::RTExposeSecret;
use crate::sealed::SealedToken;
use crate::traits::{ChooseMinimallyRepresentableUInt, CloneableSecret, DebugSecret, ZeroizableSecret};
use crate::types::NumericalZeroSizedType;

verus! {

/// A guard granting read access to a runtime secret's payload for the
/// duration of one exposure callback.
///
/// As with the compile-time container's guard, the exposure operations
/// accept only closures that take a guard at *every* lifetime, so the guard
/// cannot leave the callback that received it.
pub struct RTExposedSecret<'brand, T> {
    inner: &'brand T,
}

impl<'brand, T> View for RTExposedSecret<'brand, T> {
    type V = T;

    closed spec fn view(&self) -> T {
        *self.inner
    }
}

impl<'brand, T> RTExposedSecret<'brand, T> {
    /// Read access to the payload, for no longer than the guard itself
    /// lives.
    pub fn expose(&self) -> (r: &T)
        ensures
            *r == self@,
    {
        self.inner
    }
}

/// A secure container for a sensitive value of type `T` that may be exposed
/// at most `MEC` times, the count being checked at run time.
///
/// The count is stored in a value of the caller-chosen representation `C`,
/// ordinarily the narrowest unsigned integer that can hold `MEC` (see
/// `choose_minimally_representable_uint`); a bound that does not fit `C` is
/// rejected statically at construction.  With `C` the zero-sized
/// representation and `MEC == 0` the container counts nothing; that
/// instantiation alone offers the unchecked exposure operations.
pub struct RTSecret<T, C: ChooseMinimallyRepresentableUInt, const MEC: u64> {
    inner: T,
    ec: C,
}

/// A runtime secret that conducts no exposure counting: the counter is
/// zero-sized and only the unchecked exposure operations grant access.
pub type SecrecySecret<T> = RTSecret<T, NumericalZeroSizedType, 0>;

impl<T, C: ChooseMinimallyRepresentableUInt, const MEC: u64> RTSecret<T, C, MEC> {
    #[verifier::type_invariant]
    spec fn type_inv(self) -> bool {
        &&& self.ec.as_nat() <= MEC as nat
        &&& MEC as nat <= C::spec_max_value()
    }

    /// Create a container around `value`, with no exposure granted yet.
    /// The bound must fit the chosen counter representation.
    pub fn new(value: T) -> (r: Self)
        requires
            MEC as nat <= C::spec_max_value(),
        ensures
            r.spec_payload() == value,
            r.spec_ec() == 0,
    {
        RTSecret { inner: value, ec: C::zero() }
    }

    /// Create a container around the value that `factory` produces, with no
    /// exposure granted yet.
    pub fn new_with<F: FnOnce() -> T>(factory: F) -> (r: Self)
        requires
            MEC as nat <= C::spec_max_value(),
            call_requires(factory, ()),
        ensures
            r.spec_ec() == 0,
            call_ensures(factory, (), r.spec_payload()),
    {
        RTSecret { inner: factory(), ec: C::zero() }
    }

    /// The current exposure count, in the container's counter
    /// representation.
    pub fn exposure_count(&self) -> (r: C)
        ensures
            r.as_nat() == self.spec_ec(),
    {
        self.ec
    }

    /// Check whether a further exposure is allowed and, if so, consume it:
    /// the counter moves by one exactly when the check passes.
    fn can_expose(&mut self) -> (r: bool)
        ensures
            r == (old(self).spec_ec() < MEC as nat),
            final(self).inner == old(self).inner,
            r ==> final(self).spec_ec() == old(self).spec_ec() + 1,
            !r ==> final(self).spec_ec() == old(self).spec_ec(),
    {
        proof {
            use_type_invariant(&*self);
        }
        let mec = C::cast_unsigned_to_self_type(MEC, SealedToken {  });
        if self.ec.lt(&mec) {
            self.ec = self.ec.incremented();
            true
        } else {
            false
        }
    }
}

impl<T, C: ChooseMinimallyRepresentableUInt, const MEC: u64> RTExposeSecret<T> for RTSecret<
    T,
    C,
    MEC,
> {
    type Counter = C;

    closed spec fn spec_payload(self) -> T {
        self.inner
    }

    closed spec fn spec_ec(self) -> nat {
        self.ec.as_nat()
    }

    open spec fn spec_mec(self) -> nat {
        MEC as nat
    }

    fn expose_secret<R, F: for<'brand> FnOnce(RTExposedSecret<'brand, T>) -> R>(
        &mut self,
        scope: F,
    ) -> (res: R) {
        let granted = self.can_expose();
        let guard = RTExposedSecret { inner: &self.inner };
        proof {
            assert(granted);
            assert(guard@ == old(self).spec_payload());
            assert(call_requires(scope, (guard,)));
        }
        scope(guard)
    }

    fn try_expose_secret<R, F: for<'brand> FnOnce(RTExposedSecret<'brand, T>) -> R>(
        &mut self,
        scope: F,
    ) -> (res: Result<R, ExposeSecretError<C>>) {
        proof {
            use_type_invariant(&*self);
        }
        if self.can_expose() {
            let guard = RTExposedSecret { inner: &self.inner };
            proof {
                assert(guard@ == old(self).spec_payload());
                assert(call_requires(scope, (guard,)));
            }
            Ok(scope(guard))
        } else {
            let mec = C::cast_unsigned_to_self_type(MEC, SealedToken {  });
            Err(
                ExposeSecretError::ExposeMoreThanMaximallyAllow(
                    ExposeMoreThanMaximallyAllowError { mec, ec: self.ec },
                ),
            )
        }
    }
}

impl<T> RTSecret<T, NumericalZeroSizedType, 0> {
    /// Expose the payload to `scope` with no bound check at all.
    ///
    /// This operation exists only on the instantiation that counts nothing:
    /// it distinguishes "this secret is meant to have no limit" from a
    /// forgotten check.  It may be called any number of times.
    pub fn expose_secret_unchecked<R, F: for<'brand> FnOnce(RTExposedSecret<'brand, T>) -> R>(
        &self,
        scope: F,
    ) -> (res: R)
        requires
            forall|g: RTExposedSecret<'_, T>|
                g@ == self.spec_payload() ==> call_requires(scope, (g,)),
        ensures
            exists|g: RTExposedSecret<'_, T>|
                g@ == self.spec_payload() && call_ensures(scope, (g,), res),
    {
        let guard = RTExposedSecret { inner: &self.inner };
        proof {
            assert(guard@ == self.spec_payload());
            assert(call_requires(scope, (guard,)));
        }
        scope(guard)
    }

    /// Like `expose_secret_unchecked`, in the shape of the fallible
    /// operation; since no check is done, the result is always the
    /// closure's.
    pub fn try_expose_secret_unchecked<
        R,
        F: for<'brand> FnOnce(RTExposedSecret<'brand, T>) -> R,
    >(
        &self,
        scope: F,
    ) -> (res: Result<R, ExposeSecretError<NumericalZeroSizedType>>)
        requires
            forall|g: RTExposedSecret<'_, T>|
                g@ == self.spec_payload() ==> call_requires(scope, (g,)),
        ensures
            res matches Ok(v) && exists|g: RTExposedSecret<'_, T>|
                g@ == self.spec_payload() && call_ensures(scope, (g,), v),
    {
        Ok(self.expose_secret_unchecked(scope))
    }
}

impl<T: CloneableSecret, C: ChooseMinimallyRepresentableUInt, const MEC: u64> Clone for RTSecret<
    T,
    C,
    MEC,
> {
    /// Duplicate the container.  The duplicate carries the same secret
    /// content and the same exposure count as the original at the moment of
    /// cloning; exposing one of the two afterwards leaves the other's count
    /// untouched, since they are distinct values.
    fn clone(&self) -> (res: Self)
        ensures
            self.spec_payload().spec_same_secret(res.spec_payload()),
            res.spec_ec() == self.spec_ec(),
    {
        proof {
            use_type_invariant(self);
        }
        RTSecret { inner: self.inner.clone_secret(), ec: self.ec }
    }
}

impl<T: ZeroizableSecret, C: ChooseMinimallyRepresentableUInt, const MEC: u64> RTSecret<T, C, MEC> {
    /// Destroy the container, scrubbing the payload in place first.
    ///
    /// The scrubbed shell is returned so a caller can observe that the
    /// payload was overwritten; by the postcondition it carries no secret
    /// content any more.
    pub fn zeroize_drop(self) -> (shell: T)
        ensures
            shell.spec_is_zeroized(),
    {
        let RTSecret { inner, ec } = self;
        let mut shell = inner;
        shell.zeroize_secret();
        shell
    }
}

impl<T: DebugSecret, C: ChooseMinimallyRepresentableUInt, const MEC: u64> RTSecret<T, C, MEC> {
    /// Debug rendering of the container.  It never shows the payload: the
    /// result is the fixed redaction marker, whatever the payload holds.
    pub fn debug_fmt(&self) -> (r: String)
        ensures
            r@ == "RTSecret<[REDACTED]>"@,
    {
        let open_part = String::from_str("RTSecret<");
        let token = T::debug_secret();
        let with_token = open_part.concat(token.as_str());
        let full = with_token.concat(">");
        proof {
            reveal_strlit("RTSecret<");
            reveal_strlit("[REDACTED]");
            reveal_strlit(">");
            reveal_strlit("RTSecret<[REDACTED]>");
            assert(full@ =~= "RTSecret<[REDACTED]>"@);
        }
        full
    }
}

/// Exposure-bound invariant of the runtime container: however a container
/// was constructed and used, its exposure count never exceeds its bound.
pub fn lemma_exposure_count_bounded<
    T,
    C: ChooseMinimallyRepresentableUInt,
    const MEC: u64,
>(s: &RTSecret<T, C, MEC>)
    ensures
        s.spec_ec() <= s.spec_mec(),
{
    proof {
        use_type_invariant(s);
    }
}

} // verus!

