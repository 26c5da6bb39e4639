//! The compile-time-checked secret container.
//!
//! `Secret<T, MEC>` owns a value of `T` and may expose it at most `MEC`
//! times.  The exposure count is ghost state: it occupies no memory at run
//! time, and the bound is enforced statically, by the precondition of
//! `expose_secret`, so a program that would over-expose the secret is
//! rejected before it runs.  Each exposure consumes the container and yields
//! a successor whose count is one higher.
use vstd::prelude::*;

use crate::traits::{CloneableSecret, DebugSecret, ExposeSecret, ZeroizableSecret};

verus! {

/// A guard granting read access to a secret's payload for the duration of
/// one exposure callback.
///
/// The callback of an exposure operation must accept a guard at *every*
/// lifetime, so the guard's lifetime can never unify with one the caller
/// already holds; the only legal use of the guard, or of a reference
/// obtained from it, is inside the callback body.
pub struct ExposedSecret<'brand, T> {
    inner: &'brand T,
}

impl<'brand, T> View for ExposedSecret<'brand, T> {
    type V = T;

    closed spec fn view(&self) -> T {
        *self.inner
    }
}

impl<'brand, T> ExposedSecret<'brand, T> {
    /// Read access to the payload, for no longer than the guard itself
    /// lives.
    pub fn expose(&self) -> (r: &T)
        ensures
            *r == self@,
    {
        self.inner
    }
}

/// A secure container for a sensitive value of type `T` that may be exposed
/// at most `MEC` times over its whole lifetime.
pub struct Secret<T, const MEC: u64> {
    inner: T,
    ec: Ghost<nat>,
}

impl<T, const MEC: u64> Secret<T, MEC> {
    #[verifier::type_invariant]
    spec fn type_inv(self) -> bool {
        self.ec@ <= MEC as nat
    }

    /// Create a container around `value`, with no exposure granted yet.
    pub fn new(value: T) -> (r: Self)
        ensures
            r.spec_payload() == value,
            r.spec_ec() == 0,
    {
        Secret { inner: value, ec: Ghost(0nat) }
    }

    /// Create a container around the value that `factory` produces, with no
    /// exposure granted yet.
    pub fn new_with<F: FnOnce() -> T>(factory: F) -> (r: Self)
        requires
            call_requires(factory, ()),
        ensures
            r.spec_ec() == 0,
            call_ensures(factory, (), r.spec_payload()),
    {
        Secret { inner: factory(), ec: Ghost(0nat) }
    }
}

impl<T, const MEC: u64> ExposeSecret<T> for Secret<T, MEC> {
    closed spec fn spec_payload(self) -> T {
        self.inner
    }

    closed spec fn spec_ec(self) -> nat {
        self.ec@
    }

    open spec fn spec_mec(self) -> nat {
        MEC as nat
    }

    fn expose_secret<R, F: for<'brand> FnOnce(ExposedSecret<'brand, T>) -> R>(
        self,
        scope: F,
    ) -> (res: (Self, R)) {
        let guard = ExposedSecret { inner: &self.inner };
        proof {
            assert(guard@ == self.spec_payload());
            assert(call_requires(scope, (guard,)));
        }
        let r = scope(guard);
        let next = Secret { inner: self.inner, ec: Ghost(self.ec@ + 1) };
        (next, r)
    }
}

impl<T: CloneableSecret, const MEC: u64> Clone for Secret<T, MEC> {
    /// Duplicate the container.  The duplicate carries the same secret
    /// content and the same exposure count as the original at the moment of
    /// cloning; exposing one of the two afterwards leaves the other's count
    /// untouched, since they are distinct values.
    fn clone(&self) -> (res: Self)
        ensures
            self.spec_payload().spec_same_secret(res.spec_payload()),
            res.spec_ec() == self.spec_ec(),
    {
        proof {
            use_type_invariant(self);
        }
        Secret { inner: self.inner.clone_secret(), ec: Ghost(self.ec@) }
    }
}

impl<T: ZeroizableSecret, const MEC: u64> Secret<T, MEC> {
    /// Destroy the container, scrubbing the payload in place first.
    ///
    /// The scrubbed shell is returned so a caller can observe that the
    /// payload was overwritten; by the postcondition it carries no secret
    /// content any more.
    pub fn zeroize_drop(self) -> (shell: T)
        ensures
            shell.spec_is_zeroized(),
    {
        let Secret { inner, ec } = self;
        let mut shell = inner;
        shell.zeroize_secret();
        shell
    }
}

impl<T: DebugSecret, const MEC: u64> Secret<T, MEC> {
    /// Debug rendering of the container.  It never shows the payload: the
    /// result is the fixed redaction marker, whatever the payload holds.
    pub fn debug_fmt(&self) -> (r: String)
        ensures
            r@ == "Secret<[REDACTED]>"@,
    {
        let open_part = String::from_str("Secret<");
        let token = T::debug_secret();
        let with_token = open_part.concat(token.as_str());
        let full = with_token.concat(">");
        proof {
            reveal_strlit("Secret<");
            reveal_strlit("[REDACTED]");
            reveal_strlit(">");
            reveal_strlit("Secret<[REDACTED]>");
            assert(full@ =~= "Secret<[REDACTED]>"@);
        }
        full
    }
}

/// Exposure-bound invariant of the compile-time container: however a
/// container was constructed and used, its exposure count never exceeds its
/// bound.
pub fn lemma_exposure_count_bounded<T, const MEC: u64>(s: &Secret<T, MEC>)
    ensures
        s.spec_ec() <= s.spec_mec(),
{
    proof {
        use_type_invariant(s);
    }
}

} // verus!

