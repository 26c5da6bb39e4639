//! The trait surface of the crate: the compile-time exposure interface, the
//! opt-in payload capabilities, and the closed family of counter
//! representations used by the runtime containers.
use vstd::prelude::*;

use crate::sealed::{SealedToken, SealedTrait};
use crate::secret::ExposedSecret;

verus! {

/// Interface of the compile-time-checked secret container.
///
/// A secret that implements this trait hands its payload to a caller-supplied
/// closure, consumes itself, and returns a successor whose exposure count is
/// one higher.  Exposing past the maximum is ruled out statically: the
/// `expose_secret` precondition demands a count strictly below the bound, so
/// an over-exposing program is rejected before it runs.
///
/// In the underlying machine representation the exposure count is ghost
/// state, so the successor has the same Rust type as the consumed container;
/// the count lives in the container's specification rather than in a type
/// parameter.
pub trait ExposeSecret<T>: Sized {
    /// The wrapped payload.
    spec fn spec_payload(self) -> T;

    /// Exposures granted so far.
    spec fn spec_ec(self) -> nat;

    /// Maximum exposures this container may ever grant.
    spec fn spec_mec(self) -> nat;

    /// Expose the payload to `scope` once, consuming this container and
    /// returning the successor together with the closure's result.
    ///
    /// The guard handed to `scope` lives only for the duration of the call:
    /// its lifetime is chosen fresh for each invocation, so neither the guard
    /// nor a reference derived from it can be part of the returned value.
    fn expose_secret<R, F: for<'brand> FnOnce(ExposedSecret<'brand, T>) -> R>(
        self,
        scope: F,
    ) -> (res: (Self, R))
        requires
            self.spec_ec() < self.spec_mec(),
            forall|g: ExposedSecret<'_, T>|
                g@ == self.spec_payload() ==> call_requires(scope, (g,)),
        ensures
            res.0.spec_payload() == self.spec_payload(),
            res.0.spec_ec() == self.spec_ec() + 1,
            res.0.spec_mec() == self.spec_mec(),
            exists|g: ExposedSecret<'_, T>|
                g@ == self.spec_payload() && call_ensures(scope, (g,), res.1),
    ;
}

/// Capability of payload types whose memory can be scrubbed.
///
/// A type opting in states what a scrubbed value of it looks like and
/// promises that `zeroize_secret` leaves the value in that state.  The
/// containers call it exactly once, when a container is destroyed through its
/// zeroizing destructor.
pub trait ZeroizableSecret: Sized {
    /// Holds when the value carries no secret content any more.
    spec fn spec_is_zeroized(self) -> bool;

    /// Irreversibly overwrite the value's memory.
    fn zeroize_secret(&mut self)
        ensures
            final(self).spec_is_zeroized(),
    ;
}

/// Capability of payload types that may safely be duplicated.
///
/// A container whose payload opts in can itself be cloned; the duplicate
/// carries the same secret content and the same exposure budget as the
/// original at the moment of cloning.
pub trait CloneableSecret: ZeroizableSecret + Sized {
    /// Holds when `other` carries the same secret content as `self`.
    spec fn spec_same_secret(self, other: Self) -> bool;

    /// Duplicate the secret value.
    fn clone_secret(&self) -> (r: Self)
        ensures
            self.spec_same_secret(r),
    ;
}

/// Capability of payload types that allow a debug rendering of the container.
///
/// The rendering never shows the payload: it is the fixed redaction token,
/// whatever the payload holds.
pub trait DebugSecret {
    /// The redaction token shown in place of the payload.
    fn debug_secret() -> (r: String)
        ensures
            r@ == "[REDACTED]"@,
    {
        String::from_str("[REDACTED]")
    }
}

/// The closed family of exposure-counter representations.
///
/// The runtime container stores its exposure count in a value of one of these
/// types: the four unsigned machine integers, or the zero-sized placeholder
/// for the "no counting" case.  The family is closed by the sealed
/// supertrait, so no outside crate can add a representation.
///
/// A representation can hold any count up to `spec_max_value()`; a container
/// whose bound does not fit its chosen representation is rejected statically
/// (an unrepresentable bound is a build failure, never a runtime condition).
pub trait ChooseMinimallyRepresentableUInt: SealedTrait + Sized + Copy {
    /// The number this counter value stands for.
    spec fn as_nat(self) -> nat;

    /// The largest number this representation can hold.
    spec fn spec_max_value() -> nat;

    /// The additive identity.
    fn zero() -> (r: Self)
        ensures
            r.as_nat() == 0,
    ;

    /// Convert a bound given as a plain unsigned integer into this
    /// representation.
    fn cast_unsigned_to_self_type(value: u64, token: SealedToken) -> (r: Self)
        requires
            value as nat <= Self::spec_max_value(),
        ensures
            r.as_nat() == value as nat,
    ;

    /// Strict order on counter values.
    fn lt(&self, other: &Self) -> (r: bool)
        ensures
            r == (self.as_nat() < other.as_nat()),
    ;

    /// The successor counter value.
    fn incremented(self) -> (r: Self)
        requires
            self.as_nat() + 1 <= Self::spec_max_value(),
        ensures
            r.as_nat() == self.as_nat() + 1,
    ;
}

impl SealedTrait for u8 {

}

impl ChooseMinimallyRepresentableUInt for u8 {
    open spec fn as_nat(self) -> nat {
        self as nat
    }

    open spec fn spec_max_value() -> nat {
        u8::MAX as nat
    }

    fn zero() -> (r: Self) {
        0
    }

    fn cast_unsigned_to_self_type(value: u64, token: SealedToken) -> (r: Self) {
        value as u8
    }

    fn lt(&self, other: &Self) -> (r: bool) {
        *self < *other
    }

    fn incremented(self) -> (r: Self) {
        self + 1
    }
}

impl SealedTrait for u16 {

}

impl ChooseMinimallyRepresentableUInt for u16 {
    open spec fn as_nat(self) -> nat {
        self as nat
    }

    open spec fn spec_max_value() -> nat {
        u16::MAX as nat
    }

    fn zero() -> (r: Self) {
        0
    }

    fn cast_unsigned_to_self_type(value: u64, token: SealedToken) -> (r: Self) {
        value as u16
    }

    fn lt(&self, other: &Self) -> (r: bool) {
        *self < *other
    }

    fn incremented(self) -> (r: Self) {
        self + 1
    }
}

impl SealedTrait for u32 {

}

impl ChooseMinimallyRepresentableUInt for u32 {
    open spec fn as_nat(self) -> nat {
        self as nat
    }

    open spec fn spec_max_value() -> nat {
        u32::MAX as nat
    }

    fn zero() -> (r: Self) {
        0
    }

    fn cast_unsigned_to_self_type(value: u64, token: SealedToken) -> (r: Self) {
        value as u32
    }

    fn lt(&self, other: &Self) -> (r: bool) {
        *self < *other
    }

    fn incremented(self) -> (r: Self) {
        self + 1
    }
}

impl SealedTrait for u64 {

}

impl ChooseMinimallyRepresentableUInt for u64 {
    open spec fn as_nat(self) -> nat {
        self as nat
    }

    open spec fn spec_max_value() -> nat {
        u64::MAX as nat
    }

    fn zero() -> (r: Self) {
        0
    }

    fn cast_unsigned_to_self_type(value: u64, token: SealedToken) -> (r: Self) {
        value
    }

    fn lt(&self, other: &Self) -> (r: bool) {
        *self < *other
    }

    fn incremented(self) -> (r: Self) {
        self + 1
    }
}

/// Width of the smallest unsigned machine integer able to hold a given bound.
#[derive(Clone, Copy, PartialEq, Eq, Structural, Debug)]
pub enum UIntWidth {
    W8,
    W16,
    W32,
    W64,
}

impl UIntWidth {
    /// The largest value a counter of this width can hold.
    pub fn max_value(&self) -> (r: u64)
        ensures
            r == match *self {
                UIntWidth::W8 => u8::MAX as u64,
                UIntWidth::W16 => u16::MAX as u64,
                UIntWidth::W32 => u32::MAX as u64,
                UIntWidth::W64 => u64::MAX,
            },
    {
        match *self {
            UIntWidth::W8 => u8::MAX as u64,
            UIntWidth::W16 => u16::MAX as u64,
            UIntWidth::W32 => u32::MAX as u64,
            UIntWidth::W64 => u64::MAX,
        }
    }

    /// Number of bits of this width.
    pub fn bits(&self) -> (r: u32)
        ensures
            r == match *self {
                UIntWidth::W8 => 8u32,
                UIntWidth::W16 => 16u32,
                UIntWidth::W32 => 32u32,
                UIntWidth::W64 => 64u32,
            },
    {
        match *self {
            UIntWidth::W8 => 8u32,
            UIntWidth::W16 => 16u32,
            UIntWidth::W32 => 32u32,
            UIntWidth::W64 => 64u32,
        }
    }
}

/// Select the narrowest unsigned integer width able to represent `bound`:
/// bounds fitting in 8 bits select the 8-bit width, then 16, then 32, then
/// 64.  A bound above the 64-bit range is unrepresentable and yields `None`.
pub fn choose_minimally_representable_uint(bound: u128) -> (r: Option<UIntWidth>)
    ensures
        bound <= u8::MAX ==> r == Some(UIntWidth::W8),
        u8::MAX < bound <= u16::MAX ==> r == Some(UIntWidth::W16),
        u16::MAX < bound <= u32::MAX ==> r == Some(UIntWidth::W32),
        u32::MAX < bound <= u64::MAX ==> r == Some(UIntWidth::W64),
        bound > u64::MAX ==> r == None::<UIntWidth>,
{
    if bound <= u8::MAX as u128 {
        Some(UIntWidth::W8)
    } else if bound <= u16::MAX as u128 {
        Some(UIntWidth::W16)
    } else if bound <= u32::MAX as u128 {
        Some(UIntWidth::W32)
    } else if bound <= u64::MAX as u128 {
        Some(UIntWidth::W64)
    } else {
        None
    }
}

// ---------------------------------------------------------------------------
// Capability implementations for the payload types this crate supports out
// of the box.  Scrubbing is delegated to the zeroize crate, one trusted
// wrapper per payload type; everything above the call is verified.
// ---------------------------------------------------------------------------
/// Relies on zeroize::Zeroize for u8: overwrites the value with its default,
/// which is zero, through a volatile write.
#[verifier::external_body]
fn zeroize_u8(x: &mut u8)
    ensures
        *final(x) == 0u8,
{
    zeroize::Zeroize::zeroize(x)
}

/// Relies on zeroize::Zeroize for u64: overwrites the value with its
/// default, which is zero, through a volatile write.
#[verifier::external_body]
fn zeroize_u64(x: &mut u64)
    ensures
        *final(x) == 0u64,
{
    zeroize::Zeroize::zeroize(x)
}

/// Relies on zeroize::Zeroize for usize: overwrites the value with its
/// default, which is zero, through a volatile write.
#[verifier::external_body]
fn zeroize_usize(x: &mut usize)
    ensures
        *final(x) == 0usize,
{
    zeroize::Zeroize::zeroize(x)
}

/// Relies on zeroize::Zeroize for i32: overwrites the value with its
/// default, which is zero, through a volatile write.
#[verifier::external_body]
fn zeroize_i32(x: &mut i32)
    ensures
        *final(x) == 0i32,
{
    zeroize::Zeroize::zeroize(x)
}

/// Relies on zeroize::Zeroize for i64: overwrites the value with its
/// default, which is zero, through a volatile write.
#[verifier::external_body]
fn zeroize_i64(x: &mut i64)
    ensures
        *final(x) == 0i64,
{
    zeroize::Zeroize::zeroize(x)
}

/// Relies on zeroize::Zeroize for isize: overwrites the value with its
/// default, which is zero, through a volatile write.
#[verifier::external_body]
fn zeroize_isize(x: &mut isize)
    ensures
        *final(x) == 0isize,
{
    zeroize::Zeroize::zeroize(x)
}

/// Relies on zeroize::Zeroize for String: zeroizes the backing buffer and
/// clears it, leaving the string empty.
#[verifier::external_body]
fn zeroize_string(x: &mut String)
    ensures
        final(x)@.len() == 0,
{
    zeroize::Zeroize::zeroize(x)
}

/// Relies on zeroize::Zeroize for Vec<String>: zeroizes every element and
/// the spare capacity, then clears the vector.
#[verifier::external_body]
fn zeroize_vec_string(x: &mut Vec<String>)
    ensures
        final(x)@.len() == 0,
{
    zeroize::Zeroize::zeroize(x)
}

impl ZeroizableSecret for u8 {
    open spec fn spec_is_zeroized(self) -> bool {
        self == 0
    }

    fn zeroize_secret(&mut self) {
        zeroize_u8(self)
    }
}

impl ZeroizableSecret for u64 {
    open spec fn spec_is_zeroized(self) -> bool {
        self == 0
    }

    fn zeroize_secret(&mut self) {
        zeroize_u64(self)
    }
}

impl ZeroizableSecret for usize {
    open spec fn spec_is_zeroized(self) -> bool {
        self == 0
    }

    fn zeroize_secret(&mut self) {
        zeroize_usize(self)
    }
}

impl ZeroizableSecret for i32 {
    open spec fn spec_is_zeroized(self) -> bool {
        self == 0
    }

    fn zeroize_secret(&mut self) {
        zeroize_i32(self)
    }
}

impl ZeroizableSecret for i64 {
    open spec fn spec_is_zeroized(self) -> bool {
        self == 0
    }

    fn zeroize_secret(&mut self) {
        zeroize_i64(self)
    }
}

impl ZeroizableSecret for isize {
    open spec fn spec_is_zeroized(self) -> bool {
        self == 0
    }

    fn zeroize_secret(&mut self) {
        zeroize_isize(self)
    }
}

impl ZeroizableSecret for String {
    open spec fn spec_is_zeroized(self) -> bool {
        self@.len() == 0
    }

    fn zeroize_secret(&mut self) {
        zeroize_string(self)
    }
}

impl ZeroizableSecret for Vec<String> {
    open spec fn spec_is_zeroized(self) -> bool {
        self@.len() == 0
    }

    fn zeroize_secret(&mut self) {
        zeroize_vec_string(self)
    }
}

impl CloneableSecret for u8 {
    open spec fn spec_same_secret(self, other: Self) -> bool {
        other == self
    }

    fn clone_secret(&self) -> (r: Self) {
        *self
    }
}

impl CloneableSecret for u64 {
    open spec fn spec_same_secret(self, other: Self) -> bool {
        other == self
    }

    fn clone_secret(&self) -> (r: Self) {
        *self
    }
}

impl CloneableSecret for usize {
    open spec fn spec_same_secret(self, other: Self) -> bool {
        other == self
    }

    fn clone_secret(&self) -> (r: Self) {
        *self
    }
}

impl CloneableSecret for i32 {
    open spec fn spec_same_secret(self, other: Self) -> bool {
        other == self
    }

    fn clone_secret(&self) -> (r: Self) {
        *self
    }
}

impl CloneableSecret for i64 {
    open spec fn spec_same_secret(self, other: Self) -> bool {
        other == self
    }

    fn clone_secret(&self) -> (r: Self) {
        *self
    }
}

impl CloneableSecret for isize {
    open spec fn spec_same_secret(self, other: Self) -> bool {
        other == self
    }

    fn clone_secret(&self) -> (r: Self) {
        *self
    }
}

impl CloneableSecret for String {
    open spec fn spec_same_secret(self, other: Self) -> bool {
        other@ == self@
    }

    fn clone_secret(&self) -> (r: Self) {
        self.clone()
    }
}

impl CloneableSecret for Vec<String> {
    open spec fn spec_same_secret(self, other: Self) -> bool {
        &&& other@.len() == self@.len()
        &&& forall|i: int| 0 <= i < self@.len() ==> other@[i]@ == self@[i]@
    }

    fn clone_secret(&self) -> (r: Self) {
        let r = self.clone();
        proof {
            assert forall|i: int| 0 <= i < self@.len() implies r@[i]@ == self@[i]@ by {
                assert(cloned::<String>(self[i], r[i]));
            }
        }
        r
    }
}

impl DebugSecret for u8 {

}

impl DebugSecret for u64 {

}

impl DebugSecret for usize {

}

impl DebugSecret for i32 {

}

impl DebugSecret for i64 {

}

impl DebugSecret for isize {

}

impl DebugSecret for String {

}

impl DebugSecret for Vec<String> {

}

/// A counter representation that has an atomic counterpart.  At present a
/// placeholder: nothing in the crate reads the associated type yet.
pub trait AsAtomic: SealedTrait {
    type Output;
}

impl AsAtomic for u8 {
    type Output = core::sync::atomic::AtomicU8;
}

impl AsAtomic for u16 {
    type Output = core::sync::atomic::AtomicU16;
}

impl AsAtomic for u32 {
    type Output = core::sync::atomic::AtomicU32;
}

impl AsAtomic for u64 {
    type Output = core::sync::atomic::AtomicU64;
}

} // verus!

