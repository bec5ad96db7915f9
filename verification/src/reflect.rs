//! Runtime type identity: the handle through which a value shows its concrete
//! type, and the order in which type identities stand.
use downcast_rs::Downcast;
use std::any::Any;
use std::any::TypeId;
use std::cmp::Ordering;
use vstd::prelude::*;

verus! {

/// `std::any::TypeId`, carried through as an opaque value.
#[verifier::external_type_specification]
#[verifier::external_body]
pub struct ExTypeId(TypeId);

/// The place of a type identity in the total order that `TypeId` has by its `Ord`.
///
/// That order agrees with `==` of `TypeId`: two identities are equal exactly when
/// they have the same rank, and one is less than another exactly when its rank is.
pub uninterp spec fn type_rank(id: TypeId) -> int;

/// How two integers compare.
pub open spec fn int_order(a: int, b: int) -> Ordering {
    if a < b {
        Ordering::Less
    } else if a == b {
        Ordering::Equal
    } else {
        Ordering::Greater
    }
}

/// A borrowed handle on a value whose concrete type is only known at run time.
///
/// It stands where `&dyn Any` would: the verifier has no notion of `Any`.
#[verifier::external_body]
pub struct AnyRef<'a>(&'a dyn Any);

/// The identity of the concrete type of the value behind a handle: what
/// `Any::type_id` returns for it.
pub uninterp spec fn any_type(handle: AnyRef) -> TypeId;

impl<'a> AnyRef<'a> {
    /// The handle of `value`.
    ///
    /// Calls `downcast_rs::Downcast::as_any`. Nothing is claimed of the result.
    #[verifier::external_body]
    pub fn of<T: 'static>(value: &'a T) -> (handle: AnyRef<'a>) {
        AnyRef(Downcast::as_any(value))
    }

    /// The identity of the concrete type of the value behind the handle.
    ///
    /// Calls `Any::type_id`. The claim is only that the result is the identity which
    /// `any_type` names, so that two calls on one handle agree.
    #[verifier::external_body]
    pub fn type_id(&self) -> (id: TypeId)
        ensures
            id == any_type(*self),
    {
        Any::type_id(self.0)
    }

    /// The value behind the handle under its concrete type, if that type is `T`.
    ///
    /// Calls `<dyn Any>::downcast_ref`. Nothing is claimed of the result.
    #[verifier::external_body]
    pub fn downcast_ref<T: 'static>(&self) -> (value: Option<&'a T>) {
        self.0.downcast_ref::<T>()
    }
}

/// Whether two type identities are equal.
///
/// Calls `==` of `TypeId`. The claim: it holds exactly when the ranks are equal.
#[verifier::external_body]
pub(crate) fn type_id_eq(a: &TypeId, b: &TypeId) -> (r: bool)
    ensures
        r == (type_rank(*a) == type_rank(*b)),
{
    a == b
}

/// How two type identities compare.
///
/// Calls `Ord::cmp` of `TypeId`. The claim: the result is how the ranks compare.
#[verifier::external_body]
pub(crate) fn type_id_cmp(a: &TypeId, b: &TypeId) -> (r: Ordering)
    ensures
        r == int_order(type_rank(*a), type_rank(*b)),
{
    a.cmp(b)
}

} // verus!
