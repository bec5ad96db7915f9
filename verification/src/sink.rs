//! A hasher as the symbols see it: a state that each thing fed to it changes.
use crate::reflect::type_rank;
use std::any::TypeId;
use std::hash::Hash;
use std::hash::Hasher;
use vstd::prelude::*;

verus! {

/// A hasher that is being fed, of a type only known at run time.
///
/// What is known of a hasher is that it is a state which each thing fed to it
/// changes, and that the state afterwards depends on nothing but the state before
/// and the thing fed. Which state a hasher starts from is no part of that.
#[verifier::external_body]
pub struct Sink<'a>(pub(crate) &'a mut dyn Hasher);

/// The state of a hasher after a type identity of the given rank was fed to it:
/// what `Hash::hash` of `TypeId` leaves.
pub uninterp spec fn fed_type(before: Sink, rank: int) -> Sink;

/// The state of a hasher after a number was fed to it: what `Hasher::write_u32`
/// leaves.
pub uninterp spec fn fed_number(before: Sink, value: u32) -> Sink;

impl<'a> Sink<'a> {
    /// Takes a hasher to feed it. Only changes the type of the reference; nothing
    /// is claimed of the result.
    #[verifier::external_body]
    pub fn new<H: Hasher>(state: &'a mut H) -> (sink: Sink<'a>) {
        Sink(state)
    }

    /// Feeds a type identity to the hasher.
    ///
    /// Calls `Hash::hash` of `TypeId`. The claim: what the hasher is afterwards
    /// depends only on what it was before and on the identity, which is known by
    /// its rank.
    #[verifier::external_body]
    pub(crate) fn write_type_id(&mut self, id: &TypeId)
        ensures
            *final(self) == fed_type(*old(self), type_rank(*id)),
    {
        id.hash(&mut self.0)
    }

    /// Feeds a number to the hasher.
    ///
    /// Calls `Hasher::write_u32`. The claim: what the hasher is afterwards depends
    /// only on what it was before and on the number.
    #[verifier::external_body]
    pub(crate) fn write_u32(&mut self, value: u32)
        ensures
            *final(self) == fed_number(*old(self), value),
    {
        self.0.write_u32(value)
    }
}

} // verus!
