//! The two kinds of namespace that a symbol can come from, as traits for the
//! providers of namespaces to implement, and the calls that a symbol makes into
//! them.
//!
//! What a symbol relies on in a static namespace is the contract of the trait
//! `Static`: a namespace always answers alike. A dynamic namespace takes and gives
//! instances of its own kind, which a contract on the trait cannot speak of; what a
//! symbol relies on there is written as the contract of the function that makes
//! each call: that instances of one type stand in a total order, that equality of
//! instances agrees with that order, that instances which are equal feed a hasher
//! alike, and that a copy of an instance is equal to it.
use crate::reflect::any_type;
use crate::reflect::int_order;
use crate::reflect::type_rank;
use crate::reflect::AnyRef;
use crate::sink::Sink;
use std::any::TypeId;
use std::cmp::Ordering;
use std::hash::Hasher;
use vstd::prelude::*;

verus! {

/// The outcome of comparing two instances of a dynamic namespace.
#[derive(Clone, Copy, Debug)]
pub enum Comparison {
    Less,
    Equal,
    Greater,
}

impl Comparison {
    /// The outcome that stands for an `Ordering`.
    pub open spec fn of(order: Ordering) -> Comparison {
        match order {
            Ordering::Less => Comparison::Less,
            Ordering::Equal => Comparison::Equal,
            Ordering::Greater => Comparison::Greater,
        }
    }

    /// The `Ordering` that this outcome stands for.
    pub open spec fn ordering(self) -> Ordering {
        match self {
            Comparison::Less => Ordering::Less,
            Comparison::Equal => Ordering::Equal,
            Comparison::Greater => Ordering::Greater,
        }
    }

    /// Turns an `Ordering` into the outcome that stands for it.
    pub fn from_ordering(order: Ordering) -> (outcome: Comparison)
        ensures
            outcome == Comparison::of(order),
            outcome.ordering() == order,
    {
        match order {
            Ordering::Less => Comparison::Less,
            Ordering::Equal => Comparison::Equal,
            Ordering::Greater => Comparison::Greater,
        }
    }

    /// Turns this outcome into the `Ordering` that it stands for.
    pub fn to_ordering(self) -> (order: Ordering)
        ensures
            order == self.ordering(),
            Comparison::of(order) == self,
    {
        match self {
            Comparison::Less => Ordering::Less,
            Comparison::Equal => Ordering::Equal,
            Comparison::Greater => Ordering::Greater,
        }
    }
}

/// A name as the contracts see it: the characters of a string.
pub type Label = Seq<char>;

/// A namespace whose symbols are all known beforehand. A symbol of such a
/// namespace is a number, and what the number means is up to the namespace.
///
/// An implementation has no state that changes: asked twice, it answers alike.
/// The three ghost members say what it answers, and the contracts of the other
/// three hold it to them. An implementation written outside the verifier gives the
/// ghost members bodies that never run; nothing then holds it to its contract.
pub trait Static: Send + Sync {
    /// The identity of the concrete type of the namespace.
    spec fn type_of(&self) -> TypeId;

    /// The name that the namespace gives itself.
    spec fn label(&self) -> Label;

    /// The name that the namespace gives to the symbol with the number `id`.
    spec fn label_of(&self, id: u32) -> Label;

    /// The name of the namespace.
    fn namespace_name(&self) -> (name: &str)
        ensures
            name@ == self.label(),
    ;

    /// The name of the symbol with the given number. What happens for a number that
    /// the namespace does not define is up to the namespace.
    fn symbol_name(&self, id: u32) -> (name: &str)
        ensures
            name@ == self.label_of(id),
    ;

    /// The handle of this namespace, made by `AnyRef::of(self)`.
    fn as_any(&self) -> (handle: AnyRef<'_>)
        ensures
            any_type(handle) == self.type_of(),
    ;
}

/// A namespace whose symbols are made at run time. A value of the implementing
/// type is the namespace and one symbol of it at once.
///
/// The instances of one implementing type stand in a total order. `dyn_cmp` tells
/// it, `dyn_eq` holds of two instances exactly when `dyn_cmp` finds them equal, and
/// instances that are equal feed a hasher alike.
pub trait Dynamic: Send + Sync {
    /// The name of the namespace.
    fn namespace_name(&self) -> &str;

    /// The name of this symbol.
    fn symbol_name(&self) -> &str;

    /// The handle of this instance, made by `AnyRef::of(self)`.
    fn as_any(&self) -> AnyRef<'_>;

    /// A new instance of the same type that is equal to this one.
    fn dyn_clone(&self) -> DynamicBox;

    /// Whether this instance equals `rhs`. The caller has made sure that `rhs` has
    /// the concrete type of `self`, so `rhs.as_any().downcast_ref::<Self>()` holds
    /// a value.
    fn dyn_eq(&self, rhs: &DynamicBox) -> bool;

    /// How this instance compares to `rhs`. The caller has made sure that `rhs` has
    /// the concrete type of `self`.
    fn dyn_cmp(&self, rhs: &DynamicBox) -> Comparison;

    /// Feeds this instance to a hasher.
    fn dyn_hash(&self, state: &mut dyn Hasher);
}

/// A reference to a static namespace that lives as long as the program does.
#[derive(Clone, Copy)]
pub struct StaticRef(pub &'static dyn Static);

/// An owned instance of a dynamic namespace, of a type only known at run time.
///
/// The verifier cannot follow a trait object from one place to the next, so the
/// box is opaque to it and is known by the names below.
#[verifier::external_body]
pub struct DynamicBox(pub Box<dyn Dynamic>);

/// The identity of the concrete type of a static namespace.
pub open spec fn namespace_type(ns: StaticRef) -> TypeId {
    ns.0.type_of()
}

/// The name that a static namespace gives itself.
pub open spec fn namespace_label(ns: StaticRef) -> Seq<char> {
    ns.0.label()
}

/// The name that a static namespace gives to the symbol with the number `id`.
pub open spec fn symbol_label(ns: StaticRef, id: u32) -> Seq<char> {
    ns.0.label_of(id)
}

/// The identity of the concrete type of an instance.
pub uninterp spec fn instance_type(instance: DynamicBox) -> TypeId;

/// The place of an instance in the total order of the instances of its type.
pub uninterp spec fn instance_rank(instance: DynamicBox) -> int;

/// The state of a hasher after an instance was fed to it, of a type with the rank
/// `kind` and with the place `rank` in the order of that type.
pub uninterp spec fn fed_instance(before: Sink, kind: int, rank: int) -> Sink;

/// The name that an instance gives to its namespace.
pub uninterp spec fn instance_namespace_label(instance: DynamicBox) -> Seq<char>;

/// The name that an instance gives itself.
pub uninterp spec fn instance_symbol_label(instance: DynamicBox) -> Seq<char>;

impl StaticRef {
    /// The handle of the namespace.
    pub(crate) fn as_any(&self) -> (handle: AnyRef<'static>)
        ensures
            any_type(handle) == namespace_type(*self),
    {
        self.0.as_any()
    }

    /// The identity of the concrete type of the namespace.
    pub(crate) fn type_id(&self) -> (id: TypeId)
        ensures
            id == namespace_type(*self),
    {
        self.as_any().type_id()
    }

    /// The name of the namespace.
    pub(crate) fn namespace_name(&self) -> (name: &'static str)
        ensures
            name@ == namespace_label(*self),
    {
        self.0.namespace_name()
    }

    /// The name of the symbol with the number `id`. A namespace may fault on a
    /// number that it does not define; which numbers those are is not known here.
    pub(crate) fn symbol_name(&self, id: u32) -> (name: &'static str)
        ensures
            name@ == symbol_label(*self, id),
    {
        self.0.symbol_name(id)
    }
}

impl DynamicBox {
    /// The handle of the instance.
    ///
    /// Calls the instance's `as_any`. Relied on: the handle is that of the instance
    /// itself, so its type is the instance's.
    #[verifier::external_body]
    pub fn as_any(&self) -> (handle: AnyRef<'_>)
        ensures
            any_type(handle) == instance_type(*self),
    {
        self.0.as_any()
    }

    /// The identity of the concrete type of the instance.
    pub(crate) fn type_id(&self) -> (id: TypeId)
        ensures
            id == instance_type(*self),
    {
        self.as_any().type_id()
    }

    /// The name of the instance's namespace.
    ///
    /// Calls the instance's `namespace_name`. Relied on: an instance always gives
    /// the same name.
    #[verifier::external_body]
    pub(crate) fn namespace_name(&self) -> (name: &str)
        ensures
            name@ == instance_namespace_label(*self),
    {
        self.0.namespace_name()
    }

    /// The name of the instance.
    ///
    /// Calls the instance's `symbol_name`. Relied on: an instance always gives the
    /// same name.
    #[verifier::external_body]
    pub(crate) fn symbol_name(&self) -> (name: &str)
        ensures
            name@ == instance_symbol_label(*self),
    {
        self.0.symbol_name()
    }

    /// A new instance that is equal to this one.
    ///
    /// Calls the instance's `dyn_clone`. Relied on: the copy has the type of the
    /// instance and its place in the order of that type.
    #[verifier::external_body]
    pub(crate) fn duplicate(&self) -> (copy: DynamicBox)
        ensures
            type_rank(instance_type(copy)) == type_rank(instance_type(*self)),
            instance_rank(copy) == instance_rank(*self),
    {
        self.0.dyn_clone()
    }

    /// Whether the instance equals `rhs`, which must have the same concrete type.
    ///
    /// Calls the instance's `dyn_eq`. Relied on: two instances of one type are equal
    /// exactly when they have the same place in the order of that type.
    #[verifier::external_body]
    pub(crate) fn same_as(&self, rhs: &DynamicBox) -> (r: bool)
        requires
            type_rank(instance_type(*self)) == type_rank(instance_type(*rhs)),
        ensures
            r == (instance_rank(*self) == instance_rank(*rhs)),
    {
        self.0.dyn_eq(rhs)
    }

    /// How the instance compares to `rhs`, which must have the same concrete type.
    ///
    /// Calls the instance's `dyn_cmp`. Relied on: the outcome is how the places of
    /// the two instances in the order of their type compare.
    #[verifier::external_body]
    pub(crate) fn compare_with(&self, rhs: &DynamicBox) -> (outcome: Comparison)
        requires
            type_rank(instance_type(*self)) == type_rank(instance_type(*rhs)),
        ensures
            outcome.ordering() == int_order(instance_rank(*self), instance_rank(*rhs)),
    {
        self.0.dyn_cmp(rhs)
    }

    /// Feeds the instance to a hasher.
    ///
    /// Calls the instance's `dyn_hash`. Relied on: what the hasher is afterwards
    /// depends only on what it was before, on the type of the instance and on the
    /// place of the instance in the order of that type, so that instances which are
    /// equal feed a hasher alike.
    #[verifier::external_body]
    pub(crate) fn hash_into(&self, sink: &mut Sink)
        ensures
            *final(sink) == fed_instance(
                *old(sink),
                type_rank(instance_type(*self)),
                instance_rank(*self),
            ),
    {
        self.0.dyn_hash(&mut *sink.0)
    }
}

} // verus!
