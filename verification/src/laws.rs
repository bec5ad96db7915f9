//! What holds of equality, of hashing and of the order of symbols, for all
//! symbols.
use crate::namespace::namespace_type;
use crate::reflect::type_rank;
use crate::sink::Sink;
use crate::symbol::fed;
use crate::symbol::view_order;
use crate::symbol::Symbol;
use std::cmp::Ordering;
use vstd::prelude::*;
use vstd::std_specs::cmp::PartialEqSpec;

verus! {

/// The order that results when the two sides of a comparison change places.
pub open spec fn reversed(order: Ordering) -> Ordering {
    match order {
        Ordering::Less => Ordering::Greater,
        Ordering::Equal => Ordering::Equal,
        Ordering::Greater => Ordering::Less,
    }
}

/// Every symbol is equal to itself.
pub proof fn lemma_eq_reflexive(a: Symbol)
    ensures
        a.eq_spec(&a),
{
}

/// If one symbol equals another, the other equals the one.
pub proof fn lemma_eq_symmetric(a: Symbol, b: Symbol)
    ensures
        a.eq_spec(&b) == b.eq_spec(&a),
{
}

/// Two symbols that are equal to a third are equal to each other.
pub proof fn lemma_eq_transitive(a: Symbol, b: Symbol, c: Symbol)
    requires
        a.eq_spec(&b),
        b.eq_spec(&c),
    ensures
        a.eq_spec(&c),
{
}

/// Symbols that are equal feed a hasher alike: whatever the hasher was before, it
/// is the same after the one symbol as after the other.
pub proof fn lemma_equal_symbols_hash_alike(a: Symbol, b: Symbol, before: Sink)
    requires
        a.eq_spec(&b),
    ensures
        fed(before, a@) == fed(before, b@),
{
}

/// The order finds two symbols equal exactly when they are equal.
pub proof fn lemma_order_agrees_with_eq(a: Symbol, b: Symbol)
    ensures
        (view_order(a@, b@) == Ordering::Equal) <==> a.eq_spec(&b),
{
}

/// Comparing two symbols the other way round gives the reversed outcome, so of
/// two symbols that are not equal exactly one stands before the other.
pub proof fn lemma_order_antisymmetric(a: Symbol, b: Symbol)
    ensures
        view_order(b@, a@) == reversed(view_order(a@, b@)),
{
}

/// If one symbol stands before a second and the second before a third, the first
/// stands before the third.
pub proof fn lemma_order_transitive(a: Symbol, b: Symbol, c: Symbol)
    requires
        view_order(a@, b@) == Ordering::Less,
        view_order(b@, c@) == Ordering::Less,
    ensures
        view_order(a@, c@) == Ordering::Less,
{
}

/// Symbols that are equal stand alike towards every other symbol.
pub proof fn lemma_order_respects_eq(a: Symbol, b: Symbol, c: Symbol)
    requires
        a.eq_spec(&b),
    ensures
        view_order(a@, c@) == view_order(b@, c@),
        view_order(c@, a@) == view_order(c@, b@),
{
}

/// A static symbol and a dynamic symbol are never equal, and the static one stands
/// before the dynamic one, whatever they hold.
pub proof fn lemma_static_before_dynamic(a: Symbol, b: Symbol)
    requires
        a is Static,
        b is Dynamic,
    ensures
        !a.eq_spec(&b),
        !b.eq_spec(&a),
        view_order(a@, b@) == Ordering::Less,
        view_order(b@, a@) == Ordering::Greater,
{
}

/// Two static symbols whose namespaces differ in type identity are never equal,
/// whatever their numbers are.
pub proof fn lemma_namespaces_discriminate(a: Symbol, b: Symbol)
    requires
        a is Static,
        b is Static,
        type_rank(namespace_type(a->Static_0)) != type_rank(namespace_type(b->Static_0)),
    ensures
        !a.eq_spec(&b),
        view_order(a@, b@) != Ordering::Equal,
{
}

} // verus!
