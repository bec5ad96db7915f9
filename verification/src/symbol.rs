//! The symbol: one plain type for every symbol of every namespace, with equality,
//! a total order, hashing, copying and a printed form.
use crate::namespace::fed_instance;
use crate::namespace::instance_namespace_label;
use crate::namespace::instance_rank;
use crate::namespace::instance_symbol_label;
use crate::namespace::instance_type;
use crate::namespace::namespace_label;
use crate::namespace::namespace_type;
use crate::namespace::symbol_label;
use crate::namespace::DynamicBox;
use crate::namespace::StaticRef;
use crate::reflect::any_type;
use crate::reflect::int_order;
use crate::reflect::type_id_cmp;
use crate::reflect::type_id_eq;
use crate::reflect::type_rank;
use crate::reflect::AnyRef;
use crate::sink::fed_number;
use crate::sink::fed_type;
use crate::sink::Sink;
use std::any::TypeId;
use std::cmp::Ordering;
use std::hash::Hash;
use std::hash::Hasher;
use vstd::prelude::*;
use vstd::std_specs::cmp::PartialEqSpec;

verus! {

/// A symbol, from a static or from a dynamic namespace.
pub enum Symbol {
    /// A symbol of a static namespace: the namespace, and the number of the symbol
    /// in it. The number is not held against any bound.
    Static(StaticRef, u32),
    /// A symbol of a dynamic namespace. The instance is owned by the symbol.
    Dynamic(DynamicBox),
}

/// What a symbol is, as far as equality, order and hashing go.
///
/// A namespace is known by the rank of the identity of its concrete type, nothing
/// else of it counts. An instance is known by that rank and by its place in the
/// order that its own type defines.
pub enum SymbolView {
    Static { namespace: int, id: u32 },
    Dynamic { kind: int, rank: int },
}

/// How two numbers of symbols compare.
pub open spec fn id_order(a: u32, b: u32) -> Ordering {
    if a < b {
        Ordering::Less
    } else if a == b {
        Ordering::Equal
    } else {
        Ordering::Greater
    }
}

/// The total order of symbols: every static symbol stands before every dynamic
/// one; two static symbols go by namespace first and by number second; two dynamic
/// symbols go by type first and by the order of that type second.
pub open spec fn view_order(a: SymbolView, b: SymbolView) -> Ordering {
    match (a, b) {
        (
            SymbolView::Static { namespace: a_ns, id: a_id },
            SymbolView::Static { namespace: b_ns, id: b_id },
        ) => if a_ns == b_ns {
            id_order(a_id, b_id)
        } else {
            int_order(a_ns, b_ns)
        },
        (
            SymbolView::Dynamic { kind: a_kind, rank: a_rank },
            SymbolView::Dynamic { kind: b_kind, rank: b_rank },
        ) => if a_kind == b_kind {
            int_order(a_rank, b_rank)
        } else {
            int_order(a_kind, b_kind)
        },
        (SymbolView::Static { .. }, SymbolView::Dynamic { .. }) => Ordering::Less,
        (SymbolView::Dynamic { .. }, SymbolView::Static { .. }) => Ordering::Greater,
    }
}

impl View for Symbol {
    type V = SymbolView;

    open spec fn view(&self) -> SymbolView {
        match self {
            Symbol::Static(ns, id) => SymbolView::Static {
                namespace: type_rank(namespace_type(*ns)),
                id: *id,
            },
            Symbol::Dynamic(instance) => SymbolView::Dynamic {
                kind: type_rank(instance_type(*instance)),
                rank: instance_rank(*instance),
            },
        }
    }
}

/// The state of a hasher after a symbol was fed to it: first the type identity of
/// the namespace or of the instance, then the number or the instance.
pub open spec fn fed(before: Sink, symbol: SymbolView) -> Sink {
    match symbol {
        SymbolView::Static { namespace, id } => fed_number(fed_type(before, namespace), id),
        SymbolView::Dynamic { kind, rank } => fed_instance(fed_type(before, kind), kind, rank),
    }
}

/// The printed form of a symbol: the name of its namespace, two colons, and its
/// own name.
pub open spec fn qualified(namespace: Seq<char>, symbol: Seq<char>) -> Seq<char> {
    namespace + seq![':', ':'] + symbol
}

/// Puts the name of a namespace and the name of a symbol together into the printed
/// form of the symbol.
pub fn qualified_name(namespace: &str, symbol: &str) -> (text: String)
    ensures
        text@ == qualified(namespace@, symbol@),
{
    proof {
        reveal_strlit("::");
    }
    String::from_str(namespace).concat("::").concat(symbol)
}

/// How two numbers of symbols compare.
pub fn compare_ids(a: u32, b: u32) -> (r: Ordering)
    ensures
        r == id_order(a, b),
{
    if a < b {
        Ordering::Less
    } else if a == b {
        Ordering::Equal
    } else {
        Ordering::Greater
    }
}

impl Symbol {
    /// The identity of the concrete type of the namespace or of the instance.
    pub open spec fn type_identity(&self) -> TypeId {
        match self {
            Symbol::Static(ns, _) => namespace_type(*ns),
            Symbol::Dynamic(instance) => instance_type(*instance),
        }
    }

    /// The handle of the namespace that the symbol comes from, or of the instance
    /// that it holds. By it the concrete type behind the symbol can be asked for.
    pub fn as_any(&self) -> (handle: AnyRef<'_>)
        ensures
            any_type(handle) == self.type_identity(),
    {
        match self {
            Symbol::Static(ns, _) => ns.as_any(),
            Symbol::Dynamic(instance) => instance.as_any(),
        }
    }

    /// The namespace of a static symbol under its concrete type `T`, with the
    /// number of the symbol. Nothing for a dynamic symbol, and nothing where the
    /// namespace is not of type `T`.
    pub fn downcast_static<T: 'static>(&self) -> (r: Option<(&T, u32)>)
        ensures
            self is Dynamic ==> r is None,
            r matches Some(found) ==> self matches Symbol::Static(_, id) && found.1 == id,
    {
        match self {
            Symbol::Static(ns, id) => with_id(
                ns.as_any().downcast_ref::<T>(),
                *id,
            ),
            Symbol::Dynamic(_) => None,
        }
    }

    /// The instance of a dynamic symbol under its concrete type `T`. Nothing for a
    /// static symbol, and nothing where the instance is not of type `T`.
    pub fn downcast_dyn<T: 'static>(&self) -> (r: Option<&T>)
        ensures
            self is Static ==> r is None,
    {
        match self {
            Symbol::Static(_, _) => None,
            Symbol::Dynamic(instance) => instance.as_any().downcast_ref::<T>(),
        }
    }

    /// The name of the namespace that the symbol comes from.
    pub open spec fn namespace_label(&self) -> Seq<char> {
        match self {
            Symbol::Static(ns, _) => namespace_label(*ns),
            Symbol::Dynamic(instance) => instance_namespace_label(*instance),
        }
    }

    /// The name of the symbol in its namespace.
    pub open spec fn symbol_label(&self) -> Seq<char> {
        match self {
            Symbol::Static(ns, id) => symbol_label(*ns, *id),
            Symbol::Dynamic(instance) => instance_symbol_label(*instance),
        }
    }

    /// The printed form of the symbol: the name of its namespace, two colons, and
    /// its own name, as in `A::0`.
    ///
    /// A static namespace may fault on a number that it does not define.
    pub fn fmt(&self) -> (text: String)
        ensures
            text@ == qualified(self.namespace_label(), self.symbol_label()),
    {
        match self {
            Symbol::Static(ns, id) => qualified_name(ns.namespace_name(), ns.symbol_name(*id)),
            Symbol::Dynamic(instance) => qualified_name(
                instance.namespace_name(),
                instance.symbol_name(),
            ),
        }
    }

    /// Feeds the symbol to a hasher: first the type identity of its namespace or of
    /// its instance, then its number or its instance.
    pub fn hash_into(&self, sink: &mut Sink)
        ensures
            *final(sink) == fed(*old(sink), self@),
    {
        match self {
            Symbol::Static(ns, id) => {
                sink.write_type_id(&ns.type_id());
                sink.write_u32(*id)
            },
            Symbol::Dynamic(instance) => {
                sink.write_type_id(&instance.type_id());
                instance.hash_into(sink)
            },
        }
    }

    /// How this symbol compares to `rhs` in the total order of symbols.
    pub fn cmp(&self, rhs: &Symbol) -> (r: Ordering)
        ensures
            r == view_order(self@, rhs@),
    {
        match (self, rhs) {
            (Symbol::Static(this_ns, this_id), Symbol::Static(rhs_ns, rhs_id)) => {
                let this_type_id = this_ns.type_id();
                let rhs_type_id = rhs_ns.type_id();

                if type_id_eq(&this_type_id, &rhs_type_id) {
                    compare_ids(*this_id, *rhs_id)
                } else {
                    type_id_cmp(&this_type_id, &rhs_type_id)
                }
            },
            (Symbol::Dynamic(this), Symbol::Dynamic(rhs)) => {
                let this_type_id = this.type_id();
                let rhs_type_id = rhs.type_id();

                if type_id_eq(&this_type_id, &rhs_type_id) {
                    this.compare_with(rhs).to_ordering()
                } else {
                    type_id_cmp(&this_type_id, &rhs_type_id)
                }
            },
            (Symbol::Static(_, _), Symbol::Dynamic(_)) => Ordering::Less,
            (Symbol::Dynamic(_), Symbol::Static(_, _)) => Ordering::Greater,
        }
    }
}

/// What a downcast of a static symbol gives, from what the downcast of its
/// namespace found: the namespace that was found together with the number of the
/// symbol, and nothing where nothing was found.
pub fn with_id<'a, T>(found: Option<&'a T>, id: u32) -> (r: Option<(&'a T, u32)>)
    ensures
        r == match found {
            Some(namespace) => Some((namespace, id)),
            None => None,
        },
{
    match found {
        Some(namespace) => Some((namespace, id)),
        None => None,
    }
}

impl PartialEq for Symbol {
    /// Whether two symbols are equal: never across the two kinds; two static
    /// symbols exactly when their namespaces have the same type identity and their
    /// numbers are the same; two dynamic symbols exactly when their instances have
    /// the same type identity and their namespace finds them equal.
    fn eq(&self, rhs: &Symbol) -> (r: bool) {
        match (self, rhs) {
            (Symbol::Static(this_ns, this_id), Symbol::Static(rhs_ns, rhs_id)) => {
                *this_id == *rhs_id && type_id_eq(&this_ns.type_id(), &rhs_ns.type_id())
            },
            (Symbol::Dynamic(this), Symbol::Dynamic(rhs)) => {
                type_id_eq(&this.type_id(), &rhs.type_id()) && this.same_as(rhs)
            },
            _ => false,
        }
    }
}

impl vstd::std_specs::cmp::PartialEqSpecImpl for Symbol {
    open spec fn obeys_eq_spec() -> bool {
        true
    }

    open spec fn eq_spec(&self, rhs: &Symbol) -> bool {
        self@ == rhs@
    }
}

impl Eq for Symbol {}

impl PartialOrd for Symbol {
    fn partial_cmp(&self, other: &Symbol) -> (r: Option<Ordering>) {
        Some(self.cmp(other))
    }
}

impl vstd::std_specs::cmp::PartialOrdSpecImpl for Symbol {
    open spec fn obeys_partial_cmp_spec() -> bool {
        true
    }

    open spec fn partial_cmp_spec(&self, other: &Symbol) -> Option<Ordering> {
        Some(view_order(self@, other@))
    }
}

impl Clone for Symbol {
    /// A copy of the symbol. Of a static symbol it holds the same reference and the
    /// same number; of a dynamic symbol it holds the copy that the instance makes
    /// of itself.
    fn clone(&self) -> (r: Symbol)
        ensures
            r@ == self@,
            self.eq_spec(&r),
            self is Static ==> r == *self,
    {
        match self {
            Symbol::Static(ns, id) => Symbol::Static(*ns, *id),
            Symbol::Dynamic(instance) => Symbol::Dynamic(instance.duplicate()),
        }
    }
}

impl Hash for Symbol {
    /// Feeds the symbol to a hasher: first the type identity of its namespace or of
    /// its instance, then its number or its instance.
    fn hash<H: Hasher>(&self, state: &mut H) {
        let mut sink = Sink::new(state);
        self.hash_into(&mut sink)
    }
}

} // verus!
