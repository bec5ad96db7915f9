//! A symbol is an identifier that can stand where a string would, most of all as
//! the key of a map. It comes either from a static namespace, whose symbols are
//! all known when the program is built and cost no allocation, or from a dynamic
//! namespace, whose symbols are made while the program runs.
//!
//! Two namespaces are the same namespace exactly when they have the same concrete
//! type. Equality, order and hashing of symbols all start from that type identity:
//! symbols of different namespaces are never equal, whatever they hold.
//!
//! The crate provides no namespace. A provider implements `namespace::Static` or
//! `namespace::Dynamic` and hands out `Symbol` values. What the symbols then do
//! with the namespaces is verified, on the footing that is written down as the
//! contract of `namespace::Static` and where each call into a dynamic namespace is
//! made; `laws` states what follows for all symbols.
pub mod laws;
pub mod namespace;
pub mod reflect;
pub mod sink;
pub mod symbol;

pub use symbol::Symbol;
pub use symbol::SymbolView;
