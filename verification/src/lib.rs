//! Mirroring of parsed GraphQL executable documents into an independent AST
//! that follows the node taxonomy of the reference GraphQL language grammar.
//!
//! The crate has two parts, consumed in this order:
//!
//! * [`nodes`] — the target node schema: the closed set of mirrored node
//!   kinds, their fields, and the `kind` discriminant each reports;
//! * [`convert`] — the mirror converter: a pure, total, structure-preserving
//!   transduction from a source document ([`source`]) to a mirrored
//!   [`nodes::DocumentNode`], with its contracts stated over mathematical
//!   views of both trees.
//!
//! Order is preserved in every collection, optional children are never
//! conflated with empty ones, and a document using fragments is refused
//! loudly rather than silently thinned.

pub mod compare;
pub mod convert;
pub mod laws;
pub mod nodes;
pub mod source;
