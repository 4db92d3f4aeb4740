//! Runtime multi-interface downcasting for polymorphic values.
//!
//! A concrete type that participates in cross-interface casting carries a
//! fixed table of castable target interfaces ([`target::TraitcastTarget`]).
//! The dispatch operations ([`cast::TraitcastTo`]) consult that table to
//! decide whether a handle known only through the generic
//! [`cast::Traitcastable`] protocol can be re-viewed under another interface,
//! and hand back the corresponding view by shared reference, by exclusive
//! reference, or by transferring ownership.

pub mod cast;
pub mod diagnostic;
pub mod sample;
pub mod target;
