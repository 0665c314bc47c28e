//! Composite objects that expose several independent interface tables.
//!
//! A value is wrapped together with one table reference per interface it
//! implements; each table reference can be handed out on its own, and the
//! owning composite is recovered from it by a fixed, compile-time-known
//! displacement.  The modules below cover the displacement protocol, the
//! data model of interface declarations, the generator that turns a
//! declaration into table and trampoline descriptions, the composite
//! wrapper itself, and a worked pair of interfaces with their generated
//! tables and dispatch glue.

pub mod decl;
pub mod dispatch;
pub mod gen;
pub mod layout;
pub mod ops;
pub mod vtables;
