//! A verified tour of Rust's core value semantics.
//!
//! Each module takes one theme - variables, ownership transfer, borrowing,
//! slices, structs, enums, methods, traits, generics, lifetimes, closures,
//! iteration - and states, as Verus contracts, exactly what the example
//! computations of that theme produce.

pub mod basics;
pub mod ownership;
pub mod references;
pub mod slices;
pub mod structs;
pub mod enums;
pub mod methods;
pub mod traits;
pub mod lifetimes;
pub mod iterators;
pub mod closures;
pub mod generics;
