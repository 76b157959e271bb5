//! A growable, array-backed multiset container ("bag").
//!
//! A [`Bag`] holds duplicate values in insertion order, tracks a logical
//! capacity distinct from its element count, and grows by doubling when an
//! insertion finds it full. Every operation carries a contract relating the
//! element sequence and the capacity counter before and after the call.

pub mod bag;
pub mod laws;
pub mod text;

pub use bag::Bag;
