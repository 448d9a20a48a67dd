//! Measurement of the heap memory transitively owned by a value.
//!
//! A value's *children size* is the number of bytes of every heap block it
//! owns, directly or through the values it contains, excluding the space of
//! the value itself.  The measurement protocol is the [`HeapSizeOf`] trait
//! (one accounting policy per ownership category), the allocator is reached
//! through the [`UsableSize`] trait, and the [`generate`] module produces
//! implementations of the protocol for arbitrary records and tagged unions.

pub mod allocator;
pub mod containers;
pub mod emit;
pub mod generate;
pub mod laws;
pub mod measure;
pub mod owned;
pub mod register;
pub mod shape;

pub use allocator::{AllocTable, BlockPtr, UsableSize, EMPTY, do_heap_size_of};
pub use measure::HeapSizeOf;
pub use register::{known_heap_size, known_heap_size_generic};
