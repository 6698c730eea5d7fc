//! Verified core of a non-collecting ("Zero") garbage collector for CoreCLR:
//! allocation flags, object layout and allocation accounting, frozen-segment
//! registration, the write-barrier setup and the runtime callback table.
//!
//! The native edge (C ABI exports, raw memory, atomics on handle slots, the
//! process environment, printing) lives outside this crate and hands plain
//! values to the functions here.
pub mod alloc_flags;
pub mod config;
pub mod gc_heap;
pub mod object;
pub mod runtime;
pub mod segment;

pub use alloc_flags::GcAllocFlags;
pub use object::Object;
pub use runtime::{WriteBarrierOp, WriteBarrierParameters};
