//! The logic of a thin wrapper around the Windows fiber API.
//!
//! Windows threads can run fibers: stacks that are switched by hand. This library decides which
//! calls of the fiber API an operation makes, in which order, with which arguments, and what
//! comes of the replies. It makes none of the calls itself: an operation names its next [`Call`],
//! the caller performs it and hands back the [`Reply`].
//!
//! [`Fiber`] is the owner of one fiber of the operating system, together with custom state.
#![allow(unused_imports)]

pub mod call;
pub mod error;
pub mod fiber;
pub mod laws;
pub mod ledger;
pub mod lookup;
pub mod open;
pub mod operation;
pub mod target;

pub use call::{Call, Reply, FIBER_FLAG_FLOAT_SWITCH};
pub use error::FiberError;
pub use fiber::{Fiber, FiberEntryPoint};
pub use lookup::{FreeFiber, Lookup, ThreadQuery};
pub use open::{Conversion, Creation};
pub use operation::{Operation, Step};
pub use target::asm_file;
