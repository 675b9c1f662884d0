//! A verified interpreter for a minimal eight-instruction, tape-based
//! language.  A program runs against an optional input byte sequence,
//! produces an output byte sequence, and records an ordered trace of
//! immutable state snapshots, one per executed instruction.
//!
//! The observable behaviour of a run is pinned down by the small-step
//! specification in [`model`]: `Runtime::run` is proved to return exactly
//! the product that iterating [`model::step`] from the initial machine
//! state yields.

mod clock;
pub mod model;
pub mod seek;
pub mod status;

mod runtime;

pub use runtime::Runtime;
pub use runtime::RuntimeProduct;
pub use runtime::RuntimeSnapshot;
pub use status::Status;
