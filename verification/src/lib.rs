//! Verified models of classic language-safety guarantees: bounds-checked
//! buffer access, single-owner handles, optional-value lookup, and the state
//! machines behind the usual concurrency primitives (an exact counter, an
//! exclusively guarded aggregate, a read-write guard, and an ordered message
//! channel).
//!
//! Every data structure carries a mathematical view, every public function a
//! contract, and the general guarantees are stated as proof functions.

pub mod aggregate;
pub mod bounds;
pub mod channel;
pub mod counter;
pub mod lookup;
pub mod ownership;
pub mod rw_guard;
