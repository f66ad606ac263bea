//! A verified boundary between a host and one instantiated WebAssembly module:
//! bounds-checked access to its linear memory, growth of that memory, and
//! lookup and invocation of its entrypoints, the reading of its heap base; and
//! the schedule on which a
//! transaction pool revalidates what it holds.
pub mod bounds;
pub mod engine;
pub mod error;
pub mod instance;
pub mod revalidation;

pub use crate::error::Error;
pub use crate::instance::InstanceWrapper;
pub use crate::revalidation::TxPoolRevalidationStatus;
