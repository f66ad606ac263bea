//! What can go wrong at the boundary. Every fallible operation returns one of
//! these to its caller; none of them aborts the host.
use vstd::prelude::*;

verus! {

#[derive(Clone, Copy, Debug, PartialEq, Eq, Structural)]
pub enum Error {
    /// The engine refused to instantiate the module.
    InstantiationFailed,
    /// The module exports nothing under the name `memory`.
    MemoryNotExported,
    /// The export `memory` is not a linear memory.
    MemoryWrongKind,
    /// A read or write would pass the end of linear memory.
    OutOfBounds,
    /// The allocator ran out of space or was handed an invalid pointer.
    Allocation,
    /// The module exports nothing under the entrypoint's name.
    EntrypointNotFound,
    /// The entrypoint's export is not a function.
    EntrypointNotAFunction,
    /// The entrypoint's signature is not `(i32, i32) -> i64`.
    EntrypointWrongSignature,
    /// The entrypoint trapped or the engine refused to run it.
    CallFailed,
    /// The engine refused to grow linear memory.
    GrowthFailed,
    /// The module exports no `__heap_base`.
    HeapBaseNotFound,
    /// The export `__heap_base` is not a global.
    HeapBaseNotAGlobal,
    /// The global `__heap_base` does not hold an `i32`.
    HeapBaseNotI32,
}

} // verus!
