use vstd::prelude::*;

verus! {

/// Why the compute sequence stopped. Every one of them ends the sequence.
#[derive(Clone, Debug, PartialEq, Eq)]
pub enum ComputeError {
    /// No accelerator could be opened at session creation.
    AcceleratorUnavailable,
    /// The device could not allocate a buffer.
    AllocationFailed,
    /// A host/device transfer was refused or its sizes did not agree.
    TransferFailed,
    /// The kernel source did not compile; holds the compiler's diagnostic.
    CompileError(String),
    /// The compiled program has no entry point of the requested name.
    EntryPointNotFound,
    /// A launch was attempted with an argument slot left unbound.
    UnboundArgument,
    /// A value was bound to a slot that does not exist or has another type.
    ArgumentMismatch,
}

/// Why the presentation path stopped.
#[derive(Clone, Copy, Debug, PartialEq, Eq, Structural)]
pub enum PresentError {
    /// The display subsystem, the window or its renderer could not be made.
    DisplayInitFailed,
    /// The streaming texture could not be created or locked.
    TextureLockFailed,
}

} // verus!
