use vstd::prelude::*;

verus! {

/// Failures that the bridge reports instead of aborting.
#[derive(Debug, Clone, Copy, PartialEq, Eq, Structural)]
pub enum BridgeError {
    /// The request's UTF-8 encoding is longer than a signed 32-bit length can express.
    RequestTooLong,
    /// A payload path holds a NUL byte and cannot be handed to the hosting layer.
    InvalidPath,
    /// The hosting layer rejected the runtime configuration file.
    InvalidConfiguration,
    /// The hosting layer could not provide a loader for the managed assembly.
    AssemblyLoadFailure,
}

} // verus!
