//! Finer-grained result and error types, reserved for a future split of
//! [`crate::RuntimeError`] by component.

use vstd::prelude::*;

verus! {

/// A compilation error.
pub enum CompilationError {
    /// Some opcodes are not supported; the module (or the engine build) may
    /// need different compilation options.
    Unsupported(String),
}

/// A wasm function execution error.
pub enum ExecutionError {
    /// The call trapped or raised an engine-level exception; carries the
    /// engine's exception message.
    Trapped(String),
}

/// A runtime error.
pub enum RuntimeError {
    /// The engine failed to initialize on the first acquire.
    InitializationFailure,
}

} // verus!
