//! A safety-oriented binding core for a native WebAssembly engine that is
//! reachable only through a C ABI.
//!
//! The engine itself (parsing, validation, execution, memory sandboxing) is an
//! external collaborator.  This crate holds the layer that makes the engine's
//! raw handles, error buffers and calling convention safe to use:
//!
//! - *Runtime*: process-wide engine lifecycle, reference-counted so that the
//!   engine is initialized exactly once and torn down exactly once
//!   ([`runtime::RuntimeSingleton`]).
//! - *Module*: a compiled binary together with the owned buffers the engine
//!   keeps pointers into ([`module::Module`]).
//! - *Instance*: a running instantiation of a module with its own stack and
//!   heap sizing ([`instance::Instance`]).
//! - *Function*: an exported callable, invoked through a flat buffer of 32-bit
//!   words ([`function::Function`]).
//! - *Value codec*: bit-exact conversion between typed values and the engine's
//!   word-buffer calling convention ([`value::WasmValue`]).
//!
//! Everything the engine reports back (success flags, fixed-size error
//! buffers, exception strings) enters this crate as plain values, and every
//! decision taken on those values is verified.  The embedder performs the
//! actual foreign calls and feeds their outcomes to the constructors and
//! methods here.

use vstd::prelude::*;

pub mod function;
pub mod helper;
pub mod host_function;
pub mod instance;
pub mod local_error;
pub mod module;
pub mod runtime;
pub mod value;

verus! {

/// All kinds of failures surfaced by the binding layer.
#[derive(Debug, PartialEq)]
pub enum RuntimeError {
    /// The engine declared a result type this layer does not know how to decode.
    NotImplemented,
    /// Engine initialization failed on the first acquire.
    InitializationFailure,
    /// A file operation failed, usually while reading a binary to compile;
    /// carries the rendered filesystem error.
    WasmFileFSError(String),
    /// The binary failed to load or validate; carries the text decoded from
    /// the engine's error buffer.
    CompilationError(String),
    /// Instantiation failed, including per-thread environment setup failure.
    InstantiationFailure(String),
    /// A call trapped or raised an engine-level exception; carries the
    /// engine's exception message.
    ExecutionError(String),
    /// An export lookup failed.
    FunctionNotFound,
}

} // verus!
