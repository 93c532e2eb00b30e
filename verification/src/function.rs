//! An exported wasm function.
//!
//! The embedder looks an export up by name and queries its result shape; the
//! opaque function handle stays with the embedder, while the shape drives the
//! verified marshaling here.  A call crosses the boundary as a flat buffer of
//! 32-bit words holding the encoded parameters in call order; on success the
//! engine writes the result into the same buffer starting at word 0, and on
//! failure its last exception explains the trap.

use crate::helper::exception_to_string;
use crate::value::decoded_f32;
use crate::value::decoded_f64;
use crate::value::decoded_i32;
use crate::value::decoded_i64;
use crate::value::wire_words;
use crate::value::WasmValue;
use crate::RuntimeError;
use vstd::prelude::*;
use vstd::utf8::decode_utf8;
use vstd::utf8::valid_utf8;

verus! {

/// The engine's value-kind tag for a 32-bit integer.
pub const WASM_VALKIND_I32: u32 = 0;

/// The engine's value-kind tag for a 64-bit integer.
pub const WASM_VALKIND_I64: u32 = 1;

/// The engine's value-kind tag for a 32-bit float.
pub const WASM_VALKIND_F32: u32 = 2;

/// The engine's value-kind tag for a 64-bit float.
pub const WASM_VALKIND_F64: u32 = 3;

/// An exported function, described by its resolved result shape: the declared
/// result arity and the engine's value-kind tag of the first result.
pub struct Function {
    pub result_count: u32,
    pub result_type: u32,
}

/// The flat wire buffer for a parameter list: each value's words, in call
/// order.
pub open spec fn wire_params(params: Seq<WasmValue>) -> Seq<u32>
    decreases params.len(),
{
    if params.len() == 0 {
        seq![]
    } else {
        wire_params(params.drop_last()) + wire_words(params.last())
    }
}

/// Encode a parameter list into the flat word buffer handed to the engine.
pub fn encode_params(params: &Vec<WasmValue>) -> (argv: Vec<u32>)
    ensures
        argv@ == wire_params(params@),
{
    let mut argv: Vec<u32> = Vec::new();
    let mut i: usize = 0;
    while i < params.len()
        invariant
            i <= params@.len(),
            argv@ == wire_params(params@.subrange(0, i as int)),
        decreases params@.len() - i,
    {
        let mut words = params[i].encode();
        argv.append(&mut words);
        proof {
            assert(params@.subrange(0, i + 1).drop_last() =~= params@.subrange(0, i as int));
            assert(params@.subrange(0, i + 1).last() == params@[i as int]);
            assert(argv@ =~= wire_params(params@.subrange(0, i + 1)));
        }
        i = i + 1;
    }
    proof {
        assert(params@.subrange(0, params@.len() as int) =~= params@);
    }
    argv
}

impl Function {
    /// True when this layer knows how to decode the declared result type.
    pub open spec fn decodable(&self) -> bool {
        self.result_type == WASM_VALKIND_I32 || self.result_type == WASM_VALKIND_I64
            || self.result_type == WASM_VALKIND_F32 || self.result_type == WASM_VALKIND_F64
    }

    /// How many words the declared result occupies on the wire.
    pub open spec fn result_words(&self) -> int {
        if self.result_type == WASM_VALKIND_I32 || self.result_type == WASM_VALKIND_F32 {
            1
        } else if self.result_type == WASM_VALKIND_I64 || self.result_type == WASM_VALKIND_F64 {
            2
        } else {
            0
        }
    }

    /// Outcome of looking an export up by exact name: its resolved result
    /// shape when the engine found it, else `FunctionNotFound`.
    pub fn find_export_func(found: bool, result_count: u32, result_type: u32) -> (r: Result<
        Function,
        RuntimeError,
    >)
        ensures
            found ==> {
                &&& r matches Ok(f)
                &&& f.result_count == result_count
                &&& f.result_type == result_type
            },
            !found ==> r == Err::<Function, RuntimeError>(RuntimeError::FunctionNotFound),
    {
        if found {
            Ok(Function { result_count, result_type })
        } else {
            Err(RuntimeError::FunctionNotFound)
        }
    }

    /// Decode the engine's in-place result buffer according to the resolved
    /// result shape: `Void` for arity zero, the value read from the leading
    /// words for the four scalar kinds, and `NotImplemented` for any other
    /// declared result type.
    pub fn parse_result(&self, result: Vec<u32>) -> (r: Result<WasmValue, RuntimeError>)
        requires
            self.result_count > 0 ==> result@.len() >= self.result_words(),
        ensures
            self.result_count == 0 ==> r == Ok::<WasmValue, RuntimeError>(WasmValue::Void),
            self.result_count > 0 && self.result_type == WASM_VALKIND_I32 ==> r == Ok::<
                WasmValue,
                RuntimeError,
            >(decoded_i32(result@)),
            self.result_count > 0 && self.result_type == WASM_VALKIND_I64 ==> r == Ok::<
                WasmValue,
                RuntimeError,
            >(decoded_i64(result@)),
            self.result_count > 0 && self.result_type == WASM_VALKIND_F32 ==> r == Ok::<
                WasmValue,
                RuntimeError,
            >(decoded_f32(result@)),
            self.result_count > 0 && self.result_type == WASM_VALKIND_F64 ==> r == Ok::<
                WasmValue,
                RuntimeError,
            >(decoded_f64(result@)),
            self.result_count > 0 && !self.decodable() ==> r == Err::<WasmValue, RuntimeError>(
                RuntimeError::NotImplemented,
            ),
    {
        if self.result_count == 0 {
            return Ok(WasmValue::Void);
        }
        if self.result_type == WASM_VALKIND_I32 {
            Ok(WasmValue::decode_to_i32(result))
        } else if self.result_type == WASM_VALKIND_I64 {
            Ok(WasmValue::decode_to_i64(result))
        } else if self.result_type == WASM_VALKIND_F32 {
            Ok(WasmValue::decode_to_f32(result))
        } else if self.result_type == WASM_VALKIND_F64 {
            Ok(WasmValue::decode_to_f64(result))
        } else {
            Err(RuntimeError::NotImplemented)
        }
    }

    /// Interpret one engine call made with this function's encoded
    /// parameters: on success decode the buffer the engine wrote its result
    /// into in place, as [`Function::parse_result`] does; on failure map the
    /// engine's last exception (the bytes of its C string) to
    /// `ExecutionError`, whose message is empty only when the engine reported
    /// no text.
    pub fn call_outcome(&self, call_succeeded: bool, argv: Vec<u32>, raw_exception: &[u8]) -> (r:
        Result<WasmValue, RuntimeError>)
        requires
            call_succeeded && self.result_count > 0 ==> argv@.len() >= self.result_words(),
        ensures
            !call_succeeded ==> {
                &&& r matches Err(e)
                &&& e matches RuntimeError::ExecutionError(text)
                &&& valid_utf8(raw_exception@) ==> text@ == decode_utf8(raw_exception@)
                &&& (text@.len() == 0) <==> (raw_exception@.len() == 0)
            },
            call_succeeded && self.result_count == 0 ==> r == Ok::<WasmValue, RuntimeError>(
                WasmValue::Void,
            ),
            call_succeeded && self.result_count > 0 && self.result_type == WASM_VALKIND_I32 ==> r
                == Ok::<WasmValue, RuntimeError>(decoded_i32(argv@)),
            call_succeeded && self.result_count > 0 && self.result_type == WASM_VALKIND_I64 ==> r
                == Ok::<WasmValue, RuntimeError>(decoded_i64(argv@)),
            call_succeeded && self.result_count > 0 && self.result_type == WASM_VALKIND_F32 ==> r
                == Ok::<WasmValue, RuntimeError>(decoded_f32(argv@)),
            call_succeeded && self.result_count > 0 && self.result_type == WASM_VALKIND_F64 ==> r
                == Ok::<WasmValue, RuntimeError>(decoded_f64(argv@)),
            call_succeeded && self.result_count > 0 && !self.decodable() ==> r == Err::<
                WasmValue,
                RuntimeError,
            >(RuntimeError::NotImplemented),
    {
        if !call_succeeded {
            return Err(RuntimeError::ExecutionError(exception_to_string(raw_exception)));
        }
        self.parse_result(argv)
    }
}

} // verus!
