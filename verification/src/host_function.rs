//! Host-defined functions registered with the runtime before the engine's
//! global initialization.
//!
//! The engine consumes a `(module name, symbol array, count)` triple and
//! stores only the pointers it is handed, so the registry owns every name
//! string, and it must stay alive for the runtime's whole lifetime.

use crate::helper::no_nul_chars;
use crate::helper::CStrBuf;
use vstd::prelude::*;
use vstd::utf8::encode_utf8;

verus! {

/// One registered host function: its name, kept alive as a null-terminated
/// buffer, and the address of the native callable.
pub struct HostFunction {
    pub function_name: CStrBuf,
    pub function_ptr: usize,
}

/// A native-symbol descriptor in the shape the engine consumes: the symbol
/// name, the callable address; its signature and attachment slots are left
/// null by the embedder.
pub struct NativeSymbol {
    pub symbol: CStrBuf,
    pub func_ptr: usize,
}

/// Pack one host function into a native-symbol descriptor.
pub fn pack_host_function(function_name: CStrBuf, function_ptr: usize) -> (r: NativeSymbol)
    ensures
        r.symbol == function_name,
        r.func_ptr == function_ptr,
{
    NativeSymbol { symbol: function_name, func_ptr: function_ptr }
}

/// The registry of host functions for one module namespace.  It keeps the
/// name strings alive for as long as the engine may reference them.
pub struct HostFunctionList {
    pub module_name: CStrBuf,
    pub host_functions: Vec<HostFunction>,
    pub native_symbols: Vec<NativeSymbol>,
}

impl HostFunctionList {
    /// The registered entries, as (name bytes, callable address) pairs, in
    /// registration order.
    pub open spec fn entries(&self) -> Seq<(Seq<u8>, usize)> {
        self.host_functions@.map_values(|h: HostFunction| (h.function_name@, h.function_ptr))
    }

    /// Well-formed: every kept string is a valid C string, and the packed
    /// symbol table mirrors the kept entries pairwise.
    pub open spec fn wf(&self) -> bool {
        &&& self.module_name.wf()
        &&& forall|i: int|
            0 <= i < self.host_functions@.len() ==> (
            #[trigger] self.host_functions@[i]).function_name.wf()
        &&& self.native_symbols@.len() == self.host_functions@.len()
        &&& forall|i: int|
            0 <= i < self.native_symbols@.len() ==> {
                &&& (#[trigger] self.native_symbols@[i]).symbol.wf()
                &&& self.native_symbols@[i].symbol@ == self.host_functions@[i].function_name@
                &&& self.native_symbols@[i].func_ptr == self.host_functions@[i].function_ptr
            }
    }

    /// Create an empty registry for the given module namespace.
    pub fn new(module_name: &str) -> (r: HostFunctionList)
        requires
            no_nul_chars(module_name@),
        ensures
            r.wf(),
            r.module_name@ == encode_utf8(module_name@),
            r.entries() == Seq::<(Seq<u8>, usize)>::empty(),
            r.native_symbols@.len() == 0,
    {
        let r = HostFunctionList {
            module_name: CStrBuf::new(module_name),
            host_functions: Vec::new(),
            native_symbols: Vec::new(),
        };
        proof {
            assert(r.entries() =~= Seq::<(Seq<u8>, usize)>::empty());
        }
        r
    }

    /// Register one host function: keep its name alive and append its packed
    /// descriptor to the symbol table.
    pub fn add_host_function(&mut self, function_name: &str, function_ptr: usize)
        requires
            old(self).wf(),
            no_nul_chars(function_name@),
        ensures
            final(self).wf(),
            final(self).module_name == old(self).module_name,
            final(self).entries() == old(self).entries().push(
                (encode_utf8(function_name@), function_ptr),
            ),
            final(self).native_symbols@.len() == old(self).native_symbols@.len() + 1,
    {
        let kept_name = CStrBuf::new(function_name);
        let symbol_name = CStrBuf::new(function_name);
        self.host_functions.push(HostFunction { function_name: kept_name, function_ptr });
        self.native_symbols.push(pack_host_function(symbol_name, function_ptr));
        proof {
            assert(self.entries() =~= old(self).entries().push(
                (encode_utf8(function_name@), function_ptr),
            ));
        }
    }

    /// The packed symbol table to hand to the engine.
    pub fn get_native_symbols(&self) -> (r: &Vec<NativeSymbol>)
        ensures
            r@ == self.native_symbols@,
    {
        &self.native_symbols
    }

    /// The namespace name to hand to the engine.
    pub fn get_module_name(&self) -> (r: &CStrBuf)
        ensures
            *r == self.module_name,
    {
        &self.module_name
    }
}

} // verus!
