//! A running instantiation of a module.
//!
//! An instance is created from a module plus its stack sizing and an optional
//! host-managed heap budget (used by modules built without a standard
//! library; zero defers to the module's own memory declarations).  The
//! engine's instantiate call is made by the embedder — on a thread other than
//! the main one it must first initialize the per-thread execution environment
//! — which hands both outcomes here.  An instance must be dropped before its
//! originating module.

use crate::helper::DEFAULT_ERROR_BUF_SIZE;
use crate::module::reported_text;
use crate::module::Module;
use crate::RuntimeError;
use vstd::prelude::*;
use vstd::string::StringExecFns;

verus! {

/// A running instantiation of a module, carrying its configured stack size
/// and host-managed heap size.  The opaque instance handle stays with the
/// embedder.
pub struct Instance {
    pub stack_size: u32,
    pub heap_size: u32,
}

impl Instance {
    /// Instantiate with a stack size and no host-managed heap; see
    /// [`Instance::new_with_args`] for the engine outcomes.
    #[allow(unused_variables)]
    pub fn new(
        module: &Module,
        stack_size: u32,
        thread_env_ok: bool,
        created: bool,
        error_buf: &[i8; DEFAULT_ERROR_BUF_SIZE],
    ) -> (r: Result<Instance, RuntimeError>)
        ensures
            !thread_env_ok ==> {
                &&& r matches Err(e)
                &&& e matches RuntimeError::InstantiationFailure(text)
                &&& text@ == "thread signal env initialized failed"@
            },
            thread_env_ok && !created ==> {
                &&& r matches Err(e)
                &&& e matches RuntimeError::InstantiationFailure(text)
                &&& text@.len() > 0
                &&& reported_text(error_buf@, "instantiation failed"@, text@)
            },
            thread_env_ok && created ==> r == Ok::<Instance, RuntimeError>(
                Instance { stack_size, heap_size: 0u32 },
            ),
    {
        Self::new_with_args(module, stack_size, 0, thread_env_ok, created, error_buf)
    }

    /// Outcome of instantiating a module with the given stack size and
    /// host-managed heap size.  A per-thread environment setup failure and an
    /// engine refusal both map to `InstantiationFailure`: the former with a
    /// fixed message, the latter with the decoded error-buffer text (never
    /// empty — a fixed message stands in when the buffer holds none).  On
    /// success the instance carries its configured sizing.
    #[allow(unused_variables)]
    pub fn new_with_args(
        module: &Module,
        stack_size: u32,
        heap_size: u32,
        thread_env_ok: bool,
        created: bool,
        error_buf: &[i8; DEFAULT_ERROR_BUF_SIZE],
    ) -> (r: Result<Instance, RuntimeError>)
        ensures
            !thread_env_ok ==> {
                &&& r matches Err(e)
                &&& e matches RuntimeError::InstantiationFailure(text)
                &&& text@ == "thread signal env initialized failed"@
            },
            thread_env_ok && !created ==> {
                &&& r matches Err(e)
                &&& e matches RuntimeError::InstantiationFailure(text)
                &&& text@.len() > 0
                &&& reported_text(error_buf@, "instantiation failed"@, text@)
            },
            thread_env_ok && created ==> r == Ok::<Instance, RuntimeError>(
                Instance { stack_size, heap_size },
            ),
    {
        if !thread_env_ok {
            return Err(
                RuntimeError::InstantiationFailure(
                    String::from_str("thread signal env initialized failed"),
                ),
            );
        }
        if !created {
            proof {
                reveal_strlit("instantiation failed");
            }
            return Err(
                RuntimeError::InstantiationFailure(
                    crate::module::error_text_or(error_buf, "instantiation failed"),
                ),
            );
        }
        Ok(Instance { stack_size, heap_size })
    }
}

} // verus!
