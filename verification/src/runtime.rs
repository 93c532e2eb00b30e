//! Process-wide runtime lifecycle.
//!
//! The engine is one global resource per process.  Access to it is
//! reference-counted: only the acquire that takes the count from 0 to 1 runs
//! the engine's global initialization, and only the release that takes it
//! from 1 back to 0 runs the teardown.  The embedder keeps one
//! [`RuntimeSingleton`] behind a lock, so that count changes and the
//! initialization or teardown they call for form one atomic step, and obtains
//! [`Runtime`] handles through [`Runtime::new`] or a configured
//! [`RuntimeBuilder`].

use crate::helper::no_nul_chars;
use crate::host_function::HostFunctionList;
use crate::RuntimeError;
use vstd::prelude::*;
use vstd::utf8::encode_utf8;

verus! {

/// One reference-count operation on the process-wide runtime.
#[derive(Clone, Copy, Debug, PartialEq, Eq, Structural)]
pub enum RefOp {
    Acquire,
    Release,
}

/// Holder count after a sequence of operations, starting from none.
pub open spec fn count_after(ops: Seq<RefOp>) -> int
    decreases ops.len(),
{
    if ops.len() == 0 {
        0
    } else {
        count_after(ops.drop_last()) + if ops.last() is Acquire {
            1int
        } else {
            -1int
        }
    }
}

/// How often the engine has been initialized: the acquires taken while no
/// holder was live.
pub open spec fn init_count(ops: Seq<RefOp>) -> int
    decreases ops.len(),
{
    if ops.len() == 0 {
        0
    } else {
        init_count(ops.drop_last()) + if ops.last() is Acquire && count_after(ops.drop_last())
            == 0 {
            1int
        } else {
            0int
        }
    }
}

/// How often the engine has been torn down: the releases taken by the last
/// live holder.
pub open spec fn teardown_count(ops: Seq<RefOp>) -> int
    decreases ops.len(),
{
    if ops.len() == 0 {
        0
    } else {
        teardown_count(ops.drop_last()) + if ops.last() is Release && count_after(ops.drop_last())
            == 1 {
            1int
        } else {
            0int
        }
    }
}

/// A history is well formed when no release outruns the acquires before it.
pub open spec fn wf_history(ops: Seq<RefOp>) -> bool {
    forall|i: int| 0 <= i <= ops.len() ==> count_after(#[trigger] ops.take(i)) >= 0
}

/// Along any well-formed history, initializations and teardowns pair up
/// exactly: while holders are live the engine has been initialized exactly
/// once more than it has been torn down, and with no holder live, exactly as
/// often.  In particular the engine is never initialized or torn down twice
/// in a row.
pub proof fn lemma_lifecycle_balance(ops: Seq<RefOp>)
    requires
        wf_history(ops),
    ensures
        init_count(ops) == teardown_count(ops) + if count_after(ops) > 0 {
            1int
        } else {
            0int
        },
    decreases ops.len(),
{
    if ops.len() > 0 {
        let prefix = ops.drop_last();
        assert forall|i: int| 0 <= i <= prefix.len() implies count_after(#[trigger] prefix.take(i))
            >= 0 by {
            assert(prefix.take(i) =~= ops.take(i));
        }
        lemma_lifecycle_balance(prefix);
        assert(ops.take(ops.len() as int) =~= ops);
        assert(ops.take(ops.len() - 1) =~= prefix);
    }
}

/// The history of n acquires followed by k releases.
pub open spec fn acquire_release_trace(n: nat, k: nat) -> Seq<RefOp> {
    Seq::new(
        n + k,
        |i: int|
            if i < n {
                RefOp::Acquire
            } else {
                RefOp::Release
            },
    )
}

proof fn lemma_acquire_trace(n: nat)
    ensures
        count_after(acquire_release_trace(n, 0)) == n,
        init_count(acquire_release_trace(n, 0)) == if n > 0 {
            1int
        } else {
            0int
        },
        teardown_count(acquire_release_trace(n, 0)) == 0,
    decreases n,
{
    if n > 0 {
        lemma_acquire_trace((n - 1) as nat);
        assert(acquire_release_trace(n, 0).drop_last() =~= acquire_release_trace(
            (n - 1) as nat,
            0,
        ));
    }
}

/// Acquiring n times and then releasing k of those references initializes the
/// engine exactly once and tears it down only on the very last release:
/// while any reference is still held (k < n) no teardown has happened, and
/// after the final release (k == n) exactly one has.
pub proof fn lemma_reentrant_lifecycle(n: nat, k: nat)
    requires
        1 <= n,
        k <= n,
    ensures
        count_after(acquire_release_trace(n, k)) == n - k,
        init_count(acquire_release_trace(n, k)) == 1,
        teardown_count(acquire_release_trace(n, k)) == if k == n {
            1int
        } else {
            0int
        },
    decreases k,
{
    if k == 0 {
        lemma_acquire_trace(n);
    } else {
        lemma_reentrant_lifecycle(n, (k - 1) as nat);
        assert(acquire_release_trace(n, k).drop_last() =~= acquire_release_trace(
            n,
            (k - 1) as nat,
        ));
        assert(acquire_release_trace(n, k).last() is Release);
    }
}

/// The process-wide reference count guarding engine initialization and
/// teardown.  The embedder keeps exactly one of these behind a lock and obeys
/// its two signals: run the engine's global initialization when an acquire
/// returns true, run the teardown when a release returns true.
pub struct RuntimeSingleton {
    count: u64,
    history: Ghost<Seq<RefOp>>,
}

impl RuntimeSingleton {
    /// The operations applied so far.
    pub closed spec fn history(&self) -> Seq<RefOp> {
        self.history@
    }

    /// The live holder count.
    pub closed spec fn count(&self) -> int {
        self.count as int
    }

    /// The count matches the recorded history, and the history never released
    /// more than it acquired.
    pub open spec fn wf(&self) -> bool {
        &&& self.count() == count_after(self.history())
        &&& wf_history(self.history())
    }

    /// A fresh state: no holder live, engine neither initialized nor due.
    pub fn new() -> (r: RuntimeSingleton)
        ensures
            r.wf(),
            r.count() == 0,
            r.history() == Seq::<RefOp>::empty(),
    {
        let r = RuntimeSingleton { count: 0, history: Ghost(Seq::empty()) };
        proof {
            assert forall|i: int| 0 <= i <= r.history().len() implies count_after(
                #[trigger] r.history().take(i),
            ) >= 0 by {
                assert(r.history().take(i) =~= Seq::<RefOp>::empty());
            }
        }
        r
    }

    /// True when the next acquire is the 0-to-1 transition, i.e. when it must
    /// run the engine's global initialization.
    pub fn needs_init(&self) -> (r: bool)
        ensures
            r <==> self.count() == 0,
    {
        self.count == 0
    }

    /// Take one reference.  Returns true exactly when this acquire is the
    /// 0-to-1 transition, so the engine's global initialization is due now.
    pub fn acquire(&mut self) -> (start_engine: bool)
        requires
            old(self).wf(),
            old(self).count() < u64::MAX,
        ensures
            final(self).wf(),
            final(self).history() == old(self).history().push(RefOp::Acquire),
            final(self).count() == old(self).count() + 1,
            start_engine <==> old(self).count() == 0,
            init_count(final(self).history()) == init_count(old(self).history())
                + if start_engine {
                1int
            } else {
                0int
            },
            teardown_count(final(self).history()) == teardown_count(old(self).history()),
    {
        let start_engine = self.count == 0;
        self.count = self.count + 1;
        let ghost previous = self.history@;
        proof {
            self.history@ = previous.push(RefOp::Acquire);
            assert(self.history@.drop_last() =~= previous);
            assert forall|i: int| 0 <= i <= self.history@.len() implies count_after(
                #[trigger] self.history@.take(i),
            ) >= 0 by {
                if i <= previous.len() {
                    assert(self.history@.take(i) =~= previous.take(i));
                } else {
                    assert(self.history@.take(i) =~= self.history@);
                }
            }
        }
        start_engine
    }

    /// Undo an acquire whose engine initialization failed: the reference is
    /// given back and the failed attempt leaves no trace in the history (the
    /// engine was never initialized).
    pub fn cancel_acquire(&mut self)
        requires
            old(self).wf(),
            old(self).history().len() > 0,
            old(self).history().last() is Acquire,
        ensures
            final(self).wf(),
            final(self).history() == old(self).history().drop_last(),
            final(self).count() == old(self).count() - 1,
    {
        proof {
            assert(count_after(old(self).history()) == count_after(
                old(self).history().drop_last(),
            ) + 1);
        }
        self.count = self.count - 1;
        let ghost previous = self.history@;
        proof {
            self.history@ = previous.drop_last();
            assert forall|i: int| 0 <= i <= self.history@.len() implies count_after(
                #[trigger] self.history@.take(i),
            ) >= 0 by {
                assert(self.history@.take(i) =~= previous.take(i));
            }
        }
    }

    /// Drop one reference.  Returns true exactly when this release is the
    /// 1-to-0 transition, so the engine's global teardown is due now.
    pub fn release(&mut self) -> (stop_engine: bool)
        requires
            old(self).wf(),
            old(self).count() > 0,
        ensures
            final(self).wf(),
            final(self).history() == old(self).history().push(RefOp::Release),
            final(self).count() == old(self).count() - 1,
            stop_engine <==> old(self).count() == 1,
            teardown_count(final(self).history()) == teardown_count(old(self).history())
                + if stop_engine {
                1int
            } else {
                0int
            },
            init_count(final(self).history()) == init_count(old(self).history()),
    {
        let stop_engine = self.count == 1;
        self.count = self.count - 1;
        let ghost previous = self.history@;
        proof {
            self.history@ = previous.push(RefOp::Release);
            assert(self.history@.drop_last() =~= previous);
            assert forall|i: int| 0 <= i <= self.history@.len() implies count_after(
                #[trigger] self.history@.take(i),
            ) >= 0 by {
                if i <= previous.len() {
                    assert(self.history@.take(i) =~= previous.take(i));
                } else {
                    assert(self.history@.take(i) =~= self.history@);
                }
            }
        }
        stop_engine
    }
}

/// Allocation strategy handed to the engine at its global initialization.
#[derive(Clone, Copy, Debug, PartialEq, Eq, Structural)]
pub enum AllocationMode {
    /// Allocate engine memory from a caller-provided pre-allocated buffer.
    Pool,
    /// Allocate engine memory from the system allocator.
    SystemAllocator,
}

/// Execution strategy handed to the engine at its global initialization.
#[derive(Clone, Copy, Debug, PartialEq, Eq, Structural)]
pub enum RunningMode {
    /// Leave the choice to the engine build.
    EngineDefault,
    /// Interpret the bytecode.
    Interpreter,
    /// Compile with the optimizing JIT.
    LlvmJit,
}

/// Configuration accumulated before the engine's one global initialization.
/// Get one via [`Runtime::builder`]; an allocation mode should be chosen
/// before building.
pub struct RuntimeBuilder {
    pub alloc_mode: AllocationMode,
    pub pool_buf: Vec<u8>,
    pub pool_size: u32,
    pub running_mode: RunningMode,
    pub llvm_jit_opt_level: u32,
    pub llvm_jit_size_level: u32,
    pub host_functions: HostFunctionList,
}

/// The configuration a fresh builder starts from: pool allocation with no
/// buffer, the engine's own running mode, and an empty host-function registry
/// under the namespace "host".
pub open spec fn is_initial_config(b: RuntimeBuilder) -> bool {
    &&& b.alloc_mode is Pool
    &&& b.pool_buf@.len() == 0
    &&& b.pool_size == 0
    &&& b.running_mode is EngineDefault
    &&& b.llvm_jit_opt_level == 0
    &&& b.llvm_jit_size_level == 0
    &&& b.host_functions.wf()
    &&& b.host_functions.module_name@ == encode_utf8("host"@)
    &&& b.host_functions.entries() == Seq::<(Seq<u8>, usize)>::empty()
    &&& b.host_functions.native_symbols@.len() == 0
}

impl Default for RuntimeBuilder {
    /// A builder with the engine's default configuration.
    fn default() -> (r: RuntimeBuilder)
        ensures
            is_initial_config(r),
    {
        proof {
            reveal_strlit("host");
        }
        RuntimeBuilder {
            alloc_mode: AllocationMode::Pool,
            pool_buf: Vec::new(),
            pool_size: 0,
            running_mode: RunningMode::EngineDefault,
            llvm_jit_opt_level: 0,
            llvm_jit_size_level: 0,
            host_functions: HostFunctionList::new("host"),
        }
    }
}

impl RuntimeBuilder {
    /// Allocate engine memory from the system allocator.
    pub fn use_system_allocator(self) -> (r: RuntimeBuilder)
        ensures
            r == (RuntimeBuilder { alloc_mode: AllocationMode::SystemAllocator, ..self }),
    {
        RuntimeBuilder { alloc_mode: AllocationMode::SystemAllocator, ..self }
    }

    /// Allocate engine memory from the given pre-allocated buffer, of which
    /// the first `pool_size` bytes are handed to the engine.  The buffer is
    /// owned here so that it outlives the engine's use of it.
    pub fn use_memory_pool(self, pool: Vec<u8>, pool_size: u32) -> (r: RuntimeBuilder)
        ensures
            r == (RuntimeBuilder {
                alloc_mode: AllocationMode::Pool,
                pool_buf: pool,
                pool_size: pool_size,
                ..self
            }),
    {
        RuntimeBuilder {
            alloc_mode: AllocationMode::Pool,
            pool_buf: pool,
            pool_size: pool_size,
            ..self
        }
    }

    /// Run the engine as an interpreter.
    pub fn run_as_interpreter(self) -> (r: RuntimeBuilder)
        ensures
            r == (RuntimeBuilder { running_mode: RunningMode::Interpreter, ..self }),
    {
        RuntimeBuilder { running_mode: RunningMode::Interpreter, ..self }
    }

    /// Run the engine under the optimizing JIT with the given optimization
    /// and size levels.
    pub fn run_as_llvm_jit(self, opt_level: u32, size_level: u32) -> (r: RuntimeBuilder)
        ensures
            r == (RuntimeBuilder {
                running_mode: RunningMode::LlvmJit,
                llvm_jit_opt_level: opt_level,
                llvm_jit_size_level: size_level,
                ..self
            }),
    {
        RuntimeBuilder {
            running_mode: RunningMode::LlvmJit,
            llvm_jit_opt_level: opt_level,
            llvm_jit_size_level: size_level,
            ..self
        }
    }

    /// Register a host function under the builder's module namespace; its
    /// name is kept alive for the engine.
    pub fn add_host_function(self, function_name: &str, function_ptr: usize) -> (r: RuntimeBuilder)
        requires
            self.host_functions.wf(),
            no_nul_chars(function_name@),
        ensures
            r.alloc_mode == self.alloc_mode,
            r.pool_buf == self.pool_buf,
            r.pool_size == self.pool_size,
            r.running_mode == self.running_mode,
            r.llvm_jit_opt_level == self.llvm_jit_opt_level,
            r.llvm_jit_size_level == self.llvm_jit_size_level,
            r.host_functions.wf(),
            r.host_functions.module_name == self.host_functions.module_name,
            r.host_functions.entries() == self.host_functions.entries().push(
                (encode_utf8(function_name@), function_ptr),
            ),
    {
        let mut host_functions = self.host_functions;
        host_functions.add_host_function(function_name, function_ptr);
        RuntimeBuilder { host_functions, ..self }
    }

    /// Take one reference on the process-wide runtime under this
    /// configuration.  The embedder, holding the lock around `singleton`,
    /// runs the engine's global initialization with this configuration
    /// exactly when `singleton` counts no holder, and passes the engine's
    /// verdict as `engine_init_ok`; when the count is already positive the
    /// call succeeds at once and the earlier configuration stays in force.
    /// On an initialization failure the acquire is undone and
    /// `InitializationFailure` returned.  The returned runtime keeps the
    /// host-function registry alive for its lifetime.
    pub fn build(self, singleton: &mut RuntimeSingleton, engine_init_ok: bool) -> (r: Result<
        Runtime,
        RuntimeError,
    >)
        requires
            old(singleton).wf(),
            old(singleton).count() < u64::MAX,
        ensures
            final(singleton).wf(),
            (old(singleton).count() > 0 || engine_init_ok) ==> {
                &&& r matches Ok(rt) && rt.host_functions == self.host_functions
                &&& final(singleton).count() == old(singleton).count() + 1
                &&& final(singleton).history() == old(singleton).history().push(RefOp::Acquire)
                &&& init_count(final(singleton).history()) == init_count(old(singleton).history())
                    + if old(singleton).count() == 0 {
                    1int
                } else {
                    0int
                }
            },
            (old(singleton).count() == 0 && !engine_init_ok) ==> {
                &&& r matches Err(e) && e is InitializationFailure
                &&& final(singleton).count() == old(singleton).count()
                &&& final(singleton).history() == old(singleton).history()
            },
    {
        let start_engine = singleton.acquire();
        if start_engine && !engine_init_ok {
            singleton.cancel_acquire();
            proof {
                assert(old(singleton).history().push(RefOp::Acquire).drop_last() =~= old(
                    singleton,
                ).history());
            }
            Err(RuntimeError::InitializationFailure)
        } else {
            Ok(Runtime { host_functions: self.host_functions })
        }
    }
}

/// A live reference on the process-wide runtime.  It keeps its host-function
/// registrations alive, because the engine may invoke them at any point until
/// teardown; the embedder releases the reference on drop and tears the engine
/// down when the release says so.
pub struct Runtime {
    pub host_functions: HostFunctionList,
}

impl Runtime {
    /// A builder for a configured runtime.  An allocation mode and a running
    /// mode should be selected before building.
    pub fn builder() -> (r: RuntimeBuilder)
        ensures
            is_initial_config(r),
    {
        RuntimeBuilder::default()
    }

    /// Take one reference on the process-wide runtime with the default
    /// configuration.  The embedder, holding the lock around `singleton`,
    /// runs the engine's global initialization exactly when `singleton`
    /// counts no holder, and passes the engine's verdict as
    /// `engine_init_ok`; on a failure the acquire is undone and
    /// `InitializationFailure` returned.
    pub fn new(singleton: &mut RuntimeSingleton, engine_init_ok: bool) -> (r: Result<
        Runtime,
        RuntimeError,
    >)
        requires
            old(singleton).wf(),
            old(singleton).count() < u64::MAX,
        ensures
            final(singleton).wf(),
            (old(singleton).count() > 0 || engine_init_ok) ==> {
                &&& r matches Ok(rt) && rt.host_functions.wf()
                    && rt.host_functions.native_symbols@.len() == 0
                &&& final(singleton).count() == old(singleton).count() + 1
                &&& final(singleton).history() == old(singleton).history().push(RefOp::Acquire)
                &&& init_count(final(singleton).history()) == init_count(old(singleton).history())
                    + if old(singleton).count() == 0 {
                    1int
                } else {
                    0int
                }
            },
            (old(singleton).count() == 0 && !engine_init_ok) ==> {
                &&& r matches Err(e) && e is InitializationFailure
                &&& final(singleton).count() == old(singleton).count()
                &&& final(singleton).history() == old(singleton).history()
            },
    {
        let start_engine = singleton.acquire();
        if start_engine && !engine_init_ok {
            singleton.cancel_acquire();
            proof {
                assert(old(singleton).history().push(RefOp::Acquire).drop_last() =~= old(
                    singleton,
                ).history());
            }
            Err(RuntimeError::InitializationFailure)
        } else {
            proof {
                reveal_strlit("empty");
            }
            Ok(Runtime { host_functions: HostFunctionList::new("empty") })
        }
    }
}

} // verus!
