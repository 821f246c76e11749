//! A checked handle registry for engine resources.
//!
//! The registry owns every session context and runtime environment it has
//! created, and hands callers opaque nonzero 64-bit handles instead of raw
//! addresses. Handles are issued from a strictly increasing counter, so a
//! handle never aliases another live handle and a closed handle is never
//! reissued. Every operation on a handle validates its presence first, so an
//! invalid or already-closed handle yields a recoverable error instead of
//! undefined behavior.
//!
//! The registry performs no internal synchronization: every operation takes
//! the registry by exclusive (`&mut`) reference, so a host that shares one
//! registry across threads must serialize operations on it, for instance
//! behind a lock. Operations on distinct handles never interfere with each
//! other, as the contracts below state; closing a handle concurrently with
//! another operation on the same registry is ruled out by the exclusive
//! reference itself.

use vstd::prelude::*;

use crate::engine;
use datafusion::execution::context::SessionContext;
use datafusion::execution::runtime_env::RuntimeEnv;

verus! {

/// Errors a caller can receive instead of undefined behavior.
#[derive(Clone, Copy, Debug, PartialEq, Eq, Structural)]
pub enum RegistryError {
    /// The handle does not denote a live resource of the requested kind.
    InvalidHandle,
    /// The handle space is exhausted; no fresh handle can be issued.
    Exhausted,
    /// The engine failed to construct the requested resource.
    EngineFailure,
}

/// Owns the live engine resources and maps each to the handle it was
/// issued under.
pub struct Registry {
    next_handle: u64,
    sessions: Vec<(u64, SessionContext)>,
    runtimes: Vec<(u64, RuntimeEnv)>,
}

impl Registry {
    /// The next handle value the registry will issue.
    pub closed spec fn next_free(self) -> u64 {
        self.next_handle
    }

    /// Whether `h` denotes a live session context.
    pub closed spec fn has_session(self, h: u64) -> bool {
        exists|k: int| 0 <= k < self.sessions@.len() && (#[trigger] self.sessions@[k]).0 == h
    }

    /// Whether `h` denotes a live runtime environment.
    pub closed spec fn has_runtime(self, h: u64) -> bool {
        exists|k: int| 0 <= k < self.runtimes@.len() && (#[trigger] self.runtimes@[k]).0 == h
    }

    /// How many session contexts are live.
    pub closed spec fn session_count(self) -> nat {
        self.sessions@.len()
    }

    /// How many runtime environments are live.
    pub closed spec fn runtime_count(self) -> nat {
        self.runtimes@.len()
    }

    /// Well-formedness: handles are nonzero, below the issue counter, unique
    /// within each kind, and no handle denotes both kinds at once.
    pub closed spec fn wf(self) -> bool {
        &&& 1 <= self.next_handle
        &&& forall|k: int|
            0 <= k < self.sessions@.len() ==> 1 <= (#[trigger] self.sessions@[k]).0
                < self.next_handle
        &&& forall|k: int|
            0 <= k < self.runtimes@.len() ==> 1 <= (#[trigger] self.runtimes@[k]).0
                < self.next_handle
        &&& forall|k: int, l: int|
            0 <= k < l < self.sessions@.len() ==> (#[trigger] self.sessions@[k]).0 != (
            #[trigger] self.sessions@[l]).0
        &&& forall|k: int, l: int|
            0 <= k < l < self.runtimes@.len() ==> (#[trigger] self.runtimes@[k]).0 != (
            #[trigger] self.runtimes@[l]).0
        &&& forall|k: int, l: int|
            0 <= k < self.sessions@.len() && 0 <= l < self.runtimes@.len() ==> (
            #[trigger] self.sessions@[k]).0 != (#[trigger] self.runtimes@[l]).0
    }
}

/// One session context was created and registered under the fresh handle `h`;
/// nothing else changed.
pub open spec fn session_created(pre: Registry, post: Registry, h: u64) -> bool {
    &&& h == pre.next_free()
    &&& post.next_free() == pre.next_free() + 1
    &&& forall|g: u64| post.has_session(g) <==> (pre.has_session(g) || g == h)
    &&& forall|g: u64| post.has_runtime(g) <==> pre.has_runtime(g)
    &&& post.session_count() == pre.session_count() + 1
    &&& post.runtime_count() == pre.runtime_count()
}

/// The session context under `h` was destroyed; nothing else changed.
pub open spec fn session_closed(pre: Registry, post: Registry, h: u64) -> bool {
    &&& pre.has_session(h)
    &&& post.next_free() == pre.next_free()
    &&& forall|g: u64| post.has_session(g) <==> (pre.has_session(g) && g != h)
    &&& forall|g: u64| post.has_runtime(g) <==> pre.has_runtime(g)
    &&& post.session_count() + 1 == pre.session_count()
    &&& post.runtime_count() == pre.runtime_count()
}

/// One runtime environment was registered under the fresh handle `h`;
/// nothing else changed.
pub open spec fn runtime_created(pre: Registry, post: Registry, h: u64) -> bool {
    &&& h == pre.next_free()
    &&& post.next_free() == pre.next_free() + 1
    &&& forall|g: u64| post.has_runtime(g) <==> (pre.has_runtime(g) || g == h)
    &&& forall|g: u64| post.has_session(g) <==> pre.has_session(g)
    &&& post.runtime_count() == pre.runtime_count() + 1
    &&& post.session_count() == pre.session_count()
}

/// The runtime environment under `h` was destroyed; nothing else changed.
pub open spec fn runtime_closed(pre: Registry, post: Registry, h: u64) -> bool {
    &&& pre.has_runtime(h)
    &&& post.next_free() == pre.next_free()
    &&& forall|g: u64| post.has_runtime(g) <==> (pre.has_runtime(g) && g != h)
    &&& forall|g: u64| post.has_session(g) <==> pre.has_session(g)
    &&& post.runtime_count() + 1 == pre.runtime_count()
    &&& post.session_count() == pre.session_count()
}

impl Registry {
    /// Every live handle of a well-formed registry is nonzero, lies below the
    /// issue counter, and denotes only one kind of resource.
    pub proof fn lemma_live_handle_bounds(self, h: u64)
        requires
            self.wf(),
        ensures
            1 <= self.next_free(),
            self.has_session(h) || self.has_runtime(h) ==> 1 <= h < self.next_free(),
            !(self.has_session(h) && self.has_runtime(h)),
    {
        if self.has_session(h) {
            let k = choose|k: int|
                0 <= k < self.sessions@.len() && (#[trigger] self.sessions@[k]).0 == h;
            assert(1 <= (self.sessions@[k]).0 < self.next_handle);
            if self.has_runtime(h) {
                let l = choose|l: int|
                    0 <= l < self.runtimes@.len() && (#[trigger] self.runtimes@[l]).0 == h;
                assert((self.sessions@[k]).0 != (self.runtimes@[l]).0);
            }
        }
        if self.has_runtime(h) {
            let l = choose|l: int|
                0 <= l < self.runtimes@.len() && (#[trigger] self.runtimes@[l]).0 == h;
            assert(1 <= (self.runtimes@[l]).0 < self.next_handle);
        }
    }

    /// A fresh registry: no live resources, counter at the first nonzero
    /// handle.
    pub fn new() -> (r: Registry)
        ensures
            r.wf(),
            r.next_free() == 1,
            forall|g: u64| !r.has_session(g) && !r.has_runtime(g),
            r.session_count() == 0,
            r.runtime_count() == 0,
    {
        Registry { next_handle: 1, sessions: Vec::new(), runtimes: Vec::new() }
    }

    /// Takes ownership of an already-built session context and issues a fresh
    /// handle for it. Fails exactly when the handle space is exhausted.
    pub fn register_session(&mut self, ctx: SessionContext) -> (r: Result<u64, RegistryError>)
        requires
            old(self).wf(),
        ensures
            final(self).wf(),
            match r {
                Ok(h) => old(self).next_free() < u64::MAX && session_created(
                    *old(self),
                    *final(self),
                    h,
                ),
                Err(e) => {
                    &&& e == RegistryError::Exhausted
                    &&& old(self).next_free() == u64::MAX
                    &&& *final(self) == *old(self)
                },
            },
    {
        if self.next_handle == u64::MAX {
            return Err(RegistryError::Exhausted);
        }
        let h = self.next_handle;
        let ghost pre = *self;
        self.next_handle = self.next_handle + 1;
        self.sessions.push((h, ctx));
        proof {
            assert(self.sessions@ =~= pre.sessions@.push(self.sessions@.last()));
            assert forall|g: u64| self.has_session(g) implies (pre.has_session(g) || g == h) by {
                let k = choose|k: int|
                    0 <= k < self.sessions@.len() && (#[trigger] self.sessions@[k]).0 == g;
                if k < pre.sessions@.len() {
                    assert((pre.sessions@[k]).0 == g);
                }
            }
            assert forall|g: u64| (pre.has_session(g) || g == h) implies self.has_session(g) by {
                if pre.has_session(g) {
                    let k = choose|k: int|
                        0 <= k < pre.sessions@.len() && (#[trigger] pre.sessions@[k]).0 == g;
                    assert((self.sessions@[k]).0 == g);
                } else {
                    assert((self.sessions@[pre.sessions@.len() as int]).0 == h);
                }
            }
            assert forall|g: u64| self.has_runtime(g) implies pre.has_runtime(g) by {
                let k = choose|k: int|
                    0 <= k < self.runtimes@.len() && (#[trigger] self.runtimes@[k]).0 == g;
                assert((pre.runtimes@[k]).0 == g);
            }
            assert forall|g: u64| pre.has_runtime(g) implies self.has_runtime(g) by {
                let k = choose|k: int|
                    0 <= k < pre.runtimes@.len() && (#[trigger] pre.runtimes@[k]).0 == g;
                assert((self.runtimes@[k]).0 == g);
            }
        }
        Ok(h)
    }

    /// Creates a new session context with the default configuration
    /// (repartitioned aggregation enabled) and issues a fresh handle for it.
    /// Fails exactly when the handle space is exhausted.
    pub fn create_session(&mut self) -> (r: Result<u64, RegistryError>)
        requires
            old(self).wf(),
        ensures
            final(self).wf(),
            match r {
                Ok(h) => old(self).next_free() < u64::MAX && session_created(
                    *old(self),
                    *final(self),
                    h,
                ),
                Err(e) => {
                    &&& e == RegistryError::Exhausted
                    &&& old(self).next_free() == u64::MAX
                    &&& *final(self) == *old(self)
                },
            },
    {
        if self.next_handle == u64::MAX {
            return Err(RegistryError::Exhausted);
        }
        let ctx = engine::new_session_context();
        self.register_session(ctx)
    }

    /// Destroys the session context under `handle`. Succeeds exactly when
    /// `handle` is a live session handle; an invalid or already-closed handle
    /// is rejected and the registry is left unchanged.
    pub fn close_session(&mut self, handle: u64) -> (r: Result<(), RegistryError>)
        requires
            old(self).wf(),
        ensures
            final(self).wf(),
            match r {
                Ok(_) => session_closed(*old(self), *final(self), handle),
                Err(e) => {
                    &&& e == RegistryError::InvalidHandle
                    &&& !old(self).has_session(handle)
                    &&& *final(self) == *old(self)
                },
            },
    {
        let ghost pre = *self;
        let mut i: usize = 0;
        while i < self.sessions.len()
            invariant
                pre == *old(self),
                pre.wf(),
                *self == pre,
                i <= self.sessions@.len(),
                forall|k: int| 0 <= k < i ==> (#[trigger] self.sessions@[k]).0 != handle,
            decreases self.sessions@.len() - i,
        {
            if self.sessions[i].0 == handle {
                let _closed = self.sessions.remove(i);
                proof {
                    self.lemma_after_session_remove(pre, i as int, handle);
                }
                return Ok(());
            }
            i = i + 1;
        }
        assert(forall|k: int|
            0 <= k < self.sessions@.len() ==> (#[trigger] self.sessions@[k]).0 != handle);
        Err(RegistryError::InvalidHandle)
    }

    /// After removing index `i`, which held `handle`, from the session table
    /// of the well-formed registry `pre`, the registry is well-formed again
    /// and exactly the session under `handle` is gone.
    proof fn lemma_after_session_remove(self, pre: Registry, i: int, handle: u64)
        requires
            pre.wf(),
            0 <= i < pre.sessions@.len(),
            (pre.sessions@[i]).0 == handle,
            self.next_handle == pre.next_handle,
            self.runtimes@ == pre.runtimes@,
            self.sessions@ == pre.sessions@.remove(i),
        ensures
            self.wf(),
            session_closed(pre, self, handle),
    {
        assert(self.sessions@.len() + 1 == pre.sessions@.len());
        assert forall|k: int| 0 <= k < self.sessions@.len() implies #[trigger] self.sessions@[k]
            == if k < i {
            pre.sessions@[k]
        } else {
            pre.sessions@[k + 1]
        } by {}
        assert forall|g: u64| self.has_session(g) implies (pre.has_session(g) && g != handle) by {
            let k = choose|k: int|
                0 <= k < self.sessions@.len() && (#[trigger] self.sessions@[k]).0 == g;
            if k < i {
                assert((pre.sessions@[k]).0 == g);
            } else {
                assert((pre.sessions@[k + 1]).0 == g);
            }
        }
        assert forall|g: u64| (pre.has_session(g) && g != handle) implies self.has_session(g) by {
            let k = choose|k: int|
                0 <= k < pre.sessions@.len() && (#[trigger] pre.sessions@[k]).0 == g;
            if k < i {
                assert((self.sessions@[k]).0 == g);
            } else {
                assert(k != i);
                assert((self.sessions@[k - 1]).0 == g);
            }
        }
        assert(forall|g: u64| self.has_runtime(g) <==> pre.has_runtime(g));
        assert(pre.has_session(handle));
    }

    /// Takes ownership of an already-built runtime environment and issues a
    /// fresh handle for it. Fails exactly when the handle space is exhausted.
    pub fn register_runtime(&mut self, env: RuntimeEnv) -> (r: Result<u64, RegistryError>)
        requires
            old(self).wf(),
        ensures
            final(self).wf(),
            match r {
                Ok(h) => old(self).next_free() < u64::MAX && runtime_created(
                    *old(self),
                    *final(self),
                    h,
                ),
                Err(e) => {
                    &&& e == RegistryError::Exhausted
                    &&& old(self).next_free() == u64::MAX
                    &&& *final(self) == *old(self)
                },
            },
    {
        if self.next_handle == u64::MAX {
            return Err(RegistryError::Exhausted);
        }
        let h = self.next_handle;
        let ghost pre = *self;
        self.next_handle = self.next_handle + 1;
        self.runtimes.push((h, env));
        proof {
            assert(self.runtimes@ =~= pre.runtimes@.push(self.runtimes@.last()));
            assert forall|g: u64| self.has_runtime(g) implies (pre.has_runtime(g) || g == h) by {
                let k = choose|k: int|
                    0 <= k < self.runtimes@.len() && (#[trigger] self.runtimes@[k]).0 == g;
                if k < pre.runtimes@.len() {
                    assert((pre.runtimes@[k]).0 == g);
                }
            }
            assert forall|g: u64| (pre.has_runtime(g) || g == h) implies self.has_runtime(g) by {
                if pre.has_runtime(g) {
                    let k = choose|k: int|
                        0 <= k < pre.runtimes@.len() && (#[trigger] pre.runtimes@[k]).0 == g;
                    assert((self.runtimes@[k]).0 == g);
                } else {
                    assert((self.runtimes@[pre.runtimes@.len() as int]).0 == h);
                }
            }
            assert forall|g: u64| self.has_session(g) implies pre.has_session(g) by {
                let k = choose|k: int|
                    0 <= k < self.sessions@.len() && (#[trigger] self.sessions@[k]).0 == g;
                assert((pre.sessions@[k]).0 == g);
            }
            assert forall|g: u64| pre.has_session(g) implies self.has_session(g) by {
                let k = choose|k: int|
                    0 <= k < pre.sessions@.len() && (#[trigger] pre.sessions@[k]).0 == g;
                assert((self.sessions@[k]).0 == g);
            }
        }
        Ok(h)
    }

    /// Builds a runtime environment with the engine's default configuration
    /// and issues a fresh handle for it. When the handle space is exhausted
    /// nothing is built and `Exhausted` is returned; when the engine fails to
    /// build the environment, `EngineFailure` is returned; either way the
    /// registry is unchanged.
    pub fn create_global_runtime(&mut self) -> (r: Result<u64, RegistryError>)
        requires
            old(self).wf(),
        ensures
            final(self).wf(),
            match r {
                Ok(h) => old(self).next_free() < u64::MAX && runtime_created(
                    *old(self),
                    *final(self),
                    h,
                ),
                Err(e) => {
                    &&& *final(self) == *old(self)
                    &&& (e == RegistryError::Exhausted || e == RegistryError::EngineFailure)
                    &&& (e == RegistryError::Exhausted <==> old(self).next_free() == u64::MAX)
                },
            },
    {
        if self.next_handle == u64::MAX {
            return Err(RegistryError::Exhausted);
        }
        match engine::build_runtime_env() {
            Ok(env) => self.register_runtime(env),
            Err(_) => Err(RegistryError::EngineFailure),
        }
    }

    /// Destroys the runtime environment under `handle`. Succeeds exactly when
    /// `handle` is a live runtime handle; an invalid or already-closed handle
    /// is rejected and the registry is left unchanged.
    pub fn close_global_runtime(&mut self, handle: u64) -> (r: Result<(), RegistryError>)
        requires
            old(self).wf(),
        ensures
            final(self).wf(),
            match r {
                Ok(_) => runtime_closed(*old(self), *final(self), handle),
                Err(e) => {
                    &&& e == RegistryError::InvalidHandle
                    &&& !old(self).has_runtime(handle)
                    &&& *final(self) == *old(self)
                },
            },
    {
        let ghost pre = *self;
        let mut i: usize = 0;
        while i < self.runtimes.len()
            invariant
                pre == *old(self),
                pre.wf(),
                *self == pre,
                i <= self.runtimes@.len(),
                forall|k: int| 0 <= k < i ==> (#[trigger] self.runtimes@[k]).0 != handle,
            decreases self.runtimes@.len() - i,
        {
            if self.runtimes[i].0 == handle {
                let _closed = self.runtimes.remove(i);
                proof {
                    self.lemma_after_runtime_remove(pre, i as int, handle);
                }
                return Ok(());
            }
            i = i + 1;
        }
        assert(forall|k: int|
            0 <= k < self.runtimes@.len() ==> (#[trigger] self.runtimes@[k]).0 != handle);
        Err(RegistryError::InvalidHandle)
    }

    /// After removing index `i`, which held `handle`, from the runtime table
    /// of the well-formed registry `pre`, the registry is well-formed again
    /// and exactly the runtime environment under `handle` is gone.
    proof fn lemma_after_runtime_remove(self, pre: Registry, i: int, handle: u64)
        requires
            pre.wf(),
            0 <= i < pre.runtimes@.len(),
            (pre.runtimes@[i]).0 == handle,
            self.next_handle == pre.next_handle,
            self.sessions@ == pre.sessions@,
            self.runtimes@ == pre.runtimes@.remove(i),
        ensures
            self.wf(),
            runtime_closed(pre, self, handle),
    {
        assert(self.runtimes@.len() + 1 == pre.runtimes@.len());
        assert forall|k: int| 0 <= k < self.runtimes@.len() implies #[trigger] self.runtimes@[k]
            == if k < i {
            pre.runtimes@[k]
        } else {
            pre.runtimes@[k + 1]
        } by {}
        assert forall|g: u64| self.has_runtime(g) implies (pre.has_runtime(g) && g != handle) by {
            let k = choose|k: int|
                0 <= k < self.runtimes@.len() && (#[trigger] self.runtimes@[k]).0 == g;
            if k < i {
                assert((pre.runtimes@[k]).0 == g);
            } else {
                assert((pre.runtimes@[k + 1]).0 == g);
            }
        }
        assert forall|g: u64| (pre.has_runtime(g) && g != handle) implies self.has_runtime(g) by {
            let k = choose|k: int|
                0 <= k < pre.runtimes@.len() && (#[trigger] pre.runtimes@[k]).0 == g;
            if k < i {
                assert((self.runtimes@[k]).0 == g);
            } else {
                assert(k != i);
                assert((self.runtimes@[k - 1]).0 == g);
            }
        }
        assert(forall|g: u64| self.has_session(g) <==> pre.has_session(g));
        assert(pre.has_runtime(handle));
    }
}

} // verus!
