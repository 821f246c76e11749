//! Lifetime laws of the handle registry.
//!
//! These lemmas state, over the registry's transition predicates, the
//! guarantees a host relies on: created handles are fresh and distinct,
//! closing a handle leaves every other live handle intact, and along any
//! sequence of registry operations a closed handle is dead forever — it is
//! never revived and never reissued, so a second close of it must fail.

use vstd::prelude::*;

use crate::registry::Registry;
use crate::registry::runtime_closed;
use crate::registry::runtime_created;
use crate::registry::session_closed;
use crate::registry::session_created;

verus! {

/// One registry operation: a creation or a close of either kind, or an
/// operation that failed and left the registry unchanged.
pub open spec fn step(pre: Registry, post: Registry) -> bool {
    ||| exists|h: u64| session_created(pre, post, h)
    ||| exists|h: u64| session_closed(pre, post, h)
    ||| exists|h: u64| runtime_created(pre, post, h)
    ||| exists|h: u64| runtime_closed(pre, post, h)
    ||| post == pre
}

/// A trace: every adjacent pair of states is one registry operation.
pub open spec fn trace_ok(tr: Seq<Registry>) -> bool {
    forall|i: int| 0 <= i < tr.len() - 1 ==> step(tr[i], #[trigger] tr[i + 1])
}

/// A handle created in a well-formed registry is nonzero and aliases no
/// handle live at creation time, of either kind.
pub proof fn lemma_created_handle_fresh(pre: Registry, post: Registry, h: u64)
    requires
        pre.wf(),
        session_created(pre, post, h) || runtime_created(pre, post, h),
    ensures
        h != 0,
        !pre.has_session(h),
        !pre.has_runtime(h),
{
    pre.lemma_live_handle_bounds(h);
}

/// Two consecutive session creations issue distinct nonzero handles.
pub proof fn lemma_consecutive_creates_distinct(
    s0: Registry,
    s1: Registry,
    s2: Registry,
    h1: u64,
    h2: u64,
)
    requires
        s0.wf(),
        session_created(s0, s1, h1),
        session_created(s1, s2, h2),
    ensures
        h1 != h2,
        h1 != 0,
        h2 != 0,
{
    s0.lemma_live_handle_bounds(h1);
}

/// Closing a handle never affects the validity of a different handle: every
/// other handle, of either kind, is live after the close exactly when it was
/// live before.
pub proof fn lemma_close_preserves_others(pre: Registry, post: Registry, h: u64, g: u64)
    requires
        session_closed(pre, post, h) || runtime_closed(pre, post, h),
        g != h,
    ensures
        post.has_session(g) == pre.has_session(g),
        post.has_runtime(g) == pre.has_runtime(g),
{
}

/// No registry operation ever lowers the issue counter.
pub proof fn lemma_step_monotone(pre: Registry, post: Registry)
    requires
        step(pre, post),
    ensures
        pre.next_free() <= post.next_free(),
{
}

/// A session handle that is dead and below the issue counter stays dead for
/// the rest of the trace: creations only issue counter values, which lie
/// above it, and closes only remove handles.
pub proof fn lemma_no_session_revival(tr: Seq<Registry>, i: int, j: int, h: u64)
    requires
        trace_ok(tr),
        0 <= i <= j < tr.len(),
        !tr[i].has_session(h),
        h < tr[i].next_free(),
    ensures
        !tr[j].has_session(h),
        h < tr[j].next_free(),
    decreases j - i,
{
    if i < j {
        lemma_no_session_revival(tr, i, j - 1, h);
        let pre = tr[j - 1];
        let post = tr[j];
        assert(step(tr[j - 1], tr[(j - 1) + 1]));
        if exists|g: u64| session_created(pre, post, g) {
            let g = choose|g: u64| session_created(pre, post, g);
            assert(g == pre.next_free());
            assert(!post.has_session(h));
        } else if exists|g: u64| session_closed(pre, post, g) {
            let g = choose|g: u64| session_closed(pre, post, g);
            assert(!post.has_session(h));
        } else if exists|g: u64| runtime_created(pre, post, g) {
            let g = choose|g: u64| runtime_created(pre, post, g);
            assert(!post.has_session(h));
        } else if exists|g: u64| runtime_closed(pre, post, g) {
            let g = choose|g: u64| runtime_closed(pre, post, g);
            assert(!post.has_session(h));
        } else {
            assert(post == pre);
        }
    }
}

/// A runtime handle that is dead and below the issue counter stays dead for
/// the rest of the trace.
pub proof fn lemma_no_runtime_revival(tr: Seq<Registry>, i: int, j: int, h: u64)
    requires
        trace_ok(tr),
        0 <= i <= j < tr.len(),
        !tr[i].has_runtime(h),
        h < tr[i].next_free(),
    ensures
        !tr[j].has_runtime(h),
        h < tr[j].next_free(),
    decreases j - i,
{
    if i < j {
        lemma_no_runtime_revival(tr, i, j - 1, h);
        let pre = tr[j - 1];
        let post = tr[j];
        assert(step(tr[j - 1], tr[(j - 1) + 1]));
        if exists|g: u64| session_created(pre, post, g) {
            let g = choose|g: u64| session_created(pre, post, g);
            assert(!post.has_runtime(h));
        } else if exists|g: u64| session_closed(pre, post, g) {
            let g = choose|g: u64| session_closed(pre, post, g);
            assert(!post.has_runtime(h));
        } else if exists|g: u64| runtime_created(pre, post, g) {
            let g = choose|g: u64| runtime_created(pre, post, g);
            assert(g == pre.next_free());
            assert(!post.has_runtime(h));
        } else if exists|g: u64| runtime_closed(pre, post, g) {
            let g = choose|g: u64| runtime_closed(pre, post, g);
            assert(!post.has_runtime(h));
        } else {
            assert(post == pre);
        }
    }
}

/// Each session is destroyed at most once: after the close of `h`, `h` is
/// not live at any later point of the trace, so any later close of `h` meets
/// a dead handle and must be rejected.
pub proof fn lemma_session_closed_once(tr: Seq<Registry>, i: int, j: int, h: u64)
    requires
        trace_ok(tr),
        0 <= i,
        i + 1 <= j < tr.len(),
        tr[i].wf(),
        session_closed(tr[i], tr[i + 1], h),
    ensures
        !tr[j].has_session(h),
{
    tr[i].lemma_live_handle_bounds(h);
    lemma_no_session_revival(tr, i + 1, j, h);
}

/// Each runtime environment is destroyed at most once, in the same sense.
pub proof fn lemma_runtime_closed_once(tr: Seq<Registry>, i: int, j: int, h: u64)
    requires
        trace_ok(tr),
        0 <= i,
        i + 1 <= j < tr.len(),
        tr[i].wf(),
        runtime_closed(tr[i], tr[i + 1], h),
    ensures
        !tr[j].has_runtime(h),
{
    tr[i].lemma_live_handle_bounds(h);
    lemma_no_runtime_revival(tr, i + 1, j, h);
}

} // verus!
