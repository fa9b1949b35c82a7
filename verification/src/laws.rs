use vstd::prelude::*;

use crate::cont::dist;
use crate::machine::{cc_resumed, is_capture, is_restore, CcOutcome, Machine};
use crate::payload::{tag_of, Payload, Tag};

verus! {

/// Law: window correctness.  Any capture's record has
/// `csize == cend - cstart == |origin - sp|`, and its buffer holds exactly
/// `csize` bytes — whichever direction the hardware stack grows, since
/// the distance is symmetric in the two addresses.
pub proof fn lemma_window_correctness(pre: Machine, post: Machine, sp: usize)
    requires
        pre.wf(),
        sp <= pre.memory@.len(),
        is_capture(pre, post, sp),
    ensures
        post.conts@[pre.conts@.len() as int].csize == dist(pre.origin as int, sp as int),
        post.conts@[pre.conts@.len() as int].csize == post.conts@[pre.conts@.len() as int].cend
            - post.conts@[pre.conts@.len() as int].cstart,
        post.conts@[pre.conts@.len() as int].cstack@.len() == post.conts@[pre.conts@.len() as int].csize,
        dist(pre.origin as int, sp as int) == dist(sp as int, pre.origin as int),
{
}

/// Law: idempotent resumption.  Invoking a captured record with value `v`
/// makes its entry combinator evaluate to exactly `v`; invoking it again
/// later with `v2` makes it evaluate to `v2` — independent of how many
/// times this has already happened, since neither step asks anything of the
/// record's freshness or earlier history.
///
/// `m0 → m1` is an invocation of record `id` with `v`, `m1 → m2` the
/// re-entered combinator yielding `out`; `m2 → m3` and `m3 → m4` are a
/// later cycle on the same record with `v2`.
pub proof fn lemma_idempotent_resumption(
    m0: Machine,
    m1: Machine,
    m2: Machine,
    m3: Machine,
    m4: Machine,
    id: int,
    v: Payload,
    v2: Payload,
    expected: Tag,
    out: CcOutcome,
    out2: CcOutcome,
)
    requires
        0 <= id < m0.conts@.len(),
        is_restore(m0, m1, id),
        m1.slot == Some(v),
        cc_resumed(m1, m2, expected, out),
        tag_of(v) == expected,
        is_restore(m2, m3, id),
        m3.slot == Some(v2),
        cc_resumed(m3, m4, expected, out2),
        tag_of(v2) == expected,
    ensures
        out == CcOutcome::Value(v),
        out2 == CcOutcome::Value(v2),
{
}

/// Law: multi-shot.  One full resume cycle — an invocation of record `id`
/// followed by the re-entered combinator reading the slot — leaves the
/// machine well formed, the slot empty, and record `id` in place with the
/// same window and the same captured bytes.  Every precondition of an
/// invocation of `id` therefore holds again, so a single captured record
/// can be the target of invocation any number of times, each cycle yielding
/// one further return of the combinator with its own payload.
pub proof fn lemma_multi_shot(
    m0: Machine,
    m1: Machine,
    m2: Machine,
    id: int,
    v: Payload,
    expected: Tag,
    out: CcOutcome,
)
    requires
        m0.wf(),
        0 <= id < m0.conts@.len(),
        m0.slot is None,
        is_restore(m0, m1, id),
        m1.slot == Some(v),
        cc_resumed(m1, m2, expected, out),
    ensures
        m2.wf(),
        0 <= id < m2.conts@.len(),
        m2.slot is None,
        m2.conts@[id].same_capture(m0.conts@[id]),
        !m2.conts@[id].fresh,
{
    assert forall|i: int| 0 <= i < m1.conts@.len() implies (#[trigger] m1.conts@[i]).wf(
        m1.memory@.len() as int,
    ) by {
        if i != id {
            assert(m1.conts@[i] == m0.conts@[i]);
        }
    }
    assert(m2.conts@ == m1.conts@);
}

} // verus!
