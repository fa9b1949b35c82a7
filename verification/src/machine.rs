use vstd::prelude::*;

use crate::cont::{dist, window, window_high, window_low, Cont};
use crate::payload::{payload_tag, tag_of, Payload, Tag};
use vstd::arithmetic::div_mod::{
    lemma_div_is_ordered, lemma_div_multiples_vanish, lemma_div_plus_one, lemma_div_pos_is_pos,
};
use vstd::arithmetic::mul::lemma_mul_is_commutative;
use vstd::pervasive::VecAdditionalExecFns;

verus! {

/// `a / b` rounded towards the next larger integer.
pub open spec fn ceil_div(a: int, b: int) -> int {
    (a + b - 1) / b
}

/// Safety margin in bytes left below a restored window: room for the jump's
/// own frame and for the code running immediately after landing.
pub const MARGIN: usize = 1024;

/// What re-entering a capture site yields: a newly captured record on the
/// direct call, or, when the site is re-entered through a restore's
/// non-local jump, the payload the continuation was invoked with.
pub enum Outcome {
    Captured(usize),
    Resumed(Payload),
}

/// What the entry combinator yields: `Run(id)` when the capture is fresh and
/// the caller's procedure must now run with record `id`; `Value(p)` when the
/// site was resumed with a payload of the expected tag; `Mismatch(p)` when
/// the payload's tag differs from the expected one — a fatal misuse, and the
/// payload is surfaced rather than coerced.
pub enum CcOutcome {
    Run(usize),
    Value(Payload),
    Mismatch(Payload),
}

/// The per-thread context of the mechanism: the thread's stack modelled as
/// an addressable byte array, the thread's fixed stack origin, the one-value
/// resumption slot, and the continuation records captured so far, keyed by
/// their index.
pub struct Machine {
    /// The thread's stack memory; an address is an index into it.
    pub memory: Vec<u8>,
    /// The thread's fixed stack origin, established once.
    pub origin: usize,
    /// The resumption slot: holds at most one payload, between the moment an
    /// invocation writes it and the moment the landing capture site reads
    /// and clears it.
    pub slot: Option<Payload>,
    /// All captured continuation records, keyed by index.
    pub conts: Vec<Cont>,
}

impl Machine {
    /// Well-formedness: the origin lies on the stack and every record's
    /// window and buffer are well formed for this stack.
    pub open spec fn wf(self) -> bool {
        &&& self.origin <= self.memory@.len()
        &&& forall|i: int|
            0 <= i < self.conts@.len() ==> (#[trigger] self.conts@[i]).wf(
                self.memory@.len() as int,
            )
    }
}

/// `post` is `pre` with exactly one new record appended: a capture taken at
/// stack pointer `sp`.  The new record's window is the ordered range between
/// `pre.origin` and `sp`, it is fresh, and its buffer is a verbatim copy of
/// the stack bytes in that window.  Nothing else changes.
pub open spec fn is_capture(pre: Machine, post: Machine, sp: usize) -> bool {
    let id = pre.conts@.len() as int;
    let k = post.conts@[id];
    &&& post.memory@ == pre.memory@
    &&& post.origin == pre.origin
    &&& post.slot == pre.slot
    &&& post.conts@.len() == pre.conts@.len() + 1
    &&& (forall|j: int| 0 <= j < pre.conts@.len() ==> post.conts@[j] == pre.conts@[j])
    &&& k.cstart == window_low(pre.origin as int, sp as int)
    &&& k.cend == window_high(pre.origin as int, sp as int)
    &&& k.csize == dist(pre.origin as int, sp as int)
    &&& k.fresh
    &&& k.cstack@ == pre.memory@.subrange(k.cstart as int, k.cend as int)
}

/// `post` is `pre` after record `id` has been restored: the record is no
/// longer fresh but describes the same capture, its window of the stack has
/// been overwritten with exactly the buffer's bytes, and every byte outside
/// the window, every other record, and the origin are unchanged.  The
/// resumption slot is not constrained here; the operations say what holds
/// of it themselves.
pub open spec fn is_restore(pre: Machine, post: Machine, id: int) -> bool {
    let k0 = pre.conts@[id];
    let k = post.conts@[id];
    &&& post.origin == pre.origin
    &&& post.conts@.len() == pre.conts@.len()
    &&& (forall|j: int|
        0 <= j < pre.conts@.len() && j != id ==> post.conts@[j] == pre.conts@[j])
    &&& k.same_capture(k0)
    &&& !k.fresh
    &&& post.memory@.len() == pre.memory@.len()
    &&& post.memory@.subrange(k0.cstart as int, k0.cend as int) == k0.cstack@
    &&& (forall|a: int|
        0 <= a < pre.memory@.len() && !(k0.cstart <= a < k0.cend)
            ==> post.memory@[a] == pre.memory@[a])
}

/// `post` is `pre` after a resumed re-entry of a capture site: the occupied
/// resumption slot has been read and cleared, and nothing else changes.
pub open spec fn is_resumed_entry(pre: Machine, post: Machine) -> bool {
    &&& pre.slot is Some
    &&& post.slot is None
    &&& post.memory@ == pre.memory@
    &&& post.origin == pre.origin
    &&& post.conts@ == pre.conts@
}

/// The entry combinator's resumed branch: a resumed re-entry whose outcome
/// is the slot's payload when its tag is the expected one, and a fatal
/// mismatch carrying the payload otherwise.
pub open spec fn cc_resumed(pre: Machine, post: Machine, expected: Tag, out: CcOutcome) -> bool {
    &&& is_resumed_entry(pre, post)
    &&& (pre.slot matches Some(p) ==> {
        &&& (tag_of(p) == expected ==> out == CcOutcome::Value(p))
        &&& (tag_of(p) != expected ==> out == CcOutcome::Mismatch(p))
    })
}

impl Machine {
    /// A fresh machine for a thread whose stack is `memory` and whose fixed
    /// origin is `origin`: empty resumption slot, no records.
    pub fn new(memory: Vec<u8>, origin: usize) -> (m: Machine)
        requires
            origin <= memory@.len(),
        ensures
            m.wf(),
            m.memory@ == memory@,
            m.origin == origin,
            m.slot is None,
            m.conts@.len() == 0,
    {
        Machine { memory, origin, slot: None, conts: Vec::new() }
    }

    /// The start of the native stack: the thread's fixed origin.
    pub fn stack_origin(&self) -> (r: usize)
        ensures
            r == self.origin,
    {
        self.origin
    }

    /// The size of the native stack in use: the distance between the fixed
    /// origin and the stack-pointer reading `sp`, whichever direction the
    /// stack grows.
    pub fn stack_size(&self, sp: usize) -> (r: usize)
        ensures
            r == dist(self.origin as int, sp as int),
    {
        if sp <= self.origin {
            self.origin - sp
        } else {
            sp - self.origin
        }
    }

    /// Captures the current continuation, or delivers a resumption.
    ///
    /// On the direct call — nothing pending in the resumption slot — this
    /// builds a fresh record from the stack window between the origin and
    /// `sp` and returns its id.  When the same site is re-entered through a
    /// restore's non-local jump, the slot holds the invocation's payload;
    /// the call then reads and clears the slot and returns the payload.
    #[verifier::loop_isolation(false)]
    pub fn make_continuation(&mut self, sp: usize) -> (out: Outcome)
        requires
            old(self).wf(),
            sp <= old(self).memory@.len(),
        ensures
            final(self).wf(),
            (old(self).slot is None ==> {
                &&& (out matches Outcome::Captured(id) && id == old(self).conts@.len())
                &&& is_capture(*old(self), *final(self), sp)
            }),
            (old(self).slot matches Some(p) ==> {
                &&& out == Outcome::Resumed(p)
                &&& is_resumed_entry(*old(self), *final(self))
            }),
    {
        match self.slot.take() {
            Option::Some(p) => Outcome::Resumed(p),
            Option::None => {
                let (lo, hi, size) = window(self.origin, sp);
                let mut buf: Vec<u8> = Vec::new();
                let mut j: usize = 0;
                while j < size
                    invariant
                        j <= size,
                        buf@ == self.memory@.subrange(lo as int, lo as int + j as int),
                    decreases size - j,
                {
                    let b = self.memory[lo + j];
                    proof {
                        assert(self.memory@.subrange(lo as int, lo as int + (j + 1) as int)
                            =~= self.memory@.subrange(lo as int, lo as int + j as int).push(
                            self.memory@[lo as int + j as int],
                        ));
                    }
                    buf.push(b);
                    j = j + 1;
                }
                let k = Cont { csize: size, cstart: lo, cend: hi, fresh: true, cstack: buf };
                let id = self.conts.len();
                self.conts.push(k);
                Outcome::Captured(id)
            },
        }
    }

    /// The restore trampoline: makes record `id`'s captured state live
    /// again.  It first grows the stack — modelled as consuming `growth`
    /// further bytes per attempt, starting from the consumption `sp`
    /// implies — until the live region has descended past the record's
    /// window plus [`MARGIN`], then marks the record non-fresh, overwrites
    /// the window `[cstart, cend)` with the buffer's bytes, and jumps.
    ///
    /// In the real mechanism this call never returns; here the jump's
    /// landing is delivered by the next [`Machine::make_continuation`] at
    /// the capture site.  The returned value is the number of growth
    /// attempts that were needed, which is at most
    /// `ceil_div(csize + MARGIN, growth)` whenever any stack was in use.
    #[verifier::loop_isolation(false)]
    pub fn restore_cont_jump(&mut self, id: usize, sp: usize, growth: usize) -> (steps: usize)
        requires
            old(self).wf(),
            id < old(self).conts@.len(),
            growth >= 1,
            old(self).conts@[id as int].csize + MARGIN + growth <= usize::MAX,
        ensures
            final(self).wf(),
            is_restore(*old(self), *final(self), id as int),
            final(self).slot == old(self).slot,
            dist(old(self).origin as int, sp as int) >= 1 ==> steps <= ceil_div(
                old(self).conts@[id as int].csize + MARGIN,
                growth as int,
            ),
    {
        let mut k = self.conts.remove(id);

        // every attempt consumes strictly more stack than the last, until
        // the window plus the safety margin fits below the live region
        let needed = k.csize + MARGIN;
        let d0 = self.stack_size(sp);
        let mut depth: usize = d0;
        let mut steps: usize = 0;
        while depth <= needed
            invariant
                growth >= 1,
                needed + growth <= usize::MAX,
                steps <= depth,
                depth == d0 + steps * growth,
                steps >= 1 ==> d0 + (steps - 1) * growth <= needed,
            decreases needed + growth - depth,
        {
            let ghost steps0 = steps as int;
            depth = depth + growth;
            steps = steps + 1;
            proof {
                assert((steps0 + 1) * (growth as int) == steps0 * (growth as int) + growth as int)
                    by (nonlinear_arith);
            }
        }
        proof {
            if d0 >= 1 {
                let g = growth as int;
                let n = needed as int;
                let s = steps as int;
                if s >= 1 {
                    assert(g * (s - 1) == (s - 1) * g) by {
                        lemma_mul_is_commutative(g, s - 1);
                    }
                    lemma_div_multiples_vanish(s - 1, g);
                    lemma_div_is_ordered(g * (s - 1), n - 1, g);
                    lemma_div_plus_one(n - 1, g);
                } else {
                    lemma_div_pos_is_pos(n + g - 1, g);
                }
            }
        }

        k.fresh = false;
        // overwrite the record's exact window of the live stack with the
        // captured bytes
        let mut j: usize = 0;
        while j < k.csize
            invariant
                j <= k.csize,
                self.conts@ == old(self).conts@.remove(id as int),
                self.origin == old(self).origin,
                self.slot == old(self).slot,
                self.memory@.len() == old(self).memory@.len(),
                forall|a: int|
                    0 <= a < self.memory@.len() && !(k.cstart <= a < k.cstart + j)
                        ==> self.memory@[a] == old(self).memory@[a],
                forall|a: int|
                    k.cstart <= a < k.cstart + j ==> self.memory@[a] == k.cstack@[a - k.cstart],
            decreases k.csize - j,
        {
            let b = k.cstack[j];
            self.memory.set(k.cstart + j, b);
            j = j + 1;
        }
        proof {
            assert(self.memory@.subrange(k.cstart as int, k.cend as int) =~= k.cstack@);
        }

        self.conts.insert(id, k);
        proof {
            assert forall|j2: int|
                0 <= j2 < old(self).conts@.len() && j2 != id implies self.conts@[j2] == old(
                self,
            ).conts@[j2] by {
                if j2 < id {
                    assert(self.conts@[j2] == old(self).conts@.remove(id as int)[j2]);
                } else {
                    assert(self.conts@[j2] == old(self).conts@.remove(id as int)[j2 - 1]);
                }
            }
        }
        steps
    }

    /// Invocation: resume record `id` with `value`.  Stores the payload in
    /// the resumption slot — which must be empty: a second write before a
    /// read is not a defined use — then drives the restore trampoline.  In
    /// the real mechanism this never returns; the capture site re-entered
    /// by the jump finds the payload in the slot.
    pub fn restore_continuation(
        &mut self,
        id: usize,
        value: Payload,
        sp: usize,
        growth: usize,
    ) -> (steps: usize)
        requires
            old(self).wf(),
            id < old(self).conts@.len(),
            old(self).slot is None,
            growth >= 1,
            old(self).conts@[id as int].csize + MARGIN + growth <= usize::MAX,
        ensures
            final(self).wf(),
            is_restore(*old(self), *final(self), id as int),
            final(self).slot == Some(value),
            dist(old(self).origin as int, sp as int) >= 1 ==> steps <= ceil_div(
                old(self).conts@[id as int].csize + MARGIN,
                growth as int,
            ),
    {
        self.slot = Some(value);
        self.restore_cont_jump(id, sp, growth)
    }

    /// Calls the continuation `id` with `value`: the public face of
    /// [`Machine::restore_continuation`].
    pub fn call_cont(&mut self, id: usize, value: Payload, sp: usize, growth: usize) -> (steps:
        usize)
        requires
            old(self).wf(),
            id < old(self).conts@.len(),
            old(self).slot is None,
            growth >= 1,
            old(self).conts@[id as int].csize + MARGIN + growth <= usize::MAX,
        ensures
            final(self).wf(),
            is_restore(*old(self), *final(self), id as int),
            final(self).slot == Some(value),
            dist(old(self).origin as int, sp as int) >= 1 ==> steps <= ceil_div(
                old(self).conts@[id as int].csize + MARGIN,
                growth as int,
            ),
    {
        self.restore_continuation(id, value, sp, growth)
    }

    /// The entry combinator.  Performs a capture at `sp`; on the direct
    /// call it yields `Run(id)` and the caller runs its procedure with the
    /// fresh record `id`, the procedure's result standing as the
    /// combinator's result.  When the site is re-entered through an
    /// invocation, the pending payload becomes the combinator's result if
    /// its tag is `expected`; any other tag is a fatal misuse, surfaced as
    /// `Mismatch` rather than coerced.
    pub fn call_cc(&mut self, sp: usize, expected: Tag) -> (out: CcOutcome)
        requires
            old(self).wf(),
            sp <= old(self).memory@.len(),
        ensures
            final(self).wf(),
            (old(self).slot is None ==> {
                &&& (out matches CcOutcome::Run(id) && id == old(self).conts@.len())
                &&& is_capture(*old(self), *final(self), sp)
            }),
            (old(self).slot is Some ==> cc_resumed(*old(self), *final(self), expected, out)),
    {
        match self.make_continuation(sp) {
            Outcome::Captured(id) => CcOutcome::Run(id),
            Outcome::Resumed(p) => {
                let t = payload_tag(&p);
                if t == expected {
                    CcOutcome::Value(p)
                } else {
                    CcOutcome::Mismatch(p)
                }
            },
        }
    }
}

} // verus!
