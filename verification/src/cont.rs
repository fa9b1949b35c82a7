use vstd::prelude::*;

verus! {

/// The distance between two addresses, whichever is the larger.
pub open spec fn dist(a: int, b: int) -> int {
    if a <= b {
        b - a
    } else {
        a - b
    }
}

/// The lower bound of the stack window between `origin` and `sp`.
pub open spec fn window_low(origin: int, sp: int) -> int {
    if sp < origin {
        sp
    } else {
        origin
    }
}

/// The upper bound of the stack window between `origin` and `sp`.
pub open spec fn window_high(origin: int, sp: int) -> int {
    if sp < origin {
        origin
    } else {
        sp
    }
}

/// Orders a thread's stack origin and a stack-pointer reading into a
/// half-open window `[low, high)`, returning `(low, high, size)`.  The
/// smaller address is always the start, so the size is non-negative
/// whichever direction the hardware stack grows.
pub fn window(origin: usize, sp: usize) -> (r: (usize, usize, usize))
    ensures
        r.0 == window_low(origin as int, sp as int),
        r.1 == window_high(origin as int, sp as int),
        r.2 == dist(origin as int, sp as int),
        r.2 == r.1 - r.0,
{
    if sp < origin {
        (sp, origin, origin - sp)
    } else {
        (origin, sp, sp - origin)
    }
}

/// One captured continuation: the stack window it was taken from, a heap
/// copy of exactly the bytes that lived there, and whether it has been
/// restored yet.  The saved jump target itself is opaque machine state; in
/// this model re-entry is delivered by the machine, so the record carries
/// only the data the mechanism reasons about.
pub struct Cont {
    /// Size in bytes of the captured stack window.
    pub csize: usize,
    /// Start address (inclusive) of the window on the native stack.
    pub cstart: usize,
    /// End address (exclusive) of the window on the native stack.
    pub cend: usize,
    /// True until the record is first restored; never reverts.
    pub fresh: bool,
    /// The heap copy of the window's bytes at capture time.
    pub cstack: Vec<u8>,
}

impl Cont {
    /// Well-formedness: the window lies inside a stack of `mem_len` bytes,
    /// its size is exactly `cend - cstart`, and the buffer holds exactly
    /// that many bytes.
    pub open spec fn wf(self, mem_len: int) -> bool {
        &&& self.cstart <= self.cend
        &&& self.cend <= mem_len
        &&& self.csize == self.cend - self.cstart
        &&& self.cstack@.len() == self.csize
    }

    /// The two records describe the same capture: same window, same bytes.
    /// Only `fresh` may differ.
    pub open spec fn same_capture(self, other: Cont) -> bool {
        &&& self.csize == other.csize
        &&& self.cstart == other.cstart
        &&& self.cend == other.cend
        &&& self.cstack@ == other.cstack@
    }
}

} // verus!
