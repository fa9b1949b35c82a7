//! Multi-shot escape-and-resume continuations ("call/cc") on a conventional
//! call stack, modelled over an explicit per-thread machine.
//!
//! A continuation is captured by copying the live bytes of the stack window
//! between the thread's fixed origin and the current stack pointer into a
//! heap buffer, together with a saved jump target.  Restoring first grows the
//! stack past the window, then overwrites the window with the saved bytes and
//! jumps.  A captured record can be restored any number of times.
//!
//! The stack itself is modelled as an addressable byte array held in a
//! [`machine::Machine`], the stack-pointer reading and the per-recursion
//! stack growth are injected as plain values, and the non-local jump is
//! modelled as the explicit two-state outcome of re-entering the capture
//! site.  The raw-stack embodiment of the same design (setjmp/longjmp, a
//! conservative collector) cannot be verified and lives with the driver.

pub mod cont;
pub mod laws;
pub mod machine;
pub mod payload;
