//! The two ways in which the interpreter can fail.

use vstd::prelude::*;

verus! {

/// A fatal condition of the emulated program. The interpreter never retries or
/// repairs one: the host decides whether to reset or to stop.
#[derive(Clone, Copy, Debug, PartialEq, Eq)]
pub enum Fault {
    /// A memory address of 4096 or more, a call with sixteen calls already
    /// pending, a return with none pending, or a key number of 16 or more.
    OutOfBoundsAccess,
    /// The instruction word, carried here, is no instruction of the machine.
    UndecodableOpcode(u16),
}

} // verus!
