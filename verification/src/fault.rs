//! The conditions the core reports instead of ending the process.
use vstd::prelude::*;

verus! {

/// The recoverable conditions the core reports to its host.
///
/// None of them ends the process: the instruction that met the condition is
/// abandoned and the machine state stays as it was before it.
#[derive(Clone, Copy, Debug, PartialEq, Eq, Structural)]
pub enum Fault {
    /// The fetched word matches no known instruction encoding.
    DecodeMiss,
    /// The word decoded to an operation that has no execution semantics yet.
    NotImplemented,
    /// A read or write fell outside every block, or ran over the end of the
    /// block that owns its address.
    OutOfRange,
    /// The saved status register was accessed in System mode, which has none.
    InvalidInSystemMode,
}

} // verus!
