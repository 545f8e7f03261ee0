use vstd::prelude::*;

verus! {

/// A stop condition that one fetch/decode/dispatch cycle can surface to the
/// outer run loop.
///
/// A rejected write to read-only cartridge storage is deliberately *not* a
/// fault: the bus accepts it, drops it and counts it as a diagnostic.
#[derive(Clone, Copy, Debug, PartialEq, Eq, Structural)]
pub enum Fault {
    /// The fetched opcode byte has no defined mapping in the supported table.
    Decode(u8),
    /// An operation tried to write through an immediate operand descriptor,
    /// which is never a valid write target.
    InvalidOperand,
    /// A cartridge buffer handed to a backing-store constructor did not match
    /// the required window size.
    Construction,
}

} // verus!
