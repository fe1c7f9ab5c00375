//! Error values surfaced by the decoders and the block reader.

use vstd::prelude::*;

verus! {

/// A register held a value outside its documented closed set.
///
/// This is a data-integrity fault, distinct from a transport failure:
/// retrying the same read would decode to the same error.
#[derive(Clone, Copy, Debug, PartialEq, Eq, Structural)]
pub enum DecodeError {
    /// The charge-state register was outside the nine documented states.
    UnknownState(u16),
    /// The fault-bit register had a bit set above the nine documented flags.
    UnknownFaultBits(u16),
}

/// One block read failed after exhausting its bounded retries.
///
/// The failing block is identified by its base address and word count, so a
/// caller can report which part of the register map was unreachable.
#[derive(Clone, Copy, Debug, PartialEq, Eq, Structural)]
pub struct TransportError {
    /// Base register address of the block whose reads all failed.
    pub address: u16,
    /// Number of words the failed block read asked for.
    pub count: u16,
}

} // verus!
