//! Solar-input self-diagnostic faults: nine independently-settable flags,
//! packed contiguously into bits 0 through 8 of one 16-bit register.

use vstd::prelude::*;

use crate::error::DecodeError;

verus! {

/// Bit mask covering the nine documented fault flags.
pub const FAULT_BITS_MASK: u16 = 0x01FF;

/// A set of fault flags. Each of the nine documented flags is one bit in
/// `bits`; a well-formed set never has a bit above position 8.
#[derive(Clone, Copy, Debug, PartialEq, Eq, Structural)]
pub struct ArrayFault {
    pub bits: u16,
}

impl ArrayFault {
    /// Only documented flag bits are present.
    pub open spec fn spec_valid(self) -> bool {
        self.bits & FAULT_BITS_MASK == self.bits
    }

    /// The set with no flag raised.
    pub fn empty() -> (r: ArrayFault)
        ensures
            r.bits == 0,
            r.spec_valid(),
    {
        proof {
            assert(0u16 & 0x01FFu16 == 0u16) by (bit_vector);
        }
        ArrayFault { bits: 0 }
    }

    /// Whether no flag is raised.
    pub fn is_empty(&self) -> (r: bool)
        ensures
            r == (self.bits == 0),
    {
        self.bits == 0
    }

    /// The raw bit pattern of the set.
    pub fn bits(&self) -> (r: u16)
        ensures
            r == self.bits,
    {
        self.bits
    }

    /// The set holding exactly the flags that `raw` has set, provided `raw`
    /// uses only documented flag bits; `None` otherwise.
    pub fn from_bits(raw: u16) -> (r: Option<ArrayFault>)
        ensures
            raw & FAULT_BITS_MASK == raw ==> r == Some(ArrayFault { bits: raw }),
            raw & FAULT_BITS_MASK != raw ==> r is None,
            r matches Some(f) ==> f.spec_valid(),
    {
        if raw & FAULT_BITS_MASK == raw {
            Some(ArrayFault { bits: raw })
        } else {
            None
        }
    }

    /// Whether every flag of `other` is also raised in `self`.
    pub fn contains(&self, other: ArrayFault) -> (r: bool)
        ensures
            r == (self.bits & other.bits == other.bits),
    {
        self.bits & other.bits == other.bits
    }

    /// The flags raised in either set.
    pub fn union(&self, other: ArrayFault) -> (r: ArrayFault)
        ensures
            r.bits == self.bits | other.bits,
            self.spec_valid() && other.spec_valid() ==> r.spec_valid(),
    {
        proof {
            let a = self.bits;
            let b = other.bits;
            assert(a & 0x01FFu16 == a && b & 0x01FFu16 == b ==> (a | b) & 0x01FFu16 == (a | b))
                by (bit_vector);
        }
        ArrayFault { bits: self.bits | other.bits }
    }

    /// The flags raised in both sets.
    pub fn intersection(&self, other: ArrayFault) -> (r: ArrayFault)
        ensures
            r.bits == self.bits & other.bits,
            self.spec_valid() && other.spec_valid() ==> r.spec_valid(),
    {
        proof {
            let a = self.bits;
            let b = other.bits;
            assert(a & 0x01FFu16 == a && b & 0x01FFu16 == b ==> (a & b) & 0x01FFu16 == (a & b))
                by (bit_vector);
        }
        ArrayFault { bits: self.bits & other.bits }
    }

    /// Overcurrent on the solar input (bit 0).
    pub fn overcurrent() -> (r: ArrayFault)
        ensures
            r.bits == 0x0001,
    {
        ArrayFault { bits: 0x0001 }
    }

    /// Shorted power FETs (bit 1).
    pub fn fets_shorted() -> (r: ArrayFault)
        ensures
            r.bits == 0x0002,
    {
        ArrayFault { bits: 0x0002 }
    }

    /// Firmware self-check fault (bit 2).
    pub fn software_bugs() -> (r: ArrayFault)
        ensures
            r.bits == 0x0004,
    {
        ArrayFault { bits: 0x0004 }
    }

    /// Battery high-voltage disconnect (bit 3).
    pub fn battery_hvd() -> (r: ArrayFault)
        ensures
            r.bits == 0x0008,
    {
        ArrayFault { bits: 0x0008 }
    }

    /// Array high-voltage disconnect (bit 4).
    pub fn array_hvd() -> (r: ArrayFault)
        ensures
            r.bits == 0x0010,
    {
        ArrayFault { bits: 0x0010 }
    }

    /// Settings edited in EEPROM (bit 5).
    pub fn eeprom_edit() -> (r: ArrayFault)
        ensures
            r.bits == 0x0020,
    {
        ArrayFault { bits: 0x0020 }
    }

    /// Remote temperature sensor shorted (bit 6).
    pub fn rts_shorted() -> (r: ArrayFault)
        ensures
            r.bits == 0x0040,
    {
        ArrayFault { bits: 0x0040 }
    }

    /// Remote temperature sensor disconnected (bit 7).
    pub fn rts_disconnected() -> (r: ArrayFault)
        ensures
            r.bits == 0x0080,
    {
        ArrayFault { bits: 0x0080 }
    }

    /// Internal temperature sensor failure (bit 8).
    pub fn internal_temp_sensor_fail() -> (r: ArrayFault)
        ensures
            r.bits == 0x0100,
    {
        ArrayFault { bits: 0x0100 }
    }
}

/// Decodes the fault-bit register.
///
/// Succeeds exactly when no bit above position 8 is set; the result then
/// holds precisely the flags whose bits are set in `raw`. Any undocumented
/// bit is a hard failure carrying the raw word.
pub fn decode_fault_set(raw: u16) -> (r: Result<ArrayFault, DecodeError>)
    ensures
        raw & FAULT_BITS_MASK == raw ==> r == Ok::<ArrayFault, DecodeError>(
            ArrayFault { bits: raw },
        ),
        raw & FAULT_BITS_MASK != raw ==> r == Err::<ArrayFault, DecodeError>(
            DecodeError::UnknownFaultBits(raw),
        ),
        r matches Ok(f) ==> f.spec_valid(),
{
    match ArrayFault::from_bits(raw) {
        Some(f) => Ok(f),
        None => Err(DecodeError::UnknownFaultBits(raw)),
    }
}

/// On a successful decode each of the nine flags is raised independently,
/// exactly when its own bit is set in the raw register word.
pub proof fn lemma_fault_flags_independent(raw: u16, f: ArrayFault)
    requires
        raw & FAULT_BITS_MASK == raw,
        f.bits == raw,
    ensures
        (f.bits & 0x0001 == 0x0001) <==> raw & 0x0001 != 0,
        (f.bits & 0x0002 == 0x0002) <==> raw & 0x0002 != 0,
        (f.bits & 0x0004 == 0x0004) <==> raw & 0x0004 != 0,
        (f.bits & 0x0008 == 0x0008) <==> raw & 0x0008 != 0,
        (f.bits & 0x0010 == 0x0010) <==> raw & 0x0010 != 0,
        (f.bits & 0x0020 == 0x0020) <==> raw & 0x0020 != 0,
        (f.bits & 0x0040 == 0x0040) <==> raw & 0x0040 != 0,
        (f.bits & 0x0080 == 0x0080) <==> raw & 0x0080 != 0,
        (f.bits & 0x0100 == 0x0100) <==> raw & 0x0100 != 0,
{
    assert((raw & 0x0001u16 == 0x0001) <==> raw & 0x0001u16 != 0) by (bit_vector);
    assert((raw & 0x0002u16 == 0x0002) <==> raw & 0x0002u16 != 0) by (bit_vector);
    assert((raw & 0x0004u16 == 0x0004) <==> raw & 0x0004u16 != 0) by (bit_vector);
    assert((raw & 0x0008u16 == 0x0008) <==> raw & 0x0008u16 != 0) by (bit_vector);
    assert((raw & 0x0010u16 == 0x0010) <==> raw & 0x0010u16 != 0) by (bit_vector);
    assert((raw & 0x0020u16 == 0x0020) <==> raw & 0x0020u16 != 0) by (bit_vector);
    assert((raw & 0x0040u16 == 0x0040) <==> raw & 0x0040u16 != 0) by (bit_vector);
    assert((raw & 0x0080u16 == 0x0080) <==> raw & 0x0080u16 != 0) by (bit_vector);
    assert((raw & 0x0100u16 == 0x0100) <==> raw & 0x0100u16 != 0) by (bit_vector);
}

} // verus!
