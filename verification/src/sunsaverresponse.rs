//! The live telemetry snapshot: eleven consumed words of the 44-word
//! status buffer, kept as raw register values plus typed accessors.

use vstd::prelude::*;

use crate::arrayfault::ArrayFault;
use crate::arrayfault::FAULT_BITS_MASK;
use crate::arrayfault::decode_fault_set;
use crate::chargestate::ChargeState;
use crate::chargestate::decode_operating_state;
use crate::chargestate::spec_charge_state;
use crate::codec::decode_temperature;
use crate::codec::spec_temperature;
use crate::error::DecodeError;

verus! {

/// One decoded live-status snapshot. The raw buffer's words 0 through 10
/// are kept in address order; words 11 through 43 are reserved and ignored.
/// Voltage and current words carry their fixed-scale raw values (the
/// full-scale constant corresponds to a raw reading of 32768).
#[derive(Clone, Copy, Debug, PartialEq, Eq, Structural)]
pub struct SunSaverResponse {
    /// Battery voltage, filtered (word 0, 100.0 full scale).
    pub adc_vb_f: u16,
    /// Solar input voltage (word 1, 100.0 full scale).
    pub adc_va_f: u16,
    /// Load voltage (word 2, 100.0 full scale).
    pub adc_vl_f: u16,
    /// Battery charge current, filtered (word 3, 79.16 full scale).
    pub adc_ic_f: u16,
    /// Load current, filtered (word 4, 79.16 full scale).
    pub adc_il_f: u16,
    /// Heatsink temperature (word 5, signed low byte, degrees C).
    pub t_hs: u16,
    /// Battery temperature (word 6, signed low byte, degrees C).
    pub t_batt: u16,
    /// Ambient temperature (word 7, signed low byte, degrees C).
    pub t_amb: u16,
    /// Remote sensor temperature (word 8, signed low byte, degrees C).
    pub t_rts: u16,
    /// Charge state (word 9, one of nine documented states).
    pub charge_state: u16,
    /// Fault bit-field (word 10, nine documented flags).
    pub array_fault: u16,
}

/// The snapshot a 44-word status buffer decodes to: words 0 through 10 in
/// address order.
pub open spec fn spec_status_from_raw(raw: Seq<u16>) -> SunSaverResponse {
    SunSaverResponse {
        adc_vb_f: raw[0],
        adc_va_f: raw[1],
        adc_vl_f: raw[2],
        adc_ic_f: raw[3],
        adc_il_f: raw[4],
        t_hs: raw[5],
        t_batt: raw[6],
        t_amb: raw[7],
        t_rts: raw[8],
        charge_state: raw[9],
        array_fault: raw[10],
    }
}

impl SunSaverResponse {
    /// Assembles a snapshot from one 44-word raw status buffer: words 0
    /// through 10 are consumed at their fixed offsets, the rest ignored.
    /// Never fails; out-of-set state or fault words surface as errors from
    /// the typed accessors instead.
    pub fn from_raw_bits(raw_data: [u16; 44]) -> (r: SunSaverResponse)
        ensures
            r == spec_status_from_raw(raw_data@),
    {
        SunSaverResponse {
            adc_vb_f: raw_data[0],
            adc_va_f: raw_data[1],
            adc_vl_f: raw_data[2],
            adc_ic_f: raw_data[3],
            adc_il_f: raw_data[4],
            t_hs: raw_data[5],
            t_batt: raw_data[6],
            t_amb: raw_data[7],
            t_rts: raw_data[8],
            charge_state: raw_data[9],
            array_fault: raw_data[10],
        }
    }

    /// Heatsink temperature in whole degrees C.
    pub fn heatsink_temperature(&self) -> (r: i8)
        ensures
            r as int == spec_temperature(self.t_hs),
    {
        decode_temperature(self.t_hs)
    }

    /// Battery temperature in whole degrees C.
    pub fn battery_temperature(&self) -> (r: i8)
        ensures
            r as int == spec_temperature(self.t_batt),
    {
        decode_temperature(self.t_batt)
    }

    /// Ambient temperature in whole degrees C.
    pub fn ambient_temperature(&self) -> (r: i8)
        ensures
            r as int == spec_temperature(self.t_amb),
    {
        decode_temperature(self.t_amb)
    }

    /// Remote temperature sensor reading in whole degrees C.
    pub fn remote_temperature(&self) -> (r: i8)
        ensures
            r as int == spec_temperature(self.t_rts),
    {
        decode_temperature(self.t_rts)
    }

    /// The snapshot's charge state, failing on a value outside the nine
    /// documented states.
    pub fn charge_state(&self) -> (r: Result<ChargeState, DecodeError>)
        ensures
            self.charge_state <= 8 ==> r == Ok::<ChargeState, DecodeError>(
                spec_charge_state(self.charge_state),
            ),
            self.charge_state > 8 ==> r == Err::<ChargeState, DecodeError>(
                DecodeError::UnknownState(self.charge_state),
            ),
    {
        decode_operating_state(self.charge_state)
    }

    /// Decodes the snapshot's two closed-set registers together, as a
    /// status read consumes them: the first decode failure is propagated
    /// (the charge state's, then the fault bits'), and only a snapshot
    /// whose closed-set words are both documented yields a result. The
    /// scaled-value and temperature conversions are infallible and are not
    /// gated here.
    pub fn decode_status(&self) -> (r: Result<(ChargeState, ArrayFault), DecodeError>)
        ensures
            self.charge_state > 8 ==> r == Err::<(ChargeState, ArrayFault), DecodeError>(
                DecodeError::UnknownState(self.charge_state),
            ),
            self.charge_state <= 8 && self.array_fault & FAULT_BITS_MASK != self.array_fault
                ==> r == Err::<(ChargeState, ArrayFault), DecodeError>(
                DecodeError::UnknownFaultBits(self.array_fault),
            ),
            self.charge_state <= 8 && self.array_fault & FAULT_BITS_MASK == self.array_fault
                ==> r == Ok::<(ChargeState, ArrayFault), DecodeError>(
                (spec_charge_state(self.charge_state), ArrayFault { bits: self.array_fault }),
            ),
    {
        let state = match self.charge_state() {
            Ok(state) => state,
            Err(e) => {
                return Err(e);
            },
        };
        let faults = match self.array_fault() {
            Ok(faults) => faults,
            Err(e) => {
                return Err(e);
            },
        };
        Ok((state, faults))
    }

    /// The snapshot's fault flags, failing on any undocumented bit.
    pub fn array_fault(&self) -> (r: Result<ArrayFault, DecodeError>)
        ensures
            self.array_fault & FAULT_BITS_MASK == self.array_fault ==> r == Ok::<
                ArrayFault,
                DecodeError,
            >(ArrayFault { bits: self.array_fault }),
            self.array_fault & FAULT_BITS_MASK != self.array_fault ==> r == Err::<
                ArrayFault,
                DecodeError,
            >(DecodeError::UnknownFaultBits(self.array_fault)),
    {
        decode_fault_set(self.array_fault)
    }
}

} // verus!
