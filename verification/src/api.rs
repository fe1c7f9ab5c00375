//! The integer-valued parts of the presentation-layer response objects.
//! The float-valued parts (scaled voltages, currents and powers) are
//! derived outside the library from the snapshot's raw scale words.

use vstd::prelude::*;

use crate::arrayfault::ArrayFault;
use crate::arrayfault::FAULT_BITS_MASK;
use crate::codec::spec_temperature;
use crate::error::DecodeError;
use crate::sunsaverresponse::SunSaverResponse;

verus! {

/// The temperature section of a status response, in whole degrees C.
#[derive(Clone, Copy, Debug, PartialEq, Eq, Structural)]
pub struct ApiStatusResponseTemperature {
    /// Heatsink temperature.
    pub heatsink_temperature: i8,
    /// Battery temperature.
    pub battery_temperature: i8,
    /// Ambient temperature.
    pub ambient_temperature: i8,
    /// Remote sensor temperature.
    pub remote_temperature: i8,
}

impl ApiStatusResponseTemperature {
    /// Collects the four temperature channels of a snapshot.
    pub fn from_response(response: &SunSaverResponse) -> (r: ApiStatusResponseTemperature)
        ensures
            r.heatsink_temperature as int == spec_temperature(response.t_hs),
            r.battery_temperature as int == spec_temperature(response.t_batt),
            r.ambient_temperature as int == spec_temperature(response.t_amb),
            r.remote_temperature as int == spec_temperature(response.t_rts),
    {
        ApiStatusResponseTemperature {
            heatsink_temperature: response.heatsink_temperature(),
            battery_temperature: response.battery_temperature(),
            ambient_temperature: response.ambient_temperature(),
            remote_temperature: response.remote_temperature(),
        }
    }
}

/// The faults section of a status response.
#[derive(Clone, Copy, Debug, PartialEq, Eq, Structural)]
pub struct ApiStatusResponseFaults {
    /// The solar-input self-diagnostic fault flags.
    pub array: ArrayFault,
}

impl ApiStatusResponseFaults {
    /// Decodes the fault section of a snapshot, failing exactly when the
    /// snapshot's fault word has an undocumented bit set.
    pub fn from_response(response: &SunSaverResponse) -> (r: Result<
        ApiStatusResponseFaults,
        DecodeError,
    >)
        ensures
            response.array_fault & FAULT_BITS_MASK == response.array_fault ==> r == Ok::<
                ApiStatusResponseFaults,
                DecodeError,
            >(ApiStatusResponseFaults { array: ArrayFault { bits: response.array_fault } }),
            response.array_fault & FAULT_BITS_MASK != response.array_fault ==> r == Err::<
                ApiStatusResponseFaults,
                DecodeError,
            >(DecodeError::UnknownFaultBits(response.array_fault)),
    {
        match response.array_fault() {
            Ok(array) => Ok(ApiStatusResponseFaults { array }),
            Err(e) => Err(e),
        }
    }
}

} // verus!
