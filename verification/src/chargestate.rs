//! The controller's charge state: a closed set of nine named states,
//! reported by the device as an integer in `0 ..= 8`.

use vstd::prelude::*;

use crate::error::DecodeError;

verus! {

/// One of the nine documented charge states, in register-value order:
/// `Start` is reported as `0`, `Equalize` as `8`.
#[derive(Clone, Copy, Debug, PartialEq, Eq, Structural)]
pub enum ChargeState {
    Start,
    NightCheck,
    Disconnect,
    Night,
    Fault,
    BulkCharge,
    Absorption,
    Float,
    Equalize,
}

/// The state that a raw register value in `0 ..= 8` names.
pub open spec fn spec_charge_state(raw: u16) -> ChargeState {
    if raw == 0 {
        ChargeState::Start
    } else if raw == 1 {
        ChargeState::NightCheck
    } else if raw == 2 {
        ChargeState::Disconnect
    } else if raw == 3 {
        ChargeState::Night
    } else if raw == 4 {
        ChargeState::Fault
    } else if raw == 5 {
        ChargeState::BulkCharge
    } else if raw == 6 {
        ChargeState::Absorption
    } else if raw == 7 {
        ChargeState::Float
    } else {
        ChargeState::Equalize
    }
}

/// The register value that reports a given state.
pub open spec fn spec_charge_state_value(state: ChargeState) -> u16 {
    match state {
        ChargeState::Start => 0,
        ChargeState::NightCheck => 1,
        ChargeState::Disconnect => 2,
        ChargeState::Night => 3,
        ChargeState::Fault => 4,
        ChargeState::BulkCharge => 5,
        ChargeState::Absorption => 6,
        ChargeState::Float => 7,
        ChargeState::Equalize => 8,
    }
}

/// Decodes the charge-state register.
///
/// The set of states is closed: every value in `0 ..= 8` names exactly one
/// state, and any other value is a hard failure carrying the raw word.
/// There is no fallback state.
pub fn decode_operating_state(raw: u16) -> (r: Result<ChargeState, DecodeError>)
    ensures
        raw <= 8 ==> r == Ok::<ChargeState, DecodeError>(spec_charge_state(raw)),
        raw > 8 ==> r == Err::<ChargeState, DecodeError>(DecodeError::UnknownState(raw)),
{
    match raw {
        0 => Ok(ChargeState::Start),
        1 => Ok(ChargeState::NightCheck),
        2 => Ok(ChargeState::Disconnect),
        3 => Ok(ChargeState::Night),
        4 => Ok(ChargeState::Fault),
        5 => Ok(ChargeState::BulkCharge),
        6 => Ok(ChargeState::Absorption),
        7 => Ok(ChargeState::Float),
        8 => Ok(ChargeState::Equalize),
        _ => Err(DecodeError::UnknownState(raw)),
    }
}

impl ChargeState {
    /// The register value that reports this state; the exact inverse of
    /// `decode_operating_state` on its successful range.
    pub fn register_value(&self) -> (r: u16)
        ensures
            r == spec_charge_state_value(*self),
            r <= 8,
            spec_charge_state(r) == *self,
    {
        match self {
            ChargeState::Start => 0,
            ChargeState::NightCheck => 1,
            ChargeState::Disconnect => 2,
            ChargeState::Night => 3,
            ChargeState::Fault => 4,
            ChargeState::BulkCharge => 5,
            ChargeState::Absorption => 6,
            ChargeState::Float => 7,
            ChargeState::Equalize => 8,
        }
    }
}

/// Decoding a state's own register value gives that state back: the nine
/// states and the values `0 ..= 8` correspond one to one.
pub proof fn lemma_charge_state_round_trip(state: ChargeState, raw: u16)
    ensures
        spec_charge_state(spec_charge_state_value(state)) == state,
        raw <= 8 ==> spec_charge_state_value(spec_charge_state(raw)) == raw,
{
}

} // verus!
