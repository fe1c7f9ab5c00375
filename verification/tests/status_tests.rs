use sunsaver::decode_fault_set;
use sunsaver::decode_operating_state;
use sunsaver::decode_temperature;
use sunsaver::ApiStatusResponseFaults;
use sunsaver::ApiStatusResponseTemperature;
use sunsaver::ArrayFault;
use sunsaver::ChargeState;
use sunsaver::DecodeError;
use sunsaver::SunSaverResponse;

const DEFAULT_TEST_RAW_BITS: [u16; 44] = [
    0x1079, 0x11c9, 0x1074, 0x0035, 0x009a, 0x0017, 0x0017, 0x0017, 0x0019, 0x0005, 0x0000,
    0x1079, 0x1200, 0x0000, 0x1712, 0x0000, 0x1712, 0x004e, 0x0001, 0x0000, 0x0e13, 0x0000,
    0x0000, 0x0f2a, 0x0000, 0x0f2a, 0x0000, 0x26b6, 0x0000, 0x0001, 0x000b, 0x0006, 0x006b,
    0x10b1, 0x0123, 0x1640, 0x1009, 0x11f1, 0x004e, 0x002b, 0x0000, 0x0000, 0x0000, 0x0001,
];

#[test]
fn sun_saver_sunsaverresponse_from_raw_bits() {
    let response = SunSaverResponse::from_raw_bits(DEFAULT_TEST_RAW_BITS);

    assert_eq!(response.adc_vb_f, 0x1079);
    assert_eq!(response.adc_va_f, 0x11c9);
    assert_eq!(response.adc_vl_f, 0x1074);

    assert_eq!(response.adc_ic_f, 0x0035);
    assert_eq!(response.adc_il_f, 0x009a);

    assert_eq!(response.t_hs, 0x0017);
    assert_eq!(response.t_batt, 0x0017);
    assert_eq!(response.t_amb, 0x0017);
    assert_eq!(response.t_rts, 0x0019);

    assert_eq!(response.charge_state, 0x0005);
    assert_eq!(response.array_fault, 0x0000);
}

#[test]
fn sunsaverresponse_sunsaverresponse_from_raw_bits() {
    let response = SunSaverResponse::from_raw_bits(DEFAULT_TEST_RAW_BITS);

    assert_eq!(response.adc_vb_f, 0x1079);
    assert_eq!(response.adc_va_f, 0x11c9);
    assert_eq!(response.adc_vl_f, 0x1074);

    assert_eq!(response.adc_ic_f, 0x0035);
    assert_eq!(response.adc_il_f, 0x009a);

    assert_eq!(response.t_hs, 0x0017);
    assert_eq!(response.t_batt, 0x0017);
    assert_eq!(response.t_amb, 0x0017);
    assert_eq!(response.t_rts, 0x0019);

    assert_eq!(response.charge_state, 0x0005);
    assert_eq!(response.array_fault, 0x0000);
}

// The fixed-scale conversions are floating point and live outside the
// verified library; the snapshot exposes the raw scale words, and the
// documented formula (raw * full_scale / 32768) is applied here.
#[test]
fn sun_saver_sunsaverresponse_from_raw_bits_converted() {
    let response = SunSaverResponse::from_raw_bits(DEFAULT_TEST_RAW_BITS);

    assert_eq!((response.adc_vb_f as f32 * 100.0) / 32768.0, 12.869_263);
    assert_eq!((response.adc_va_f as f32 * 100.0) / 32768.0, 13.894_653);

    assert_eq!((response.adc_vl_f as f32 * 100.0) / 32768.0, 12.854_004);
    assert_eq!((response.adc_ic_f as f32 * 79.16) / 32768.0, 0.128_035_89);
    assert_eq!((response.adc_il_f as f32 * 79.16) / 32768.0, 0.372_028_83);

    assert_eq!(response.heatsink_temperature(), 23);
    assert_eq!(response.battery_temperature(), 23);
    assert_eq!(response.ambient_temperature(), 23);
    assert_eq!(response.remote_temperature(), 25);

    assert_eq!(response.charge_state().unwrap(), ChargeState::BulkCharge);
    assert!(response.array_fault().unwrap().is_empty());
}

#[test]
fn sunsaverresponse_sunsaverresponse_from_raw_bits_converted() {
    let response = SunSaverResponse::from_raw_bits(DEFAULT_TEST_RAW_BITS);

    assert_eq!((response.adc_vb_f as f32 * 100.0) / 32768.0, 12.869_263);
    assert_eq!((response.adc_va_f as f32 * 100.0) / 32768.0, 13.894_653);

    assert_eq!((response.adc_vl_f as f32 * 100.0) / 32768.0, 12.854_004);
    assert_eq!((response.adc_ic_f as f32 * 79.16) / 32768.0, 0.128_035_89);
    assert_eq!((response.adc_il_f as f32 * 79.16) / 32768.0, 0.372_028_83);

    assert_eq!(response.heatsink_temperature(), 23);
    assert_eq!(response.battery_temperature(), 23);
    assert_eq!(response.ambient_temperature(), 23);
    assert_eq!(response.remote_temperature(), 25);

    assert_eq!(response.charge_state().unwrap(), ChargeState::BulkCharge);
    assert!(response.array_fault().unwrap().is_empty());
}

#[test]
fn sun_saver_sunsaverresponse_charge_state() {
    assert_eq!(decode_operating_state(0u16).unwrap(), ChargeState::Start);
    assert_eq!(decode_operating_state(1u16).unwrap(), ChargeState::NightCheck);
    assert_eq!(decode_operating_state(2u16).unwrap(), ChargeState::Disconnect);
    assert_eq!(decode_operating_state(3u16).unwrap(), ChargeState::Night);
    assert_eq!(decode_operating_state(4u16).unwrap(), ChargeState::Fault);
    assert_eq!(decode_operating_state(5u16).unwrap(), ChargeState::BulkCharge);
    assert_eq!(decode_operating_state(6u16).unwrap(), ChargeState::Absorption);
    assert_eq!(decode_operating_state(7u16).unwrap(), ChargeState::Float);
    assert_eq!(decode_operating_state(8u16).unwrap(), ChargeState::Equalize);

    assert_eq!(0u16, ChargeState::Start as u16);
    assert_eq!(1u16, ChargeState::NightCheck as u16);
    assert_eq!(3u16, ChargeState::Night as u16);
    assert_eq!(2u16, ChargeState::Disconnect as u16);
    assert_eq!(4u16, ChargeState::Fault as u16);
    assert_eq!(5u16, ChargeState::BulkCharge as u16);
    assert_eq!(6u16, ChargeState::Absorption as u16);
    assert_eq!(7u16, ChargeState::Float as u16);
    assert_eq!(8u16, ChargeState::Equalize as u16);
}

#[test]
fn chargestate_sunsaverresponse_charge_state() {
    assert_eq!(decode_operating_state(0u16).unwrap(), ChargeState::Start);
    assert_eq!(decode_operating_state(1u16).unwrap(), ChargeState::NightCheck);
    assert_eq!(decode_operating_state(2u16).unwrap(), ChargeState::Disconnect);
    assert_eq!(decode_operating_state(3u16).unwrap(), ChargeState::Night);
    assert_eq!(decode_operating_state(4u16).unwrap(), ChargeState::Fault);
    assert_eq!(decode_operating_state(5u16).unwrap(), ChargeState::BulkCharge);
    assert_eq!(decode_operating_state(6u16).unwrap(), ChargeState::Absorption);
    assert_eq!(decode_operating_state(7u16).unwrap(), ChargeState::Float);
    assert_eq!(decode_operating_state(8u16).unwrap(), ChargeState::Equalize);

    assert_eq!(0u16, ChargeState::Start as u16);
    assert_eq!(1u16, ChargeState::NightCheck as u16);
    assert_eq!(3u16, ChargeState::Night as u16);
    assert_eq!(2u16, ChargeState::Disconnect as u16);
    assert_eq!(4u16, ChargeState::Fault as u16);
    assert_eq!(5u16, ChargeState::BulkCharge as u16);
    assert_eq!(6u16, ChargeState::Absorption as u16);
    assert_eq!(7u16, ChargeState::Float as u16);
    assert_eq!(8u16, ChargeState::Equalize as u16);
}

#[test]
fn sun_saver_sunsaverresponse_array_fault() {
    assert_eq!(decode_fault_set(0b0000_0000_0000_0000).unwrap(), ArrayFault::empty());
    assert_eq!(decode_fault_set(0b0000_0000_0000_0001).unwrap(), ArrayFault::overcurrent());
    assert_eq!(decode_fault_set(0b0000_0000_0000_0010).unwrap(), ArrayFault::fets_shorted());
    assert_eq!(
        decode_fault_set(0b0000_0000_0000_0011).unwrap(),
        ArrayFault::overcurrent().union(ArrayFault::fets_shorted())
    );
}

#[test]
fn arrayfault_sunsaverresponse_array_fault() {
    assert_eq!(decode_fault_set(0b0000_0000_0000_0000).unwrap(), ArrayFault::empty());
    assert_eq!(decode_fault_set(0b0000_0000_0000_0001).unwrap(), ArrayFault::overcurrent());
    assert_eq!(decode_fault_set(0b0000_0000_0000_0010).unwrap(), ArrayFault::fets_shorted());
    assert_eq!(
        decode_fault_set(0b0000_0000_0000_0011).unwrap(),
        ArrayFault::overcurrent().union(ArrayFault::fets_shorted())
    );
}

#[test]
fn charge_state_boundary_and_unknown_state_error() {
    assert_eq!(decode_operating_state(8).unwrap(), ChargeState::Equalize);
    assert_eq!(decode_operating_state(9), Err(DecodeError::UnknownState(9)));
    assert_eq!(decode_operating_state(0xFFFF), Err(DecodeError::UnknownState(0xFFFF)));
}

#[test]
fn fault_set_unknown_bits_error() {
    assert_eq!(decode_fault_set(0x0200), Err(DecodeError::UnknownFaultBits(0x0200)));
    assert_eq!(decode_fault_set(0x8001), Err(DecodeError::UnknownFaultBits(0x8001)));
    assert_eq!(decode_fault_set(0x01FF).unwrap().bits(), 0x01FF);
}

#[test]
fn fault_flags_compose() {
    let both = ArrayFault::battery_hvd().union(ArrayFault::rts_disconnected());
    assert!(both.contains(ArrayFault::battery_hvd()));
    assert!(both.contains(ArrayFault::rts_disconnected()));
    assert!(!both.contains(ArrayFault::overcurrent()));
    assert_eq!(both.bits(), 0x0008 | 0x0080);
    assert_eq!(both.intersection(ArrayFault::battery_hvd()), ArrayFault::battery_hvd());
    assert_eq!(
        ArrayFault::internal_temp_sensor_fail()
            .intersection(ArrayFault::eeprom_edit()),
        ArrayFault::empty()
    );
}

#[test]
fn decode_temperature_truncates_to_signed_byte() {
    assert_eq!(decode_temperature(0x0017), 23);
    assert_eq!(decode_temperature(0x1640), 0x40);
    assert_eq!(decode_temperature(0x00FB), -5);
    assert_eq!(decode_temperature(0xFF80), -128);
    assert_eq!(decode_temperature(0x0000), 0);
}

#[test]
fn decode_status_propagates_the_first_failure() {
    let response = SunSaverResponse::from_raw_bits(DEFAULT_TEST_RAW_BITS);
    let (state, faults) = response.decode_status().unwrap();
    assert_eq!(state, ChargeState::BulkCharge);
    assert!(faults.is_empty());

    // a bad charge state is reported even when the fault word is bad too
    let mut corrupt = DEFAULT_TEST_RAW_BITS;
    corrupt[9] = 0x0009;
    corrupt[10] = 0x0200;
    let response = SunSaverResponse::from_raw_bits(corrupt);
    assert_eq!(response.decode_status(), Err(DecodeError::UnknownState(9)));

    let mut corrupt = DEFAULT_TEST_RAW_BITS;
    corrupt[10] = 0x0200;
    let response = SunSaverResponse::from_raw_bits(corrupt);
    assert_eq!(response.decode_status(), Err(DecodeError::UnknownFaultBits(0x0200)));
}

#[test]
fn api_temperature_section_from_snapshot() {
    let response = SunSaverResponse::from_raw_bits(DEFAULT_TEST_RAW_BITS);
    let section = ApiStatusResponseTemperature::from_response(&response);
    assert_eq!(section.heatsink_temperature, 23);
    assert_eq!(section.battery_temperature, 23);
    assert_eq!(section.ambient_temperature, 23);
    assert_eq!(section.remote_temperature, 25);
}

#[test]
fn api_faults_section_from_snapshot() {
    let response = SunSaverResponse::from_raw_bits(DEFAULT_TEST_RAW_BITS);
    let section = ApiStatusResponseFaults::from_response(&response).unwrap();
    assert!(section.array.is_empty());

    let mut corrupt = DEFAULT_TEST_RAW_BITS;
    corrupt[10] = 0x0400;
    let response = SunSaverResponse::from_raw_bits(corrupt);
    assert_eq!(
        ApiStatusResponseFaults::from_response(&response),
        Err(DecodeError::UnknownFaultBits(0x0400))
    );
}
