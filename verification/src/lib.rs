//! Decoding engine for a solar charge controller's fixed register map.
//!
//! Raw 16-bit register words, fetched over a serial transport, are turned
//! into typed telemetry (voltages and currents as raw scale words, signed
//! temperatures, a closed set of charge states, a fixed set of fault flags)
//! and into daily log records (24-bit packed counters, sentinel filtering,
//! chronological ordering). A bounded-retry block reader plans and tracks
//! the multi-block register reads that assemble the raw buffers.

pub mod api;
pub mod arrayfault;
pub mod chargestate;
pub mod codec;
pub mod error;
pub mod loggedresponse;
pub mod loggedresponseday;
pub mod sunsaver_connection;
pub mod sunsaverresponse;

pub use api::ApiStatusResponseFaults;
pub use api::ApiStatusResponseTemperature;
pub use arrayfault::ArrayFault;
pub use arrayfault::decode_fault_set;
pub use chargestate::ChargeState;
pub use chargestate::decode_operating_state;
pub use codec::decode_temperature;
pub use codec::words_from_bytes;
pub use error::DecodeError;
pub use error::TransportError;
pub use loggedresponse::LoggedResponse;
pub use loggedresponseday::LoggedResponseDay;
pub use sunsaver_connection::logged_read_blocks;
pub use sunsaver_connection::status_read_blocks;
pub use sunsaver_connection::BlockReader;
pub use sunsaver_connection::BlockSpec;
pub use sunsaver_connection::SunSaverConnection;
pub use sunsaver_connection::READ_ATTEMPTS;
pub use sunsaver_connection::RETRY_WAIT_MS;
pub use sunsaverresponse::SunSaverResponse;
