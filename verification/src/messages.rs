//! Semantic message formats carried by the datagram protocol: the
//! checksummed command-channel sub-message and the bit-level state
//! decoders for system telemetry and locomotive state.

mod loco_state;
mod system_state;
mod xbus_message;

pub use loco_state::DccThrottleSteps;
pub use loco_state::LocoState;
pub use loco_state::{
    byte_bit, decode_speed_per_mille, encode_speed_byte, lemma_loco_fields_monotonic,
    lemma_speed_round_trip, loco_decode_ok, loco_state_matches, spec_busy, spec_decode_speed,
    spec_double_traction, spec_function_bit, spec_loco_address, spec_smart_search, spec_speed,
    spec_speed_byte, spec_stepping, spec_stepping_of_bits, speed_mag, stepping_of_bits,
};
pub use system_state::SystemState;
pub use xbus_message::XBusMessage;
pub use xbus_message::XBUS_HEADER;
pub use xbus_message::{
    lemma_checksum_detects_corruption, lemma_sub_message_round_trip, lemma_xor_fold_acc,
    lemma_xor_fold_push, lemma_xor_fold_update, xbus_bytes, xbus_decode_ok, xor_fold,
};
