//! Client-side protocol core for a UDP-controlled DCC command station.
//!
//! The verified library covers the wire formats and the decision logic of the
//! driver: the outer length-prefixed frame, the inner XOR-checksummed XBus
//! sub-message, the bit-level state decoders (system telemetry, locomotive
//! state, speed and function bytes), and the pure request/response matching
//! rules that the asynchronous transport shell applies to the frame stream.

pub mod error;
pub mod messages;
pub mod packet;
pub mod station;
pub mod wire;

pub use station::Loco;
