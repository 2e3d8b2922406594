//! Fixed 16-byte telemetry snapshot of the station: track currents,
//! temperature and voltages as little-endian 16-bit fields, followed by
//! four status/capability bytes.  Decoding any other length is a hard
//! validation failure.

use vstd::prelude::*;

use crate::error::Z21Error;
use crate::wire::{i16_from_le, i16_le, u16_from_le, u16_le};

verus! {

/// System telemetry, reconstructed on every telemetry event.
#[derive(Clone, Copy, Debug)]
pub struct SystemState {
    /// Main-track current, milliamperes.
    pub main_current: i16,
    /// Programming-track current, milliamperes.
    pub prog_current: i16,
    /// Filtered main-track current, milliamperes.
    pub filtered_main_current: i16,
    /// Internal temperature, degrees Celsius.
    pub temperature: i16,
    /// Supply voltage, millivolts.
    pub supply_voltage: u16,
    /// Internal (track) voltage, millivolts.
    pub vcc_voltage: u16,
    /// Central status byte.
    pub central_state: u8,
    /// Extended central status byte.
    pub central_state_ex: u8,
    /// Reserved status byte.
    pub reserved: u8,
    /// Capability byte.
    pub capabilities: u8,
}

impl SystemState {
    /// Decodes the snapshot from its exact 16-byte wire form; any other
    /// length is rejected.
    pub fn try_from_bytes(data: &[u8]) -> (r: Result<SystemState, Z21Error>)
        ensures
            data@.len() != 16 ==> r == Err::<SystemState, Z21Error>(Z21Error::WrongLength),
            data@.len() == 16 ==> (r matches Ok(s)
                && s.main_current == i16_le(data@[0], data@[1])
                && s.prog_current == i16_le(data@[2], data@[3])
                && s.filtered_main_current == i16_le(data@[4], data@[5])
                && s.temperature == i16_le(data@[6], data@[7])
                && s.supply_voltage == u16_le(data@[8], data@[9])
                && s.vcc_voltage == u16_le(data@[10], data@[11])
                && s.central_state == data@[12]
                && s.central_state_ex == data@[13]
                && s.reserved == data@[14]
                && s.capabilities == data@[15]),
    {
        if data.len() != 16 {
            return Err(Z21Error::WrongLength);
        }
        Ok(SystemState {
            main_current: i16_from_le(data[0], data[1]),
            prog_current: i16_from_le(data[2], data[3]),
            filtered_main_current: i16_from_le(data[4], data[5]),
            temperature: i16_from_le(data[6], data[7]),
            supply_voltage: u16_from_le(data[8], data[9]),
            vcc_voltage: u16_from_le(data[10], data[11]),
            central_state: data[12],
            central_state_ex: data[13],
            reserved: data[14],
            capabilities: data[15],
        })
    }
}

} // verus!
