//! Command core for one locomotive: bound to a device address and a
//! throttle stepping, it builds every command-channel sub-message the
//! locomotive facade sends — info requests, drive commands, stops and
//! function control — and validates caller input before any wire traffic
//! would be attempted.

use vstd::prelude::*;

use crate::error::Z21Error;
use crate::messages::{
    encode_speed_byte, spec_speed_byte, DccThrottleSteps, XBusMessage,
};

verus! {

/// Sub-header of the locomotive get-info request.
pub const XBUS_LOCO_GET_INFO: u8 = 0xE3;

/// Sub-header of the locomotive drive/function command.
pub const XBUS_LOCO_DRIVE: u8 = 0xE4;

/// Sub-header of the locomotive info reply.
pub const XBUS_LOCO_INFO: u8 = 0xEF;

/// Sub-header of the locomotive function command (same wire value as the
/// drive command).
pub const XBUS_LOCO_FUNCTION: u8 = 0xE4;

/// First data byte of a get-info request.
pub const X_LOCO_GET_INFO_MODE: u8 = 0xF0;

/// First data byte of a function-control command.
pub const X_LOCO_FUNCTION_MODE: u8 = 0xF8;

/// Function action: turn the function off.
pub const FUNC_OFF: u8 = 0x00;

/// Function action: turn the function on.
pub const FUNC_ON: u8 = 0x01;

/// Function action: toggle the function.
pub const FUNC_TOGGLE: u8 = 0x02;

/// Drive byte of a normal stop (the decoder applies its braking curve).
pub const DRIVE_STOP: u8 = 0x00;

/// Drive byte of an emergency stop (power is cut immediately).
pub const DRIVE_HALT: u8 = 0x01;

/// High byte of a big-endian device address.
pub open spec fn addr_hi(addr: u16) -> u8 {
    (addr / 256) as u8
}

/// Low byte of a big-endian device address.
pub open spec fn addr_lo(addr: u16) -> u8 {
    (addr % 256) as u8
}

/// The address high byte as a function command carries it: addresses of
/// 128 and above get the two top bits set.
pub open spec fn func_addr_msb(addr: u16) -> u8 {
    if addr >= 128 {
        addr_hi(addr) | 0xC0
    } else {
        addr_hi(addr)
    }
}

/// The function-control byte: the action in the top two bits, the
/// function index in the low six.
pub open spec fn spec_function_byte(action: u8, function_index: u8) -> u8
    recommends
        action <= 2,
        function_index <= 31,
{
    (action << 6) | (function_index & 0x3F)
}

/// Packs a function action (off / on / toggle) and a function index
/// (F0 ..= F31) into the wire's function-control byte; rejects an
/// out-of-range index or action before any wire traffic is attempted.
pub fn encode_function_byte(action: u8, function_index: u8) -> (r: Result<u8, Z21Error>)
    ensures
        r is Ok <==> (action <= 2 && function_index <= 31),
        !(action <= 2 && function_index <= 31) ==> r == Err::<u8, Z21Error>(Z21Error::InvalidInput),
        r matches Ok(b) ==> b == spec_function_byte(action, function_index) && b == action * 64
            + function_index,
{
    if function_index > 31 {
        return Err(Z21Error::InvalidInput);
    }
    if action > 2 {
        return Err(Z21Error::InvalidInput);
    }
    let b = (action << 6) | (function_index & 0x3F);
    proof {
        assert(action <= 2 && function_index <= 31 ==> ((action << 6) | (function_index & 0x3F))
            == action * 64 + function_index) by (bit_vector);
    }
    Ok(b)
}

/// One controllable locomotive: its device address and the throttle
/// stepping fixed for the handle's lifetime.
#[derive(Clone, Copy, Debug)]
pub struct Loco {
    /// DCC address of the locomotive.
    pub address: u16,
    /// Throttle stepping used for every drive command of this handle.
    pub steps: DccThrottleSteps,
}

impl Loco {
    /// The device address fits the protocol's range (14 usable bits,
    /// 0 ..= 9999).
    pub open spec fn wf(&self) -> bool {
        self.address <= 9999
    }

    /// Binds a command core to a device address and stepping.
    pub fn new(address: u16, steps: DccThrottleSteps) -> (l: Loco)
        requires
            address <= 9999,
        ensures
            l.address == address,
            l.steps == steps,
            l.wf(),
    {
        Loco { address, steps }
    }

    /// The get-info request for this address; its reply decodes to the
    /// locomotive's state.
    pub fn info_request_message(&self) -> (m: XBusMessage)
        ensures
            m.x_header == XBUS_LOCO_GET_INFO,
            m.dbs@ == seq![X_LOCO_GET_INFO_MODE, addr_hi(self.address), addr_lo(self.address)],
            m.wf(),
    {
        let mut dbs: Vec<u8> = Vec::new();
        dbs.push(X_LOCO_GET_INFO_MODE);
        dbs.push((self.address / 256) as u8);
        dbs.push((self.address % 256) as u8);
        proof {
            assert(dbs@ =~= seq![
                X_LOCO_GET_INFO_MODE,
                addr_hi(self.address),
                addr_lo(self.address),
            ]);
        }
        XBusMessage::new_dbs_vec(XBUS_LOCO_GET_INFO, dbs)
    }

    /// The drive command carrying a raw drive byte: stepping coding,
    /// big-endian address, drive byte.
    pub fn drive_message(&self, drive_byte: u8) -> (m: XBusMessage)
        ensures
            m.x_header == XBUS_LOCO_DRIVE,
            m.dbs@ == seq![
                self.steps.spec_wire_value(),
                addr_hi(self.address),
                addr_lo(self.address),
                drive_byte,
            ],
            m.wf(),
    {
        let mut dbs: Vec<u8> = Vec::new();
        dbs.push(self.steps.wire_value());
        dbs.push((self.address / 256) as u8);
        dbs.push((self.address % 256) as u8);
        dbs.push(drive_byte);
        proof {
            assert(dbs@ =~= seq![
                self.steps.spec_wire_value(),
                addr_hi(self.address),
                addr_lo(self.address),
                drive_byte,
            ]);
        }
        XBusMessage::new_dbs_vec(XBUS_LOCO_DRIVE, dbs)
    }

    /// The drive command for a signed per-mille throttle setting; the
    /// drive byte is the speed mapping of this handle's stepping.
    pub fn drive_speed_message(&self, speed_per_mille: i16) -> (m: XBusMessage)
        requires
            -1000 <= speed_per_mille <= 1000,
        ensures
            m.x_header == XBUS_LOCO_DRIVE,
            m.dbs@ == seq![
                self.steps.spec_wire_value(),
                addr_hi(self.address),
                addr_lo(self.address),
                spec_speed_byte(self.steps, speed_per_mille as int),
            ],
            m.wf(),
    {
        let drive_byte = encode_speed_byte(self.steps, speed_per_mille);
        self.drive_message(drive_byte)
    }

    /// The normal-stop command: a drive command whose drive byte applies
    /// the decoder's braking curve.
    pub fn stop_message(&self) -> (m: XBusMessage)
        ensures
            m.x_header == XBUS_LOCO_DRIVE,
            m.dbs@ == seq![
                self.steps.spec_wire_value(),
                addr_hi(self.address),
                addr_lo(self.address),
                DRIVE_STOP,
            ],
            m.wf(),
    {
        self.drive_message(DRIVE_STOP)
    }

    /// The emergency-stop command: a drive command whose drive byte cuts
    /// power immediately.
    pub fn halt_message(&self) -> (m: XBusMessage)
        ensures
            m.x_header == XBUS_LOCO_DRIVE,
            m.dbs@ == seq![
                self.steps.spec_wire_value(),
                addr_hi(self.address),
                addr_lo(self.address),
                DRIVE_HALT,
            ],
            m.wf(),
    {
        self.drive_message(DRIVE_HALT)
    }

    /// The function-control command for one function and action; rejects
    /// an out-of-range index or action before any wire traffic would be
    /// attempted.
    pub fn function_message(&self, function_index: u8, action: u8) -> (r: Result<
        XBusMessage,
        Z21Error,
    >)
        ensures
            r is Ok <==> (action <= 2 && function_index <= 31),
            !(action <= 2 && function_index <= 31) ==> r == Err::<XBusMessage, Z21Error>(
                Z21Error::InvalidInput,
            ),
            r matches Ok(m) ==> ({
                &&& m.x_header == XBUS_LOCO_FUNCTION
                &&& m.dbs@ == seq![
                    X_LOCO_FUNCTION_MODE,
                    func_addr_msb(self.address),
                    addr_lo(self.address),
                    spec_function_byte(action, function_index),
                ]
                &&& m.wf()
            }),
    {
        let function_byte = match encode_function_byte(action, function_index) {
            Ok(b) => b,
            Err(e) => {
                return Err(e);
            },
        };
        let hi = (self.address / 256) as u8;
        let addr_msb = if self.address >= 128 {
            hi | 0xC0
        } else {
            hi
        };
        let mut dbs: Vec<u8> = Vec::new();
        dbs.push(X_LOCO_FUNCTION_MODE);
        dbs.push(addr_msb);
        dbs.push((self.address % 256) as u8);
        dbs.push(function_byte);
        proof {
            assert(dbs@ =~= seq![
                X_LOCO_FUNCTION_MODE,
                func_addr_msb(self.address),
                addr_lo(self.address),
                spec_function_byte(action, function_index),
            ]);
        }
        Ok(XBusMessage::new_dbs_vec(XBUS_LOCO_FUNCTION, dbs))
    }

    /// The headlight command: function F0, on or off.
    pub fn headlights_message(&self, on: bool) -> (m: XBusMessage)
        ensures
            m.x_header == XBUS_LOCO_FUNCTION,
            m.dbs@ == seq![
                X_LOCO_FUNCTION_MODE,
                func_addr_msb(self.address),
                addr_lo(self.address),
                spec_function_byte(if on { FUNC_ON } else { FUNC_OFF }, 0),
            ],
            m.wf(),
    {
        let action = if on {
            FUNC_ON
        } else {
            FUNC_OFF
        };
        match self.function_message(0, action) {
            Ok(m) => m,
            Err(_) => {
                proof {
                    assert(false);
                }
                XBusMessage::new_only_header(XBUS_LOCO_FUNCTION)
            },
        }
    }
}

} // verus!
