//! Pure protocol logic of the transport engine: the frame headers of the
//! command set, the builders for every outbound request the engine sends,
//! the parsers for the replies it correlates, and the filtering rules that
//! the background receive loop applies to the frame stream.
//!
//! The asynchronous shell around this library owns the socket and the
//! fan-out channel; every decision it takes — what bytes to send, whether
//! an inbound frame completes a pending wait — is computed here.

use vstd::prelude::*;

use crate::error::Z21Error;
use crate::messages::{xbus_bytes, xbus_decode_ok, XBusMessage, XBUS_HEADER};
use crate::packet::Packet;
use crate::wire::{lemma_u32_le_round_trip, push_u32_le, u32_from_le, u32_le, u32_le_bytes};
use vstd::slice::slice_subrange;

mod loco;

pub use loco::Loco;
pub use loco::{
    addr_hi, addr_lo, encode_function_byte, func_addr_msb, spec_function_byte, DRIVE_HALT,
    DRIVE_STOP, FUNC_OFF, FUNC_ON, FUNC_TOGGLE, XBUS_LOCO_DRIVE, XBUS_LOCO_FUNCTION,
    XBUS_LOCO_GET_INFO, XBUS_LOCO_INFO, X_LOCO_FUNCTION_MODE, X_LOCO_GET_INFO_MODE,
};

verus! {

/// Header of the get-serial-number request and its reply.
pub const LAN_GET_SERIAL_NUMBER: u16 = 0x10;

/// Header of the logout command that releases the session.
pub const LAN_LOGOFF: u16 = 0x30;

/// Header of the set-broadcast-flags command (payload: `u32` bitmask).
pub const LAN_SET_BROADCASTFLAGS: u16 = 0x50;

/// Header of the unsolicited system-state-changed event.
pub const LAN_SYSTEMSTATE_DATACHANGED: u16 = 0x84;

/// Header of the request-system-state command.
pub const LAN_SYSTEMSTATE_GETDATA: u16 = 0x85;

/// Sub-header of system commands such as track power on/off.
pub const X_SYSTEM_COMMAND: u8 = 0x21;

/// Data byte of the track-power-off system command.
pub const X_TRACK_POWER_OFF: u8 = 0x80;

/// Data byte of the track-power-on system command.
pub const X_TRACK_POWER_ON: u8 = 0x81;

/// Sub-header of the track-power-changed broadcast.
pub const X_BC_TRACK_POWER: u8 = 0x61;

/// Default event-subscription bitmask (locomotive and turnout info only).
pub const DEFAULT_BROADCAST_FLAGS: u32 = 0x00000001;

/// Default timeout in milliseconds for awaiting responses.
pub const DEFAULT_TIMEOUT_MS: u64 = 2000;

/// The request that opens the handshake and polls system telemetry.
pub fn system_state_request() -> (p: Packet)
    ensures
        p.header == LAN_SYSTEMSTATE_GETDATA,
        p.data@.len() == 0,
        p.wf(),
{
    Packet::with_header_and_data(LAN_SYSTEMSTATE_GETDATA, &[])
}

/// The get-serial-number request (empty payload).
pub fn serial_number_request() -> (p: Packet)
    ensures
        p.header == LAN_GET_SERIAL_NUMBER,
        p.data@.len() == 0,
        p.wf(),
{
    Packet::with_header_and_data(LAN_GET_SERIAL_NUMBER, &[])
}

/// The logout command sent at session teardown (empty payload).
pub fn logoff_packet() -> (p: Packet)
    ensures
        p.header == LAN_LOGOFF,
        p.data@.len() == 0,
        p.wf(),
{
    Packet::with_header_and_data(LAN_LOGOFF, &[])
}

/// The set-broadcast-flags command: the keep-alive task resends it
/// periodically to re-arm the station's own event filter.
pub fn broadcast_flags_packet(flags: u32) -> (p: Packet)
    ensures
        p.header == LAN_SET_BROADCASTFLAGS,
        p.data@ == u32_le_bytes(flags),
        p.wf(),
{
    let mut payload: Vec<u8> = Vec::new();
    push_u32_le(&mut payload, flags);
    Packet::with_header_and_data(LAN_SET_BROADCASTFLAGS, payload.as_slice())
}

/// Wraps a sub-message into a command-channel frame.
pub fn xbus_packet(msg: &XBusMessage) -> (p: Packet)
    requires
        msg.dbs@.len() + 6 <= u16::MAX,
    ensures
        p.header == XBUS_HEADER,
        p.data@ == xbus_bytes(msg.x_header, msg.dbs@, msg.xor),
        p.wf(),
{
    let bytes = msg.to_bytes();
    Packet::with_header_and_data(XBUS_HEADER, bytes.as_slice())
}

/// The system command that switches track voltage on or off.
pub fn track_power_message(on: bool) -> (m: XBusMessage)
    ensures
        m.x_header == X_SYSTEM_COMMAND,
        m.dbs@ == seq![if on { X_TRACK_POWER_ON } else { X_TRACK_POWER_OFF }],
        m.wf(),
{
    if on {
        XBusMessage::new_single(X_SYSTEM_COMMAND, X_TRACK_POWER_ON)
    } else {
        XBusMessage::new_single(X_SYSTEM_COMMAND, X_TRACK_POWER_OFF)
    }
}

/// Reads the 32-bit little-endian serial number out of a get-serial-number
/// reply's payload; fails when the reply carries fewer than four bytes.
pub fn parse_serial_number(p: &Packet) -> (r: Result<u32, Z21Error>)
    ensures
        p.data@.len() < 4 ==> r == Err::<u32, Z21Error>(Z21Error::TooShort),
        p.data@.len() >= 4 ==> (r matches Ok(v) && v == u32_le(
            p.data@[0],
            p.data@[1],
            p.data@[2],
            p.data@[3],
        )),
{
    if p.data.len() < 4 {
        return Err(Z21Error::TooShort);
    }
    Ok(u32_from_le(p.data[0], p.data[1], p.data[2], p.data[3]))
}

/// Round trip of the serial-number exchange: a reply whose payload holds
/// the four little-endian bytes of `serial` parses back to exactly
/// `serial`.
pub proof fn lemma_serial_round_trip(serial: u32)
    ensures
        ({
            let payload = u32_le_bytes(serial);
            &&& payload.len() == 4
            &&& u32_le(payload[0], payload[1], payload[2], payload[3]) == serial
        }),
{
    lemma_u32_le_round_trip(serial);
}

/// When a frame completes a wait for a command-channel reply with the
/// given sub-header: it must sit on the command channel, its length field
/// must leave a non-empty sub-message that fits the payload actually
/// received, the sub-message checksum must validate, and the sub-header
/// must match.
pub open spec fn xbus_frame_matches(p: Packet, expected: u8) -> bool {
    &&& p.header == XBUS_HEADER
    &&& p.data_len > 4
    &&& p.data_len - 4 <= p.data@.len()
    &&& xbus_decode_ok(p.data@.take(p.data_len - 4))
    &&& p.data@[0] == expected
}

/// The per-frame filter of a command-channel wait: decodes and validates
/// the sub-message carried by `p` and hands it out when its sub-header is
/// the expected one; anything else — wrong channel, empty or truncated
/// sub-message, bad checksum, other sub-header — is no match, and the
/// waiter keeps listening.
pub fn match_xbus_response(p: &Packet, expected: u8) -> (r: Option<XBusMessage>)
    ensures
        r is Some <==> xbus_frame_matches(*p, expected),
        r matches Some(m) ==> ({
            let sub = p.data@.take(p.data_len - 4);
            &&& m.x_header == expected
            &&& m.dbs@ == sub.subrange(1, sub.len() - 1)
            &&& m.xor == sub.last()
            &&& m.wf()
        }),
{
    if p.get_header() != XBUS_HEADER {
        return None;
    }
    let data_len = p.get_data_len();
    if data_len <= 4 {
        return None;
    }
    let end: usize = (data_len - 4) as usize;
    if end > p.data.len() {
        return None;
    }
    let payload = slice_subrange(p.data.as_slice(), 0, end);
    match XBusMessage::try_from_bytes(payload) {
        Ok(m) => {
            if m.get_x_header() == expected {
                Some(m)
            } else {
                None
            }
        },
        Err(_) => None,
    }
}

/// What a request-response waiter filtering on `header` resolves to, given
/// the frames published on the fan-out channel after it subscribed: the
/// first frame carrying that header, if any.
pub open spec fn first_with_header(frames: Seq<Packet>, header: u16) -> Option<Packet>
    decreases frames.len(),
{
    if frames.len() == 0 {
        None
    } else if frames[0].header == header {
        Some(frames[0])
    } else {
        first_with_header(frames.drop_first(), header)
    }
}

/// A waiter whose filter matches some published frame resolves, and it
/// resolves to a frame matching its own filter.
pub proof fn lemma_waiter_resolves(frames: Seq<Packet>, header: u16)
    requires
        exists|i: int| 0 <= i < frames.len() && frames[i].header == header,
    ensures
        first_with_header(frames, header) matches Some(p) && p.header == header,
    decreases frames.len(),
{
    if frames[0].header != header {
        let i = choose|i: int| 0 <= i < frames.len() && frames[i].header == header;
        assert(frames.drop_first()[i - 1] == frames[i]);
        lemma_waiter_resolves(frames.drop_first(), header);
    }
}

/// Concurrent correlation does not steal replies.  Every subscriber to
/// the fan-out channel receives its own copy of every frame published
/// after it subscribed, so what a waiter resolves to is a function of the
/// shared frame sequence and its own filter alone — another waiter
/// consuming the same frames, even with the same filter, changes nothing.
/// Whenever each waiter's filter matches some published frame, both
/// resolve, each to a frame matching its own filter.
pub proof fn lemma_concurrent_correlation(frames: Seq<Packet>, header1: u16, header2: u16)
    requires
        exists|i: int| 0 <= i < frames.len() && frames[i].header == header1,
        exists|j: int| 0 <= j < frames.len() && frames[j].header == header2,
    ensures
        first_with_header(frames, header1) matches Some(p1) && p1.header == header1,
        first_with_header(frames, header2) matches Some(p2) && p2.header == header2,
{
    lemma_waiter_resolves(frames, header1);
    lemma_waiter_resolves(frames, header2);
}

/// Scans a frame sequence as a waiter would and returns the position of
/// the first frame carrying `header`; `None` when no frame does.
pub fn first_match_index(frames: &Vec<Packet>, header: u16) -> (r: Option<usize>)
    ensures
        r matches Some(i) ==> i < frames@.len() && frames@[i as int].header == header && (forall|
            k: int,
        |
            0 <= k < i ==> frames@[k].header != header) && first_with_header(frames@, header)
            == Some(frames@[i as int]),
        r is None ==> (forall|k: int| 0 <= k < frames@.len() ==> frames@[k].header != header)
            && first_with_header(frames@, header) is None,
{
    let mut i: usize = 0;
    proof {
        assert(frames@.skip(0) =~= frames@);
    }
    while i < frames.len()
        invariant
            i <= frames@.len(),
            forall|k: int| 0 <= k < i ==> frames@[k].header != header,
            first_with_header(frames@, header) == first_with_header(
                frames@.skip(i as int),
                header,
            ),
        decreases frames@.len() - i,
    {
        if frames[i].get_header() == header {
            proof {
                assert(frames@.skip(i as int)[0] == frames@[i as int]);
            }
            return Some(i);
        }
        proof {
            assert(frames@.skip(i as int)[0] == frames@[i as int]);
            assert(frames@.skip(i as int).drop_first() =~= frames@.skip(i + 1));
        }
        i = i + 1;
    }
    proof {
        assert(frames@.skip(frames@.len() as int) =~= Seq::<Packet>::empty());
    }
    None
}

} // verus!
