//! Locomotive state: the variable-length decode of an info-reply
//! sub-message, and the speed-byte mapping between throttle percentages
//! and the wire's direction-bit-plus-magnitude coding.
//!
//! Speeds are carried here in per-mille of full throttle (-1000 ..= 1000),
//! negative for reverse, so that the mapping is exact integer arithmetic.

use vstd::prelude::*;

use crate::error::Z21Error;
use crate::messages::xbus_message::{xbus_decode_ok, XBusMessage};
use vstd::arithmetic::div_mod::{lemma_div_is_ordered, lemma_div_is_ordered_by_denominator};

verus! {

/// DCC throttle resolution: a closed enumeration carrying both its wire
/// coding and its step count.
#[derive(Clone, Copy, Debug, PartialEq, Eq, Structural)]
pub enum DccThrottleSteps {
    Steps14,
    Steps28,
    Steps128,
}

impl DccThrottleSteps {
    /// The fixed numeric value that identifies this stepping on the wire.
    pub open spec fn spec_wire_value(self) -> u8 {
        match self {
            DccThrottleSteps::Steps14 => 0x10,
            DccThrottleSteps::Steps28 => 0x12,
            DccThrottleSteps::Steps128 => 0x13,
        }
    }

    pub fn wire_value(self) -> (r: u8)
        ensures
            r == self.spec_wire_value(),
    {
        match self {
            DccThrottleSteps::Steps14 => 0x10,
            DccThrottleSteps::Steps28 => 0x12,
            DccThrottleSteps::Steps128 => 0x13,
        }
    }

    /// How many discrete throttle positions this stepping offers.
    pub open spec fn spec_step_count(self) -> u8 {
        match self {
            DccThrottleSteps::Steps14 => 14,
            DccThrottleSteps::Steps28 => 28,
            DccThrottleSteps::Steps128 => 128,
        }
    }

    pub fn step_count(self) -> (r: u8)
        ensures
            r == self.spec_step_count(),
    {
        match self {
            DccThrottleSteps::Steps14 => 14,
            DccThrottleSteps::Steps28 => 28,
            DccThrottleSteps::Steps128 => 128,
        }
    }
}

impl Default for DccThrottleSteps {
    /// The default throttle resolution is 128 steps.
    fn default() -> (r: Self)
        ensures
            r == DccThrottleSteps::Steps128,
    {
        DccThrottleSteps::Steps128
    }
}

/// How the stepping bits of an info reply decode: `0` is 14 steps, `2` is
/// 28 steps, `4` is 128 steps, everything else is a reserved coding.
pub open spec fn spec_stepping_of_bits(b: u8) -> Option<DccThrottleSteps> {
    if b & 0x07 == 0 {
        Some(DccThrottleSteps::Steps14)
    } else if b & 0x07 == 2 {
        Some(DccThrottleSteps::Steps28)
    } else if b & 0x07 == 4 {
        Some(DccThrottleSteps::Steps128)
    } else {
        None
    }
}

/// Decodes the stepping bits of an info reply.
pub fn stepping_of_bits(b: u8) -> (r: Option<DccThrottleSteps>)
    ensures
        r == spec_stepping_of_bits(b),
{
    let bits = b & 0x07;
    if bits == 0 {
        Some(DccThrottleSteps::Steps14)
    } else if bits == 2 {
        Some(DccThrottleSteps::Steps28)
    } else if bits == 4 {
        Some(DccThrottleSteps::Steps128)
    } else {
        None
    }
}

/// The wire speed byte for a per-mille throttle setting: the magnitude is
/// the setting scaled by the step count, truncated toward zero, and the
/// top bit is set exactly when the signed setting is positive.  Zero in
/// either direction encodes as a stationary byte with the forward bit
/// unset.
pub open spec fn spec_speed_byte(steps: DccThrottleSteps, speed_per_mille: int) -> u8
    recommends
        -1000 <= speed_per_mille <= 1000,
{
    let mag = speed_mag(speed_per_mille) * steps.spec_step_count() / 1000;
    if speed_per_mille > 0 {
        (mag as u8) | 0x80
    } else {
        mag as u8
    }
}

/// Magnitude of a signed per-mille setting.
pub open spec fn speed_mag(speed_per_mille: int) -> int {
    if speed_per_mille >= 0 {
        speed_per_mille
    } else {
        -speed_per_mille
    }
}

/// Encodes a per-mille throttle setting into the wire speed byte for the
/// given stepping.
pub fn encode_speed_byte(steps: DccThrottleSteps, speed_per_mille: i16) -> (r: u8)
    requires
        -1000 <= speed_per_mille <= 1000,
    ensures
        r == spec_speed_byte(steps, speed_per_mille as int),
{
    let mag: u32 = if speed_per_mille >= 0 {
        speed_per_mille as u32
    } else {
        (-(speed_per_mille as i32)) as u32
    };
    let sc = steps.step_count();
    proof {
        assert(steps.spec_step_count() == 14 || steps.spec_step_count() == 28
            || steps.spec_step_count() == 128);
        assert(mag * sc <= 128000);
    }
    let mapped: u32 = mag * (sc as u32) / 1000;
    proof {
        assert(mapped <= 128);
    }
    let mapped_byte = mapped as u8;
    if speed_per_mille > 0 {
        mapped_byte | 0x80
    } else {
        mapped_byte
    }
}

/// The signed per-mille setting that a wire speed byte decodes to under
/// the given stepping: the low seven bits scaled back by the step count,
/// negated when the top (forward) bit is unset.
pub open spec fn spec_decode_speed(steps: DccThrottleSteps, b: u8) -> int {
    let mag = (b & 0x7F) * 1000 / (steps.spec_step_count() as int);
    if b & 0x80 != 0 {
        mag
    } else {
        -mag
    }
}

/// Decodes a wire speed byte back into a signed per-mille setting.
pub fn decode_speed_per_mille(steps: DccThrottleSteps, b: u8) -> (r: i16)
    ensures
        r == spec_decode_speed(steps, b),
{
    let mag7: u32 = (b & 0x7F) as u32;
    proof {
        assert(b & 0x7F < 128) by (bit_vector);
    }
    let sc = steps.step_count();
    proof {
        assert(steps.spec_step_count() == 14 || steps.spec_step_count() == 28
            || steps.spec_step_count() == 128);
    }
    let mag: u32 = mag7 * 1000 / (sc as u32);
    proof {
        lemma_div_is_ordered_by_denominator((mag7 * 1000) as int, 14, sc as int);
        lemma_div_is_ordered((mag7 * 1000) as int, 127000, 14);
        assert(mag <= 9072);
    }
    if b & 0x80 != 0 {
        mag as i16
    } else {
        -(mag as i16)
    }
}

/// Magnitude round trip of the speed mapping: scaling a per-mille value
/// down to a step magnitude and back loses at most one step.
proof fn lemma_mag_round_trip(p: int, sc: int)
    requires
        0 <= p <= 1000,
        sc == 14 || sc == 28 || sc == 128,
    ensures
        ({
            let m = p * sc / 1000;
            let q = m * 1000 / sc;
            &&& 0 <= q <= p
            &&& p - q <= 1000int / sc + 1
        }),
{
    let m = p * sc / 1000;
    let q = m * 1000 / sc;
    assert(1000 * m <= p * sc < 1000 * (m + 1));
    assert(sc * q <= 1000 * m < sc * (q + 1));
}

/// Round trip of the speed-byte mapping: for any in-range per-mille
/// setting, the encoded byte carries the direction in its top bit exactly
/// when the setting is positive, and decoding it under the same stepping
/// reproduces the setting to within one throttle step, never overshooting
/// its magnitude.  Full throttle under 128 steps is the one setting whose
/// magnitude does not fit the seven wire bits, so it is excluded.
pub proof fn lemma_speed_round_trip(steps: DccThrottleSteps, speed_per_mille: int)
    requires
        -1000 <= speed_per_mille <= 1000,
        steps == DccThrottleSteps::Steps128 ==> -1000 < speed_per_mille < 1000,
    ensures
        ({
            let b = spec_speed_byte(steps, speed_per_mille);
            let back = spec_decode_speed(steps, b);
            let sc = steps.spec_step_count() as int;
            &&& (b & 0x80 != 0 <==> speed_per_mille > 0)
            &&& (speed_per_mille > 0 ==> 0 <= back <= speed_per_mille && speed_per_mille - back
                <= 1000int / sc + 1)
            &&& (speed_per_mille <= 0 ==> speed_per_mille <= back <= 0 && back - speed_per_mille
                <= 1000int / sc + 1)
        }),
{
    let sc = steps.spec_step_count() as int;
    let p = speed_mag(speed_per_mille);
    let m = p * sc / 1000;
    assert(sc == 14 || sc == 28 || sc == 128);
    lemma_mag_round_trip(p, sc);
    assert(m <= 127) by {
        assert(1000 * m <= p * sc);
    }
    let mu = m as u8;
    let b = spec_speed_byte(steps, speed_per_mille);
    if speed_per_mille > 0 {
        assert(b == mu | 0x80);
        assert(mu < 128 ==> ((mu | 0x80) & 0x80 != 0) && ((mu | 0x80) & 0x7F == mu))
            by (bit_vector);
    } else {
        assert(b == mu);
        assert(mu < 128 ==> (mu & 0x80 == 0) && (mu & 0x7F == mu)) by (bit_vector);
    }
}

/// Bit `j` of a byte, counted from the least significant end.
pub open spec fn byte_bit(b: u8, j: u8) -> bool
    recommends
        j < 8,
{
    b & (1u8 << j) != 0
}

/// The 14-bit address of an info reply: the two highest bits of the first
/// address byte are ignored; the address is carried big-endian.
pub open spec fn spec_loco_address(d: Seq<u8>) -> u16
    recommends
        d.len() >= 2,
{
    ((d[0] & 0x3F) * 256 + d[1]) as u16
}

/// The busy flag, present from the third data byte on.
pub open spec fn spec_busy(d: Seq<u8>) -> Option<bool> {
    if d.len() >= 3 {
        Some(d[2] & 0x08 != 0)
    } else {
        None
    }
}

/// The throttle stepping, present from the third data byte on; `None` of
/// the inner decode means a reserved coding, which fails the whole decode.
pub open spec fn spec_stepping(d: Seq<u8>) -> Option<DccThrottleSteps> {
    if d.len() >= 3 {
        spec_stepping_of_bits(d[2])
    } else {
        None
    }
}

/// A data vector the locomotive-state decoder accepts: both address bytes
/// present, and no reserved stepping coding when the stepping byte is
/// present.
pub open spec fn loco_decode_ok(d: Seq<u8>) -> bool {
    &&& d.len() >= 2
    &&& (d.len() >= 3 ==> spec_stepping_of_bits(d[2]) is Some)
}

/// The signed per-mille speed, present from the fourth data byte on; it
/// can only be decoded once the stepping from the third byte is known.
pub open spec fn spec_speed(d: Seq<u8>) -> Option<int> {
    if d.len() >= 4 {
        match spec_stepping_of_bits(d[2]) {
            Some(st) => Some(spec_decode_speed(st, d[3])),
            None => None,
        }
    } else {
        None
    }
}

/// The double-traction flag, present from the fifth data byte on.
pub open spec fn spec_double_traction(d: Seq<u8>) -> Option<bool> {
    if d.len() >= 5 {
        Some(d[4] & 0x40 != 0)
    } else {
        None
    }
}

/// The smart-search flag, present from the fifth data byte on.
pub open spec fn spec_smart_search(d: Seq<u8>) -> Option<bool> {
    if d.len() >= 5 {
        Some(d[4] & 0x20 != 0)
    } else {
        None
    }
}

/// Function flag `k` (F0 ..= F31) as the wire carries it.  The fifth data
/// byte packs F0 ..= F4 in a fixed, non-contiguous order; later bytes pack
/// eight (finally three) flags each, least significant bit first.  A flag
/// whose byte is absent reads as off.
pub open spec fn spec_function_bit(d: Seq<u8>, k: int) -> bool
    recommends
        d.len() >= 5,
        0 <= k < 32,
{
    if k == 0 {
        d[4] & 0x10 != 0
    } else if k == 1 {
        d[4] & 0x01 != 0
    } else if k == 2 {
        d[4] & 0x02 != 0
    } else if k == 3 {
        d[4] & 0x04 != 0
    } else if k == 4 {
        d[4] & 0x08 != 0
    } else if k < 13 {
        d.len() >= 6 && byte_bit(d[5], (k - 5) as u8)
    } else if k < 21 {
        d.len() >= 7 && byte_bit(d[6], (k - 13) as u8)
    } else if k < 29 {
        d.len() >= 8 && byte_bit(d[7], (k - 21) as u8)
    } else {
        d.len() >= 9 && byte_bit(d[8], (k - 29) as u8)
    }
}

/// Locomotive state as decoded from an info reply.  Every field beyond
/// the address is `None` rather than a default when the bytes that carry
/// it were not present in the message.
#[derive(Clone, Debug)]
pub struct LocoState {
    /// Address of the locomotive (14 usable bits).
    pub address: u16,
    /// Whether another controller currently holds the locomotive.
    pub is_busy: Option<bool>,
    /// Throttle stepping.
    pub stepping: Option<DccThrottleSteps>,
    /// Speed in per-mille of full throttle; negative values are reverse.
    pub speed_per_mille: Option<i16>,
    /// Double-traction mode flag.
    pub double_traction: Option<bool>,
    /// Smart-search flag.
    pub smart_search: Option<bool>,
    /// Function flags; index 0 is F0, index 1 is F1, and so on up to F31.
    pub functions: Option<Vec<bool>>,
}

/// How a decoded state relates to the data bytes it was decoded from.
pub open spec fn loco_state_matches(s: LocoState, d: Seq<u8>) -> bool {
    &&& s.address == spec_loco_address(d)
    &&& s.is_busy == spec_busy(d)
    &&& s.stepping == spec_stepping(d)
    &&& (d.len() >= 4 ==> (s.speed_per_mille matches Some(v) && spec_speed(d) matches Some(w)
        && v == w))
    &&& (d.len() < 4 ==> s.speed_per_mille is None)
    &&& s.double_traction == spec_double_traction(d)
    &&& s.smart_search == spec_smart_search(d)
    &&& (s.functions is Some <==> d.len() >= 5)
    &&& (s.functions matches Some(f) ==> f@.len() == 32 && (forall|k: int|
        0 <= k < 32 ==> f@[k] == spec_function_bit(d, k)))
}

impl LocoState {
    /// Decodes locomotive state from a validated sub-message.  Fails on
    /// fewer than two data bytes (the address alone is insufficient) and
    /// on a reserved stepping coding; otherwise each field is populated
    /// exactly when the bytes that carry it are present.
    pub fn try_from_message(msg: &XBusMessage) -> (r: Result<LocoState, Z21Error>)
        ensures
            r is Ok <==> loco_decode_ok(msg.dbs@),
            msg.dbs@.len() < 2 ==> r == Err::<LocoState, Z21Error>(Z21Error::TooShort),
            msg.dbs@.len() >= 3 && spec_stepping_of_bits(msg.dbs@[2]) is None ==> r == Err::<
                LocoState,
                Z21Error,
            >(Z21Error::InvalidStepping),
            r matches Ok(s) ==> loco_state_matches(s, msg.dbs@),
    {
        let data = msg.get_dbs();
        let len = data.len();
        if len <= 1 {
            return Err(Z21Error::TooShort);
        }
        // The two highest bits of the first address byte must be ignored.
        let address: u16 = ((data[0] & 0x3F) as u16) * 256 + (data[1] as u16);
        let mut is_busy: Option<bool> = None;
        let mut stepping: Option<DccThrottleSteps> = None;
        let mut speed_per_mille: Option<i16> = None;
        let mut double_traction: Option<bool> = None;
        let mut smart_search: Option<bool> = None;
        let mut functions: Option<Vec<bool>> = None;

        if len >= 3 {
            is_busy = Some(data[2] & 0x08 != 0);
            stepping = match stepping_of_bits(data[2]) {
                Some(st) => Some(st),
                None => {
                    return Err(Z21Error::InvalidStepping);
                },
            };
        }
        if len >= 4 {
            if let Some(st) = stepping {
                speed_per_mille = Some(decode_speed_per_mille(st, data[3]));
            } else {
                proof {
                    assert(false);
                }
            }
        }
        if len >= 5 {
            let d4 = data[4];
            double_traction = Some(d4 & 0x40 != 0);
            smart_search = Some(d4 & 0x20 != 0);
            let mut f: Vec<bool> = Vec::new();
            f.push(d4 & 0x10 != 0);
            f.push(d4 & 0x01 != 0);
            f.push(d4 & 0x02 != 0);
            f.push(d4 & 0x04 != 0);
            f.push(d4 & 0x08 != 0);
            let mut k: usize = 5;
            while k < 32
                invariant
                    5 <= k <= 32,
                    f@.len() == k,
                    len == msg.dbs@.len(),
                    5 <= msg.dbs@.len(),
                    data@ == msg.dbs@,
                    forall|t: int| 0 <= t < k ==> f@[t] == spec_function_bit(msg.dbs@, t),
                decreases 32 - k,
            {
                let bit: bool = if k < 13 {
                    len >= 6 && (data[5] & (1u8 << ((k - 5) as u8))) != 0
                } else if k < 21 {
                    len >= 7 && (data[6] & (1u8 << ((k - 13) as u8))) != 0
                } else if k < 29 {
                    len >= 8 && (data[7] & (1u8 << ((k - 21) as u8))) != 0
                } else {
                    len >= 9 && (data[8] & (1u8 << ((k - 29) as u8))) != 0
                };
                f.push(bit);
                k = k + 1;
            }
            functions = Some(f);
        }

        Ok(LocoState {
            address,
            is_busy,
            stepping,
            speed_per_mille,
            double_traction,
            smart_search,
            functions,
        })
    }

    /// Decodes locomotive state straight from sub-message bytes: the
    /// bytes are first validated as a sub-message (length and checksum),
    /// then decoded as an info reply.
    pub fn try_from_bytes(data: &[u8]) -> (r: Result<LocoState, Z21Error>)
        ensures
            data@.len() < 2 ==> r == Err::<LocoState, Z21Error>(Z21Error::TooShort),
            data@.len() >= 2 && !xbus_decode_ok(data@) ==> r == Err::<LocoState, Z21Error>(
                Z21Error::ChecksumMismatch,
            ),
            xbus_decode_ok(data@) ==> ({
                let d = data@.subrange(1, data@.len() - 1);
                &&& (r is Ok <==> loco_decode_ok(d))
                &&& (r matches Ok(s) ==> loco_state_matches(s, d))
            }),
    {
        match XBusMessage::try_from_bytes(data) {
            Ok(m) => Self::try_from_message(&m),
            Err(e) => Err(e),
        }
    }
}

/// Field availability is monotonic in the data length: two data bytes
/// yield the address alone, four populate busy flag, stepping and speed,
/// and five or more also populate the traction, search and function
/// fields.
pub proof fn lemma_loco_fields_monotonic(d: Seq<u8>)
    requires
        loco_decode_ok(d),
    ensures
        d.len() == 2 ==> spec_busy(d) is None && spec_stepping(d) is None && spec_speed(d) is None
            && spec_double_traction(d) is None && spec_smart_search(d) is None,
        d.len() >= 3 ==> spec_busy(d) is Some && spec_stepping(d) is Some,
        d.len() >= 4 ==> spec_speed(d) is Some,
        d.len() >= 5 ==> spec_double_traction(d) is Some && spec_smart_search(d) is Some,
{
}

} // verus!
