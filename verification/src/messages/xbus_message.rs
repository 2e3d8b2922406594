//! The inner checksummed command format carried inside frames whose header
//! designates the command channel: `u8 sub_header | data_bytes | u8 xor`,
//! where the trailing byte is the XOR of the sub-header and every data
//! byte.  Every sub-message is self-validating: decoding recomputes the
//! checksum and rejects the message on a mismatch.

use vstd::prelude::*;

use crate::error::Z21Error;

verus! {

/// Frame header of the command channel that carries these sub-messages.
pub const XBUS_HEADER: u16 = 0x40;

/// Left XOR fold of a byte sequence, accumulating from `acc`.
pub open spec fn xor_fold(acc: u8, s: Seq<u8>) -> u8
    decreases s.len(),
{
    if s.len() == 0 {
        acc
    } else {
        xor_fold(acc ^ s[0], s.drop_first())
    }
}

/// Folding one more byte XORs it into the running total.
pub proof fn lemma_xor_fold_push(acc: u8, s: Seq<u8>, x: u8)
    ensures
        xor_fold(acc, s.push(x)) == xor_fold(acc, s) ^ x,
    decreases s.len(),
{
    if s.len() == 0 {
        reveal_with_fuel(xor_fold, 3);
        assert(s.push(x).drop_first() =~= Seq::<u8>::empty());
        assert(s.push(x)[0] == x);
    } else {
        assert(s.push(x).drop_first() =~= s.drop_first().push(x));
        assert(s.push(x)[0] == s[0]);
        lemma_xor_fold_push(acc ^ s[0], s.drop_first(), x);
    }
}

/// The accumulator factors out of the fold.
pub proof fn lemma_xor_fold_acc(acc: u8, s: Seq<u8>)
    ensures
        xor_fold(acc, s) == acc ^ xor_fold(0, s),
    decreases s.len(),
{
    if s.len() == 0 {
        assert(acc ^ 0u8 == acc) by (bit_vector);
    } else {
        let s0 = s[0];
        lemma_xor_fold_acc(acc ^ s0, s.drop_first());
        lemma_xor_fold_acc(0 ^ s0, s.drop_first());
        let f = xor_fold(0, s.drop_first());
        assert((acc ^ s0) ^ f == acc ^ ((0u8 ^ s0) ^ f)) by (bit_vector);
    }
}

/// Replacing one byte of the sequence XORs the old and the new byte into
/// the fold.
pub proof fn lemma_xor_fold_update(acc: u8, s: Seq<u8>, i: int, v: u8)
    requires
        0 <= i < s.len(),
    ensures
        xor_fold(acc, s.update(i, v)) == xor_fold(acc, s) ^ s[i] ^ v,
    decreases s.len(),
{
    if i == 0 {
        assert(s.update(0, v).drop_first() =~= s.drop_first());
        assert(s.update(0, v)[0] == v);
        lemma_xor_fold_acc(acc ^ v, s.drop_first());
        lemma_xor_fold_acc(acc ^ s[0], s.drop_first());
        let f = xor_fold(0, s.drop_first());
        let s0 = s[0];
        assert((acc ^ v) ^ f == (((acc ^ s0) ^ f) ^ s0) ^ v) by (bit_vector);
    } else {
        assert(s.update(i, v).drop_first() =~= s.drop_first().update(i - 1, v));
        assert(s.update(i, v)[0] == s[0]);
        lemma_xor_fold_update(acc ^ s[0], s.drop_first(), i - 1, v);
        assert(s.drop_first()[i - 1] == s[i]);
    }
}

/// The serialized form of a sub-message.
pub open spec fn xbus_bytes(x_header: u8, dbs: Seq<u8>, xor: u8) -> Seq<u8> {
    seq![x_header] + dbs + seq![xor]
}

/// When a byte string is accepted by the sub-message decoder: at least the
/// header and the checksum byte are present, and the trailing byte equals
/// the XOR of the header and every data byte.
pub open spec fn xbus_decode_ok(bytes: Seq<u8>) -> bool {
    &&& bytes.len() >= 2
    &&& bytes.last() == xor_fold(bytes[0], bytes.subrange(1, bytes.len() - 1))
}

/// One command-channel sub-message.
#[derive(Clone, Debug)]
pub struct XBusMessage {
    /// Sub-header designating the command.
    pub x_header: u8,
    /// Data bytes.
    pub dbs: Vec<u8>,
    /// Trailing XOR checksum byte.
    pub xor: u8,
}

impl XBusMessage {
    /// The checksum byte agrees with the header and the data bytes, as
    /// every constructor and the decoder guarantee.
    pub open spec fn wf(&self) -> bool {
        self.xor == xor_fold(self.x_header, self.dbs@)
    }

    /// A sub-message with no data bytes; its checksum is the header itself.
    pub fn new_only_header(x_header: u8) -> (m: XBusMessage)
        ensures
            m.x_header == x_header,
            m.dbs@ == Seq::<u8>::empty(),
            m.xor == x_header,
            m.wf(),
    {
        XBusMessage { x_header, dbs: Vec::new(), xor: x_header }
    }

    /// A sub-message with one data byte.
    pub fn new_single(x_header: u8, db: u8) -> (m: XBusMessage)
        ensures
            m.x_header == x_header,
            m.dbs@ == seq![db],
            m.xor == (x_header ^ db),
            m.wf(),
    {
        let xor = x_header ^ db;
        let mut dbs: Vec<u8> = Vec::new();
        dbs.push(db);
        proof {
            lemma_xor_fold_push(x_header, Seq::<u8>::empty(), db);
            assert(Seq::<u8>::empty().push(db) =~= dbs@);
        }
        XBusMessage { x_header, dbs, xor }
    }

    /// A sub-message with two data bytes.
    pub fn new_double(x_header: u8, db0: u8, db1: u8) -> (m: XBusMessage)
        ensures
            m.x_header == x_header,
            m.dbs@ == seq![db0, db1],
            m.xor == (x_header ^ db0 ^ db1),
            m.wf(),
    {
        let xor = x_header ^ db0 ^ db1;
        let mut dbs: Vec<u8> = Vec::new();
        dbs.push(db0);
        dbs.push(db1);
        proof {
            lemma_xor_fold_push(x_header, Seq::<u8>::empty(), db0);
            lemma_xor_fold_push(x_header, Seq::<u8>::empty().push(db0), db1);
            assert(Seq::<u8>::empty().push(db0) =~= seq![db0]);
            assert(Seq::<u8>::empty().push(db0).push(db1) =~= dbs@);
        }
        XBusMessage { x_header, dbs, xor }
    }

    /// A sub-message over an arbitrary data byte vector.
    pub fn new_dbs_vec(x_header: u8, dbs: Vec<u8>) -> (m: XBusMessage)
        ensures
            m.x_header == x_header,
            m.dbs@ == dbs@,
            m.xor == xor_fold(x_header, dbs@),
            m.wf(),
    {
        let mut acc: u8 = x_header;
        let mut i: usize = 0;
        while i < dbs.len()
            invariant
                i <= dbs@.len(),
                acc == xor_fold(x_header, dbs@.take(i as int)),
            decreases dbs@.len() - i,
        {
            proof {
                lemma_xor_fold_push(x_header, dbs@.take(i as int), dbs@[i as int]);
                assert(dbs@.take(i as int).push(dbs@[i as int]) =~= dbs@.take(i + 1));
            }
            acc = acc ^ dbs[i];
            i = i + 1;
        }
        proof {
            assert(dbs@.take(dbs@.len() as int) =~= dbs@);
        }
        XBusMessage { x_header, dbs, xor: acc }
    }

    pub fn get_x_header(&self) -> (r: u8)
        ensures
            r == self.x_header,
    {
        self.x_header
    }

    pub fn get_dbs(&self) -> (r: &Vec<u8>)
        ensures
            r@ == self.dbs@,
    {
        &self.dbs
    }

    pub fn get_xor(&self) -> (r: u8)
        ensures
            r == self.xor,
    {
        self.xor
    }

    /// Serializes the sub-message: header, data bytes, checksum.
    pub fn to_bytes(&self) -> (r: Vec<u8>)
        ensures
            r@ == xbus_bytes(self.x_header, self.dbs@, self.xor),
    {
        let mut out: Vec<u8> = Vec::new();
        out.push(self.x_header);
        let mut i: usize = 0;
        while i < self.dbs.len()
            invariant
                i <= self.dbs@.len(),
                out@ == seq![self.x_header] + self.dbs@.take(i as int),
            decreases self.dbs@.len() - i,
        {
            out.push(self.dbs[i]);
            i = i + 1;
            proof {
                assert(out@ =~= seq![self.x_header] + self.dbs@.take(i as int));
            }
        }
        out.push(self.xor);
        proof {
            assert(out@ =~= xbus_bytes(self.x_header, self.dbs@, self.xor));
        }
        out
    }

    /// Decodes and validates a sub-message.  Fails on fewer than the two
    /// mandatory bytes, or when the recomputed XOR checksum disagrees with
    /// the trailing byte; checksum mismatch is a hard rejection, never a
    /// correction.
    pub fn try_from_bytes(data: &[u8]) -> (r: Result<XBusMessage, Z21Error>)
        ensures
            data@.len() < 2 ==> r == Err::<XBusMessage, Z21Error>(Z21Error::TooShort),
            data@.len() >= 2 && !xbus_decode_ok(data@) ==> r == Err::<XBusMessage, Z21Error>(
                Z21Error::ChecksumMismatch,
            ),
            xbus_decode_ok(data@) ==> (r matches Ok(m)
                && m.x_header == data@[0]
                && m.dbs@ == data@.subrange(1, data@.len() - 1)
                && m.xor == data@.last()
                && m.wf()),
    {
        let n = data.len();
        if n < 2 {
            return Err(Z21Error::TooShort);
        }
        let x_header = data[0];
        let mut dbs: Vec<u8> = Vec::new();
        let mut acc: u8 = x_header;
        let mut i: usize = 1;
        while i < n - 1
            invariant
                1 <= i <= n - 1,
                2 <= n == data@.len(),
                dbs@ == data@.subrange(1, i as int),
                acc == xor_fold(x_header, dbs@),
            decreases n - 1 - i,
        {
            proof {
                lemma_xor_fold_push(x_header, dbs@, data@[i as int]);
                assert(data@.subrange(1, i as int).push(data@[i as int]) =~= data@.subrange(
                    1,
                    i + 1,
                ));
            }
            dbs.push(data[i]);
            acc = acc ^ data[i];
            i = i + 1;
        }
        if data[n - 1] != acc {
            return Err(Z21Error::ChecksumMismatch);
        }
        Ok(XBusMessage { x_header, dbs, xor: acc })
    }
}

/// Round trip of the sub-message codec: the bytes built from any header,
/// data bytes and their XOR checksum are accepted by the decoder and give
/// back the same header and data bytes.
pub proof fn lemma_sub_message_round_trip(x_header: u8, dbs: Seq<u8>)
    ensures
        ({
            let bs = xbus_bytes(x_header, dbs, xor_fold(x_header, dbs));
            &&& bs.len() == dbs.len() + 2
            &&& xbus_decode_ok(bs)
            &&& bs[0] == x_header
            &&& bs.subrange(1, bs.len() - 1) =~= dbs
        }),
{
    let bs = xbus_bytes(x_header, dbs, xor_fold(x_header, dbs));
    assert(bs.subrange(1, bs.len() - 1) =~= dbs);
    assert(bs.last() == xor_fold(x_header, dbs));
}

/// The XOR checksum detects every single-byte corruption: replacing any
/// one byte of an encoded sub-message with a different value makes the
/// decoder reject the bytes with a checksum mismatch.
pub proof fn lemma_checksum_detects_corruption(x_header: u8, dbs: Seq<u8>, i: int, v: u8)
    requires
        0 <= i < dbs.len() + 2,
        v != xbus_bytes(x_header, dbs, xor_fold(x_header, dbs))[i],
    ensures
        ({
            let mutated = xbus_bytes(x_header, dbs, xor_fold(x_header, dbs)).update(i, v);
            &&& mutated.len() >= 2
            &&& !xbus_decode_ok(mutated)
        }),
{
    let xor = xor_fold(x_header, dbs);
    let bs = xbus_bytes(x_header, dbs, xor);
    let n = bs.len() as int;
    let mutated = bs.update(i, v);
    assert(bs.subrange(1, n - 1) =~= dbs);
    lemma_xor_fold_acc(x_header, dbs);
    let f = xor_fold(0, dbs);
    if i == 0 {
        // The sub-header changed: the recomputed checksum moves, the
        // trailing byte does not.
        assert(mutated.subrange(1, n - 1) =~= dbs);
        assert(mutated[0] == v);
        assert(mutated.last() == xor);
        lemma_xor_fold_acc(v, dbs);
        assert(v != x_header ==> (v ^ f) != (x_header ^ f)) by (bit_vector);
    } else if i == n - 1 {
        // The checksum byte itself changed: it no longer matches.
        assert(mutated.subrange(1, n - 1) =~= dbs);
        assert(mutated[0] == x_header);
        assert(mutated.last() == v);
    } else {
        // A data byte changed: the recomputed checksum moves, the
        // trailing byte does not.
        let j = i - 1;
        assert(mutated.subrange(1, n - 1) =~= dbs.update(j, v));
        assert(mutated[0] == x_header);
        assert(mutated.last() == xor);
        assert(bs[i] == dbs[j]);
        lemma_xor_fold_update(x_header, dbs, j, v);
        let d = dbs[j];
        assert(d != v ==> ((x_header ^ f) ^ d) ^ v != (x_header ^ f)) by (bit_vector);
        assert(xor_fold(x_header, dbs.update(j, v)) == (xor_fold(x_header, dbs) ^ d) ^ v);
    }
}

} // verus!
