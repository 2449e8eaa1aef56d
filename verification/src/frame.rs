//! Modbus-RTU frames: building the request for a variable and decoding the
//! raw bytes that come back.
//!
//! The one supported operation is "read multiple holding registers"
//! (function code 3), starting at register 0 for a count of 2. A request
//! frame is `[slave_addr][0x03][start hi][start lo][count hi][count lo]
//! [check lo][check hi]`; a response frame is `[slave_addr][0x03]
//! [byte count][payload bytes...][check lo][check hi]`.
//!
//! Decoding is stateless: every call re-derives its expectation from the
//! collect key and looks only at the bytes it is given. While fewer bytes
//! are present than the expected response shape requires, the decoder asks
//! for more; bytes after a complete frame are ignored, so a result, once
//! reached, is stable under appended input. The slave address carried by a
//! response is not checked against the requested one: frames are paired
//! with requests by convention, and a mismatched address still protects the
//! payload through the integrity check.

use vstd::prelude::*;
use crate::crc::{compute_crc16, crc16};
use crate::error::DriverError;
use crate::models::Value;

verus! {

/// The function code of "read multiple holding registers".
pub const READ_HOLDING_REGISTERS: u8 = 0x03;

/// One protocol operation: which registers of which slave to read. An
/// instance lives for one request/response cycle and is discarded.
#[derive(Debug, Clone, Copy, PartialEq, Eq, Structural)]
pub struct Request {
    pub slave_address: u8,
    pub function_code: u8,
    pub start_register: u16,
    pub register_count: u16,
}

impl Request {
    /// The "read multiple holding registers" operation.
    pub fn read_multiple_holding_registers_request(addr: u8, start: u16, count: u16) -> (r:
        Request)
        ensures
            r == (Request {
                slave_address: addr,
                function_code: READ_HOLDING_REGISTERS,
                start_register: start,
                register_count: count,
            }),
    {
        Request {
            slave_address: addr,
            function_code: READ_HOLDING_REGISTERS,
            start_register: start,
            register_count: count,
        }
    }
}

/// The first six bytes of a request frame: address, function code, start
/// register and register count, each big-endian.
pub open spec fn request_body(r: Request) -> Seq<u8> {
    seq![
        r.slave_address,
        r.function_code,
        (r.start_register / 256) as u8,
        (r.start_register % 256) as u8,
        (r.register_count / 256) as u8,
        (r.register_count % 256) as u8,
    ]
}

/// The full request frame: the body followed by its integrity check, low
/// byte first.
pub open spec fn request_frame(r: Request) -> Seq<u8> {
    request_body(r) + seq![
        (crc16(request_body(r)) % 256) as u8,
        (crc16(request_body(r)) / 256) as u8,
    ]
}

/// Serializes `req` into its wire-exact request frame.
pub fn encode_request(req: &Request) -> (r: Vec<u8>)
    ensures
        r@ == request_frame(*req),
{
    let mut out: Vec<u8> = Vec::new();
    out.push(req.slave_address);
    out.push(req.function_code);
    out.push((req.start_register / 256) as u8);
    out.push((req.start_register % 256) as u8);
    out.push((req.register_count / 256) as u8);
    out.push((req.register_count % 256) as u8);
    proof {
        assert(out@ =~= request_body(*req));
    }
    let check = compute_crc16(out.as_slice());
    out.push((check % 256) as u8);
    out.push((check / 256) as u8);
    proof {
        assert(out@ =~= request_frame(*req));
    }
    out
}

/// What one decoding attempt concludes. `NeedMoreData` is neither success
/// nor failure: it asks the caller to retry once more bytes have arrived.
#[derive(Debug, Clone, Copy, PartialEq, Eq, Structural)]
pub enum Decoded {
    NeedMoreData,
    Reading(Value),
    Fail(DriverError),
}

/// Whether `raw` holds a complete frame of the expected response shape:
/// enough bytes to read the payload length, and then the whole payload and
/// check.
pub open spec fn is_complete(raw: Seq<u8>) -> bool {
    raw.len() >= 3 && raw.len() >= frame_len(raw)
}

/// Total length of the expected response frame: three header bytes, the
/// payload, and the two check bytes.
pub open spec fn frame_len(raw: Seq<u8>) -> int
    recommends
        raw.len() >= 3,
{
    5 + raw[2]
}

/// The 16-bit check value a complete frame carries, low byte first.
pub open spec fn stored_check(raw: Seq<u8>) -> int
    recommends
        is_complete(raw),
{
    raw[frame_len(raw) - 2] + 256 * raw[frame_len(raw) - 1]
}

/// What decoding a response to an operation with function code `fc`
/// concludes on `raw`.
///
/// The frame's shape is settled first (else more data is asked for), then
/// its function code is held against the expected one, then its integrity,
/// then the presence of the payload bytes the reading is scaled from: the
/// third and fourth payload bytes, combined big-endian, give the
/// measurement in tenths.
pub open spec fn decode_spec(fc: u8, raw: Seq<u8>) -> Decoded {
    if !is_complete(raw) {
        Decoded::NeedMoreData
    } else if raw[1] != fc {
        Decoded::Fail(DriverError::UnexpectedFrameType)
    } else if crc16(raw.take(frame_len(raw) - 2)) != stored_check(raw) {
        Decoded::Fail(DriverError::IntegrityCheckFailed)
    } else if raw[2] < 4 {
        Decoded::Fail(DriverError::InsufficientRegisters)
    } else {
        Decoded::Reading(Value::F32 { tenths: (raw[5] * 256 + raw[6]) as u16 })
    }
}

/// Decodes `raw` as the response to an operation with function code `fc`.
pub fn decode_response_frame(fc: u8, raw: &[u8]) -> (r: Decoded)
    ensures
        r == decode_spec(fc, raw@),
{
    let n = raw.len();
    if n < 3 {
        return Decoded::NeedMoreData;
    }
    let count = raw[2];
    let total: usize = 5 + count as usize;
    if n < total {
        return Decoded::NeedMoreData;
    }
    if raw[1] != fc {
        return Decoded::Fail(DriverError::UnexpectedFrameType);
    }
    let checked = vstd::slice::slice_subrange(raw, 0, total - 2);
    proof {
        assert(checked@ =~= raw@.take(frame_len(raw@) - 2));
    }
    let computed = compute_crc16(checked);
    let stored: u32 = raw[total - 2] as u32 + 256 * raw[total - 1] as u32;
    if computed as u32 != stored {
        return Decoded::Fail(DriverError::IntegrityCheckFailed);
    }
    if count < 4 {
        return Decoded::Fail(DriverError::InsufficientRegisters);
    }
    let tenths: u16 = raw[5] as u16 * 256 + raw[6] as u16;
    Decoded::Reading(Value::F32 { tenths })
}

/// Any strict prefix of a complete frame decodes to `NeedMoreData`: until
/// the whole frame has arrived, the decoder neither succeeds nor fails.
pub proof fn lemma_prefix_needs_more(fc: u8, raw: Seq<u8>, k: int)
    requires
        is_complete(raw),
        0 <= k < frame_len(raw),
    ensures
        decode_spec(fc, raw.take(k)) == Decoded::NeedMoreData,
{
    let p = raw.take(k);
    if p.len() >= 3 {
        assert(p[2] == raw[2]);
        assert(p.len() < frame_len(p));
    }
}

/// A concluded result is stable: once decoding returns other than
/// `NeedMoreData`, bytes appended after the frame do not change the result.
pub proof fn lemma_trailing_bytes_ignored(fc: u8, raw: Seq<u8>, tail: Seq<u8>)
    requires
        decode_spec(fc, raw) != Decoded::NeedMoreData,
    ensures
        decode_spec(fc, raw + tail) == decode_spec(fc, raw),
{
    let ext = raw + tail;
    assert(ext[2] == raw[2]);
    assert(frame_len(ext) == frame_len(raw));
    assert(is_complete(ext));
    assert(ext[1] == raw[1]);
    assert(ext.take(frame_len(ext) - 2) =~= raw.take(frame_len(raw) - 2));
    assert(ext[frame_len(ext) - 2] == raw[frame_len(raw) - 2]);
    assert(ext[frame_len(ext) - 1] == raw[frame_len(raw) - 1]);
    if decode_spec(fc, raw) matches Decoded::Reading(_) {
        assert(ext[5] == raw[5]);
        assert(ext[6] == raw[6]);
    }
}

/// Corrupting any single byte of a frame that decodes to a reading — any
/// byte the integrity check covers (the address and the payload) or either
/// check byte — makes decoding fail with `IntegrityCheckFailed`. The two
/// bytes left out change what frame is expected rather than its integrity:
/// a changed function code fails as `UnexpectedFrameType`, and a changed
/// byte count changes the length the decoder waits for.
pub proof fn lemma_single_byte_corruption_detected(fc: u8, raw: Seq<u8>, k: int, b: u8)
    requires
        decode_spec(fc, raw) matches Decoded::Reading(_),
        0 <= k < frame_len(raw),
        k != 1,
        k != 2,
        b != raw[k],
    ensures
        decode_spec(fc, raw.update(k, b)) == Decoded::Fail(DriverError::IntegrityCheckFailed),
{
    let bad = raw.update(k, b);
    let m = frame_len(raw) - 2;
    assert(bad[2] == raw[2]);
    assert(frame_len(bad) == frame_len(raw));
    assert(is_complete(bad));
    assert(bad[1] == raw[1]);
    if k >= m {
        // A check byte changed: the carried check moved while the computed
        // one stayed.
        assert(bad.take(m) =~= raw.take(m));
        assert(stored_check(bad) != stored_check(raw));
    } else {
        // A covered byte changed: the computed check moved while the
        // carried one stayed.
        assert(stored_check(bad) == stored_check(raw));
        crate::crc::lemma_crc16_prefix_congruent(raw.take(m), raw, m);
        crate::crc::lemma_crc16_prefix_congruent(bad.take(m), bad, m);
        crate::crc::lemma_crc16_single_corruption(raw, bad, k, m);
        assert(crc16(bad.take(m)) != crc16(raw.take(m)));
    }
}

} // verus!
