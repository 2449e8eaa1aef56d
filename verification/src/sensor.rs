//! The driver for one Modbus-RTU device family: a combined barometric
//! pressure / temperature / humidity transmitter that exposes a single
//! temperature variable.
//!
//! This module is the concrete instance of the driver capability interface:
//! `get_info` describes the device, `get_request_bytes` builds the wire
//! bytes for a variable, and `get_rs` decodes raw response bytes into an
//! encoded reading. `build_request` and `decode_response` are the same two
//! operations as they cross the isolation boundary, with every error
//! flattened to text. One dispatch table, `get_request`, maps a collect key
//! to its protocol operation and is shared by the builder and the decoder,
//! so the two cannot drift apart.

use vstd::prelude::*;
use vstd::utf8::encode_utf8;
use crate::error::{DriverError, error_text};
use crate::frame::{Decoded, Request, decode_response_frame, decode_spec, encode_request,
    request_frame};
use crate::json::{dec_digits, json_escaped};
use crate::models::{DataBits, Dev, Parity, Single, StopBits, Ty, Value, Var, single_json,
    value_json};

verus! {

/// The collect key of the temperature variable, the one variable this
/// device family exposes.
pub const TEMPERATURE_KEY: u8 = 1;

/// The protocol operation the temperature key dispatches to: read two
/// holding registers starting at register 0.
pub open spec fn temperature_request(addr: u8) -> Request {
    Request {
        slave_address: addr,
        function_code: crate::frame::READ_HOLDING_REGISTERS,
        start_register: 0,
        register_count: 2,
    }
}

/// The dispatch table: resolves a collect key to its protocol operation.
/// Both the request builder and the response decoder go through this one
/// lookup.
pub fn get_request(addr: u8, key: u8) -> (r: Result<Request, DriverError>)
    ensures
        key == TEMPERATURE_KEY ==> r == Ok::<Request, DriverError>(temperature_request(addr)),
        key != TEMPERATURE_KEY ==> r == Err::<Request, DriverError>(DriverError::UnknownKey),
{
    if key == TEMPERATURE_KEY {
        Ok(Request::read_multiple_holding_registers_request(addr, 0, 2))
    } else {
        Err(DriverError::UnknownKey)
    }
}

/// The transport configuration of this device family.
pub open spec fn device_transport() -> Single {
    Single {
        baud_rate: 9600,
        data_bits: DataBits::Eight,
        parity: Parity::NoParity,
        stop_bits: StopBits::One,
        timeout_ms: 200,
    }
}

/// Canonical encoding of the temperature variable's descriptor entry.
pub open spec fn temperature_var_json() -> Seq<u8> {
    encode_utf8("{\"name\":\""@) + json_escaped(encode_utf8("温度"@)) + encode_utf8(
        "\",\"collect_key\":"@,
    ) + dec_digits(1) + (encode_utf8(",\"unit\":\""@) + json_escaped(encode_utf8("摄氏度"@))
        + encode_utf8("\""@)) + encode_utf8("}"@)
}

/// Canonical encoding of this device family's descriptor: what `get_info`
/// returns, pinned byte for byte. Repeated calls are byte-identical because
/// they all equal this one sequence.
pub open spec fn info_json() -> Seq<u8> {
    encode_utf8("{\"name\":\""@) + json_escaped(encode_utf8("20-485型大气压温湿度三合一变送器"@))
        + encode_utf8("\",\"ty\":"@) + (encode_utf8("{\"ModbusRtu\":"@) + single_json(
        device_transport(),
    ) + encode_utf8("}"@)) + encode_utf8(",\"vars\":["@) + temperature_var_json() + encode_utf8(
        "]}"@,
    )
}

/// Describes the device: name, transport configuration and variables, in
/// the canonical self-describing byte encoding. Never fails, and depends on
/// nothing but the compiled-in descriptor.
pub fn get_info() -> (r: Vec<u8>)
    ensures
        r@ == info_json(),
{
    let var = Var {
        name: String::from_str("温度"),
        collect_key: 1,
        unit: Some(String::from_str("摄氏度")),
    };
    let mut vars: Vec<Var> = Vec::new();
    vars.push(var);
    let dev = Dev {
        name: String::from_str("20-485型大气压温湿度三合一变送器"),
        ty: Ty::ModbusRtu(
            Single {
                baud_rate: 9600,
                data_bits: DataBits::Eight,
                parity: Parity::NoParity,
                stop_bits: StopBits::One,
                timeout_ms: 200,
            },
        ),
        vars,
    };
    let r = dev.to_json();
    proof {
        assert(crate::models::vars_json(dev.vars@) == crate::models::var_json(dev.vars@[0]));
        assert(crate::models::var_json(dev.vars@[0]) =~= temperature_var_json());
        assert(r@ =~= info_json());
    }
    r
}

/// Builds the wire-exact request bytes that ask the slave at `addr` for the
/// variable identified by `key`. Fails with `UnknownKey` exactly when `key`
/// has no dispatch entry.
pub fn get_request_bytes(addr: u8, key: u8) -> (r: Result<Vec<u8>, DriverError>)
    ensures
        key == TEMPERATURE_KEY ==> (r matches Ok(b) && b@ == request_frame(
            temperature_request(addr),
        )),
        key != TEMPERATURE_KEY ==> r == Err::<Vec<u8>, DriverError>(DriverError::UnknownKey),
{
    let req = get_request(addr, key)?;
    Ok(encode_request(&req))
}

/// Decodes `data` as the response to the request that `key` dispatches to.
///
/// Returns `Ok(None)` while `data` holds less than a complete frame,
/// `Ok(Some(bytes))` with the canonically encoded reading once a complete
/// valid frame is present, and an error exactly as `decode_spec` concludes:
/// `UnknownKey` when `key` has no dispatch entry (before any parsing),
/// `UnexpectedFrameType` when the frame is for another operation,
/// `IntegrityCheckFailed` when the carried check mismatches, and
/// `InsufficientRegisters` when the payload is too short to scale.
pub fn get_rs(addr: u8, key: u8, data: Vec<u8>) -> (r: Result<Option<Vec<u8>>, DriverError>)
    ensures
        key != TEMPERATURE_KEY ==> r == Err::<Option<Vec<u8>>, DriverError>(
            DriverError::UnknownKey,
        ),
        key == TEMPERATURE_KEY ==> match decode_spec(crate::frame::READ_HOLDING_REGISTERS, data@) {
            Decoded::NeedMoreData => (r matches Ok(opt) && opt is None),
            Decoded::Reading(v) => (r matches Ok(Some(bytes)) && bytes@ == value_json(v)),
            Decoded::Fail(e) => r == Err::<Option<Vec<u8>>, DriverError>(e),
        },
{
    let req = get_request(addr, key)?;
    match decode_response_frame(req.function_code, data.as_slice()) {
        Decoded::NeedMoreData => Ok(None),
        Decoded::Fail(e) => Err(e),
        Decoded::Reading(v) => {
            match v.to_json() {
                Ok(bytes) => Ok(Some(bytes)),
                Err(e) => Err(e),
            }
        },
    }
}

/// The request-builder operation as it crosses the isolation boundary:
/// the same result as `get_request_bytes`, with errors flattened to text.
pub fn build_request(addr: u8, key: u8) -> (r: Result<Vec<u8>, String>)
    ensures
        key == TEMPERATURE_KEY ==> (r matches Ok(b) && b@ == request_frame(
            temperature_request(addr),
        )),
        key != TEMPERATURE_KEY ==> (r matches Err(msg) && msg@ == error_text(
            DriverError::UnknownKey,
        )),
{
    match get_request_bytes(addr, key) {
        Ok(b) => Ok(b),
        Err(e) => Err(e.message()),
    }
}

/// The response-decoder operation as it crosses the isolation boundary:
/// the same result as `get_rs`, with `NeedMoreData` carried as `Ok(None)`
/// and errors flattened to text.
pub fn decode_response(addr: u8, key: u8, data: Vec<u8>) -> (r: Result<Option<Vec<u8>>, String>)
    ensures
        key != TEMPERATURE_KEY ==> (r matches Err(msg) && msg@ == error_text(
            DriverError::UnknownKey,
        )),
        key == TEMPERATURE_KEY ==> match decode_spec(crate::frame::READ_HOLDING_REGISTERS, data@) {
            Decoded::NeedMoreData => (r matches Ok(opt) && opt is None),
            Decoded::Reading(v) => (r matches Ok(Some(bytes)) && bytes@ == value_json(v)),
            Decoded::Fail(e) => (r matches Err(msg) && msg@ == error_text(e)),
        },
{
    match get_rs(addr, key, data) {
        Ok(opt) => Ok(opt),
        Err(e) => Err(e.message()),
    }
}

} // verus!
