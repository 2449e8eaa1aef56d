//! Device descriptor model and typed readings.
//!
//! A descriptor is static data owned by the driver module: the device name,
//! its transport configuration and the variables it exposes. Each model type
//! carries `to_json`, which produces the canonical self-describing byte
//! encoding; the exact bytes are pinned by the `*_json` specification
//! functions, so the encoding is referentially transparent. String fields
//! go through `json_escaped`, so a name or unit holding a quote, backslash
//! or control character still serializes as the JSON string carrying it.

use vstd::prelude::*;
use vstd::utf8::encode_utf8;
use crate::error::DriverError;
use crate::json::{dec_digits, json_escaped, push_dec_u64, push_json_escaped, push_str_bytes};

verus! {

/// Data bits per character on the serial link.
#[derive(Debug, Clone, Copy, PartialEq, Eq, Structural)]
pub enum DataBits {
    Five,
    Six,
    Seven,
    Eight,
}

/// Parity bit policy on the serial link.
#[derive(Debug, Clone, Copy, PartialEq, Eq, Structural)]
pub enum Parity {
    /// No parity bit.
    NoParity,
    Odd,
    Even,
}

/// Stop bits per character on the serial link.
#[derive(Debug, Clone, Copy, PartialEq, Eq, Structural)]
pub enum StopBits {
    One,
    Two,
}

/// The serialized label of a data-bits setting.
pub open spec fn data_bits_label(b: DataBits) -> Seq<char> {
    match b {
        DataBits::Five => "Five"@,
        DataBits::Six => "Six"@,
        DataBits::Seven => "Seven"@,
        DataBits::Eight => "Eight"@,
    }
}

/// The serialized label of a parity setting.
pub open spec fn parity_label(p: Parity) -> Seq<char> {
    match p {
        Parity::NoParity => "None"@,
        Parity::Odd => "Odd"@,
        Parity::Even => "Even"@,
    }
}

/// The serialized label of a stop-bits setting.
pub open spec fn stop_bits_label(s: StopBits) -> Seq<char> {
    match s {
        StopBits::One => "One"@,
        StopBits::Two => "Two"@,
    }
}

impl DataBits {
    /// The label this setting serializes as.
    pub fn label(&self) -> (r: &'static str)
        ensures
            r@ == data_bits_label(*self),
    {
        match self {
            DataBits::Five => "Five",
            DataBits::Six => "Six",
            DataBits::Seven => "Seven",
            DataBits::Eight => "Eight",
        }
    }
}

impl Parity {
    /// The label this setting serializes as.
    pub fn label(&self) -> (r: &'static str)
        ensures
            r@ == parity_label(*self),
    {
        match self {
            Parity::NoParity => "None",
            Parity::Odd => "Odd",
            Parity::Even => "Even",
        }
    }
}

impl StopBits {
    /// The label this setting serializes as.
    pub fn label(&self) -> (r: &'static str)
        ensures
            r@ == stop_bits_label(*self),
    {
        match self {
            StopBits::One => "One",
            StopBits::Two => "Two",
        }
    }
}

/// Configuration of one Modbus-RTU serial transport.
#[derive(Debug, Clone, Copy, PartialEq, Eq, Structural)]
pub struct Single {
    pub baud_rate: u32,
    pub data_bits: DataBits,
    pub parity: Parity,
    pub stop_bits: StopBits,
    /// Response timeout in milliseconds; serialized under the key
    /// `timeout`.
    pub timeout_ms: u64,
}

/// Transport configuration, one case per supported transport kind.
#[derive(Debug, Clone, Copy, PartialEq, Eq, Structural)]
pub enum Ty {
    ModbusRtu(Single),
}

/// One variable a device exposes. `collect_key` is the stable identifier a
/// caller uses to request this variable's reading; it must be unique within
/// a device. `unit` is advisory and is omitted from the serialized form when
/// absent.
#[derive(Debug, Clone)]
pub struct Var {
    pub name: String,
    pub collect_key: usize,
    pub unit: Option<String>,
}

/// Static description of a device: its name, transport configuration and
/// the variables it exposes, in declaration order.
#[derive(Debug, Clone)]
pub struct Dev {
    pub name: String,
    pub ty: Ty,
    pub vars: Vec<Var>,
}

/// A single typed measurement. The one supported kind is a fixed-point
/// value with one fractional decimal digit: `F32 { tenths }` denotes the
/// measurement `tenths / 10`.
#[derive(Debug, Clone, Copy, PartialEq, Eq, Structural)]
pub enum Value {
    F32 { tenths: u16 },
}

/// Canonical encoding of a transport configuration.
pub open spec fn single_json(s: Single) -> Seq<u8> {
    encode_utf8("{\"baud_rate\":"@) + dec_digits(s.baud_rate as nat) + encode_utf8(
        ",\"data_bits\":\""@,
    ) + encode_utf8(data_bits_label(s.data_bits)) + encode_utf8("\",\"parity\":\""@)
        + encode_utf8(parity_label(s.parity)) + encode_utf8("\",\"stop_bits\":\""@) + encode_utf8(
        stop_bits_label(s.stop_bits),
    ) + encode_utf8("\",\"timeout\":"@) + dec_digits(s.timeout_ms as nat) + encode_utf8("}"@)
}

/// Canonical encoding of a transport: one key naming the variant, wrapping
/// its fields.
pub open spec fn ty_json(t: Ty) -> Seq<u8> {
    match t {
        Ty::ModbusRtu(s) => encode_utf8("{\"ModbusRtu\":"@) + single_json(s) + encode_utf8("}"@),
    }
}

/// Canonical encoding of one variable; `unit` appears only when set.
pub open spec fn var_json(v: Var) -> Seq<u8> {
    encode_utf8("{\"name\":\""@) + json_escaped(encode_utf8(v.name@)) + encode_utf8(
        "\",\"collect_key\":"@,
    ) + dec_digits(v.collect_key as nat) + (match v.unit {
        Some(u) => encode_utf8(",\"unit\":\""@) + json_escaped(encode_utf8(u@)) + encode_utf8(
            "\""@,
        ),
        None => Seq::<u8>::empty(),
    }) + encode_utf8("}"@)
}

/// Canonical encoding of a variable list body: the entries in order,
/// separated by commas.
pub open spec fn vars_json(vs: Seq<Var>) -> Seq<u8>
    decreases vs.len(),
{
    if vs.len() == 0 {
        Seq::<u8>::empty()
    } else if vs.len() == 1 {
        var_json(vs[0])
    } else {
        vars_json(vs.drop_last()) + encode_utf8(","@) + var_json(vs.last())
    }
}

/// Canonical encoding of a device descriptor.
pub open spec fn dev_json(d: Dev) -> Seq<u8> {
    encode_utf8("{\"name\":\""@) + json_escaped(encode_utf8(d.name@)) + encode_utf8(
        "\",\"ty\":"@,
    ) + ty_json(d.ty) + encode_utf8(",\"vars\":["@) + vars_json(d.vars@) + encode_utf8("]}"@)
}

/// Canonical encoding of a reading: one key naming the kind, mapping to the
/// value with one fractional decimal digit.
pub open spec fn value_json(v: Value) -> Seq<u8> {
    match v {
        Value::F32 { tenths } => encode_utf8("{\"F32\":"@) + dec_digits((tenths as nat) / 10)
            + encode_utf8("."@) + dec_digits((tenths as nat) % 10) + encode_utf8("}"@),
    }
}

impl Single {
    /// Serializes this transport configuration canonically.
    pub fn to_json(&self) -> (r: Vec<u8>)
        ensures
            r@ == single_json(*self),
    {
        let mut out: Vec<u8> = Vec::new();
        push_str_bytes(&mut out, "{\"baud_rate\":");
        push_dec_u64(&mut out, self.baud_rate as u64);
        push_str_bytes(&mut out, ",\"data_bits\":\"");
        push_str_bytes(&mut out, self.data_bits.label());
        push_str_bytes(&mut out, "\",\"parity\":\"");
        push_str_bytes(&mut out, self.parity.label());
        push_str_bytes(&mut out, "\",\"stop_bits\":\"");
        push_str_bytes(&mut out, self.stop_bits.label());
        push_str_bytes(&mut out, "\",\"timeout\":");
        push_dec_u64(&mut out, self.timeout_ms);
        push_str_bytes(&mut out, "}");
        out
    }
}

impl Ty {
    /// Serializes this transport canonically.
    pub fn to_json(&self) -> (r: Vec<u8>)
        ensures
            r@ == ty_json(*self),
    {
        match self {
            Ty::ModbusRtu(s) => {
                let mut out: Vec<u8> = Vec::new();
                push_str_bytes(&mut out, "{\"ModbusRtu\":");
                let body = s.to_json();
                crate::json::push_bytes(&mut out, body.as_slice());
                push_str_bytes(&mut out, "}");
                out
            },
        }
    }
}

impl Var {
    /// Serializes this variable canonically.
    pub fn to_json(&self) -> (r: Vec<u8>)
        ensures
            r@ == var_json(*self),
    {
        let mut out: Vec<u8> = Vec::new();
        push_str_bytes(&mut out, "{\"name\":\"");
        push_json_escaped(&mut out, self.name.as_str());
        push_str_bytes(&mut out, "\",\"collect_key\":");
        push_dec_u64(&mut out, self.collect_key as u64);
        match &self.unit {
            Some(u) => {
                push_str_bytes(&mut out, ",\"unit\":\"");
                push_json_escaped(&mut out, u.as_str());
                push_str_bytes(&mut out, "\"");
            },
            None => {},
        }
        push_str_bytes(&mut out, "}");
        out
    }
}

impl Dev {
    /// Serializes this descriptor canonically.
    pub fn to_json(&self) -> (r: Vec<u8>)
        ensures
            r@ == dev_json(*self),
    {
        let mut out: Vec<u8> = Vec::new();
        push_str_bytes(&mut out, "{\"name\":\"");
        push_json_escaped(&mut out, self.name.as_str());
        push_str_bytes(&mut out, "\",\"ty\":");
        let ty = self.ty.to_json();
        crate::json::push_bytes(&mut out, ty.as_slice());
        push_str_bytes(&mut out, ",\"vars\":[");
        let n = self.vars.len();
        let mut i: usize = 0;
        while i < n
            invariant
                i <= n,
                n == self.vars@.len(),
                out@ == encode_utf8("{\"name\":\""@) + json_escaped(encode_utf8(self.name@))
                    + encode_utf8("\",\"ty\":"@) + ty_json(self.ty) + encode_utf8(",\"vars\":["@)
                    + vars_json(self.vars@.take(i as int)),
            decreases n - i,
        {
            if i > 0 {
                push_str_bytes(&mut out, ",");
            }
            let vj = self.vars[i].to_json();
            crate::json::push_bytes(&mut out, vj.as_slice());
            proof {
                lemma_vars_json_take_step(self.vars@, i as int);
            }
            i = i + 1;
        }
        proof {
            assert(self.vars@.take(n as int) =~= self.vars@);
        }
        push_str_bytes(&mut out, "]}");
        out
    }
}

/// Extending the encoded prefix of a variable list by one entry: the comma
/// appears before every entry but the first.
proof fn lemma_vars_json_take_step(vs: Seq<Var>, i: int)
    requires
        0 <= i < vs.len(),
    ensures
        i == 0 ==> vars_json(vs.take(i + 1)) == vars_json(vs.take(i)) + var_json(vs[i]),
        i > 0 ==> vars_json(vs.take(i + 1)) == vars_json(vs.take(i)) + encode_utf8(","@)
            + var_json(vs[i]),
{
    let pre = vs.take(i + 1);
    assert(pre.drop_last() =~= vs.take(i));
    assert(pre.last() == vs[i]);
    if i == 0 {
        assert(vars_json(vs.take(1)) == var_json(vs[0]));
        assert(vars_json(vs.take(0)) + var_json(vs[0]) =~= var_json(vs[0]));
    }
}

impl Value {
    /// Serializes this reading canonically. The fixed-point representation
    /// is always finite, so serialization always succeeds; the `Result`
    /// keeps the shape the capability interface expects of a reading
    /// serializer.
    pub fn to_json(&self) -> (r: Result<Vec<u8>, DriverError>)
        ensures
            r matches Ok(bytes) && bytes@ == value_json(*self),
    {
        match self {
            Value::F32 { tenths } => {
                let mut out: Vec<u8> = Vec::new();
                push_str_bytes(&mut out, "{\"F32\":");
                push_dec_u64(&mut out, (*tenths / 10) as u64);
                push_str_bytes(&mut out, ".");
                push_dec_u64(&mut out, (*tenths % 10) as u64);
                push_str_bytes(&mut out, "}");
                Ok(out)
            },
        }
    }
}

} // verus!
