//! The value codec: pure conversions between a span of raw process-data or
//! SDO bytes and typed [`Value`]s.
//!
//! Wire order is little-endian, as EtherCAT puts scalars on the bus.  A
//! `Bool` occupies a single bit: decoding reads only bit `bit_offset` of the
//! first byte; every other scalar type uses the whole span and ignores the
//! bit offset, since only boolean entries are packed below byte granularity.

use vstd::prelude::*;
use vstd::bytes::{
    spec_u16_from_le_bytes, spec_u16_to_le_bytes, spec_u32_from_le_bytes, spec_u32_to_le_bytes,
    spec_u64_from_le_bytes, spec_u64_to_le_bytes, u16_from_le_bytes, u16_to_le_bytes,
    u32_from_le_bytes, u32_to_le_bytes, u64_from_le_bytes, u64_to_le_bytes,
    lemma_auto_spec_u16_to_from_le_bytes, lemma_auto_spec_u32_to_from_le_bytes,
    lemma_auto_spec_u64_to_from_le_bytes,
};
use vstd::slice::slice_to_vec;
use crate::error::Error;
use crate::types::{DataType, Value};

verus! {

/// The ghost shape of a [`Value`]: the same variants over mathematical
/// sequences instead of heap-backed containers.
pub enum ValueView {
    Bool(bool),
    Byte(u8),
    I8(i8),
    I16(i16),
    I32(i32),
    I64(i64),
    U8(u8),
    U16(u16),
    U32(u32),
    U64(u64),
    F32(u32),
    F64(u64),
    String(Seq<char>),
    U8Array(Seq<u8>),
    U16Array(Seq<u16>),
    Bit1(bool),
    Bit2(bool),
    Bit3(bool),
    Bit4(bool),
    Bit5(bool),
    Bit6(bool),
    Bit7(bool),
    Bit8(bool),
    Raw(Seq<u8>),
}

impl View for Value {
    type V = ValueView;

    open spec fn view(&self) -> ValueView {
        match self {
            Value::Bool(b) => ValueView::Bool(*b),
            Value::Byte(x) => ValueView::Byte(*x),
            Value::I8(x) => ValueView::I8(*x),
            Value::I16(x) => ValueView::I16(*x),
            Value::I32(x) => ValueView::I32(*x),
            Value::I64(x) => ValueView::I64(*x),
            Value::U8(x) => ValueView::U8(*x),
            Value::U16(x) => ValueView::U16(*x),
            Value::U32(x) => ValueView::U32(*x),
            Value::U64(x) => ValueView::U64(*x),
            Value::F32(x) => ValueView::F32(*x),
            Value::F64(x) => ValueView::F64(*x),
            Value::String(s) => ValueView::String(s@),
            Value::U8Array(v) => ValueView::U8Array(v@),
            Value::U16Array(v) => ValueView::U16Array(v@),
            Value::Bit1(b) => ValueView::Bit1(*b),
            Value::Bit2(b) => ValueView::Bit2(*b),
            Value::Bit3(b) => ValueView::Bit3(*b),
            Value::Bit4(b) => ValueView::Bit4(*b),
            Value::Bit5(b) => ValueView::Bit5(*b),
            Value::Bit6(b) => ValueView::Bit6(*b),
            Value::Bit7(b) => ValueView::Bit7(*b),
            Value::Bit8(b) => ValueView::Bit8(*b),
            Value::Raw(v) => ValueView::Raw(v@),
        }
    }
}

/// The data type a decoded value reports itself as.
pub open spec fn spec_value_data_type(v: ValueView) -> DataType {
    match v {
        ValueView::Bool(_) => DataType::Bool,
        ValueView::Byte(_) => DataType::Byte,
        ValueView::I8(_) => DataType::I8,
        ValueView::I16(_) => DataType::I16,
        ValueView::I32(_) => DataType::I32,
        ValueView::I64(_) => DataType::I64,
        ValueView::U8(_) => DataType::U8,
        ValueView::U16(_) => DataType::U16,
        ValueView::U32(_) => DataType::U32,
        ValueView::U64(_) => DataType::U64,
        ValueView::F32(_) => DataType::F32,
        ValueView::F64(_) => DataType::F64,
        ValueView::String(_) => DataType::String,
        ValueView::U8Array(_) => DataType::U8Array,
        ValueView::U16Array(_) => DataType::U16Array,
        ValueView::Bit1(_) => DataType::Bit1,
        ValueView::Bit2(_) => DataType::Bit2,
        ValueView::Bit3(_) => DataType::Bit3,
        ValueView::Bit4(_) => DataType::Bit4,
        ValueView::Bit5(_) => DataType::Bit5,
        ValueView::Bit6(_) => DataType::Bit6,
        ValueView::Bit7(_) => DataType::Bit7,
        ValueView::Bit8(_) => DataType::Bit8,
        ValueView::Raw(_) => DataType::Raw,
    }
}

/// Number of bytes a span of `bits` bits occupies.
pub open spec fn spec_byte_cnt(bits: nat) -> nat {
    if bits % 8 == 0 {
        bits / 8
    } else {
        bits / 8 + 1
    }
}

/// Number of bytes a span of `bits` bits occupies.
pub fn byte_cnt(bits: usize) -> (r: usize)
    ensures
        r == spec_byte_cnt(bits as nat),
{
    if bits % 8 == 0 {
        bits / 8
    } else {
        bits / 8 + 1
    }
}

/// Whether bit `k` of byte `b` is set.
pub open spec fn spec_bit_at(b: u8, k: usize) -> bool
    recommends
        k < 8,
{
    b & (1u8 << k) != 0
}

/// What `String::from_utf8_lossy` makes of a byte sequence.
pub uninterp spec fn utf8_lossy_of(b: Seq<u8>) -> Seq<char>;

/// Relies on `String::from_utf8_lossy`: best-effort UTF-8 decoding whose
/// result depends on the input bytes alone; invalid sequences are replaced,
/// never fatal.
#[verifier::external_body]
fn utf8_lossy(raw: &[u8]) -> (r: String)
    ensures
        r@ == utf8_lossy_of(raw@),
{
    String::from_utf8_lossy(raw).to_string()
}

/// The value denoted by `raw` under data type `dt`, reading only bit
/// `bit_offset` of the first byte for `Bool`.
pub open spec fn spec_value_from_slice(dt: DataType, raw: Seq<u8>, bit_offset: usize) -> Result<
    ValueView,
    Error,
> {
    if raw.len() == 0 {
        Err(Error::ValueFromEmptyBuf)
    } else {
        match dt {
            DataType::Bool => Ok(ValueView::Bool(spec_bit_at(raw[0], bit_offset))),
            DataType::Byte => Ok(ValueView::Byte(raw[0])),
            DataType::I8 => Ok(ValueView::I8(raw[0] as i8)),
            DataType::I16 => if raw.len() == 2 {
                Ok(ValueView::I16(spec_u16_from_le_bytes(raw) as i16))
            } else {
                Err(Error::ValueConversion)
            },
            DataType::I32 => if raw.len() == 4 {
                Ok(ValueView::I32(spec_u32_from_le_bytes(raw) as i32))
            } else {
                Err(Error::ValueConversion)
            },
            DataType::I64 => if raw.len() == 8 {
                Ok(ValueView::I64(spec_u64_from_le_bytes(raw) as i64))
            } else {
                Err(Error::ValueConversion)
            },
            DataType::U8 => Ok(ValueView::U8(raw[0])),
            DataType::U16 => if raw.len() == 2 {
                Ok(ValueView::U16(spec_u16_from_le_bytes(raw)))
            } else {
                Err(Error::ValueConversion)
            },
            DataType::U32 => if raw.len() == 4 {
                Ok(ValueView::U32(spec_u32_from_le_bytes(raw)))
            } else {
                Err(Error::ValueConversion)
            },
            DataType::U64 => if raw.len() == 8 {
                Ok(ValueView::U64(spec_u64_from_le_bytes(raw)))
            } else {
                Err(Error::ValueConversion)
            },
            DataType::F32 => if raw.len() == 4 {
                Ok(ValueView::F32(spec_u32_from_le_bytes(raw)))
            } else {
                Err(Error::ValueConversion)
            },
            DataType::F64 => if raw.len() == 8 {
                Ok(ValueView::F64(spec_u64_from_le_bytes(raw)))
            } else {
                Err(Error::ValueConversion)
            },
            DataType::String => Ok(ValueView::String(utf8_lossy_of(raw))),
            DataType::U8Array => Ok(ValueView::U8Array(raw)),
            DataType::Raw => Ok(ValueView::Raw(raw)),
            _ => Err(Error::UnsuportedDataType(dt)),
        }
    }
}

/// The ghost shape of a decode result.
pub open spec fn spec_result_view(r: Result<Value, Error>) -> Result<ValueView, Error> {
    match r {
        Ok(v) => Ok(v@),
        Err(e) => Err(e),
    }
}

/// Decodes the value of data type `dt` held in `raw`.
///
/// The caller hands exactly the byte span of the entry; scalar types wider
/// than one byte insist on their exact width, and an empty span is rejected
/// as [`Error::ValueFromEmptyBuf`].  Data types the codec does not support
/// are rejected as [`Error::UnsuportedDataType`], never guessed at.
pub fn value_from_slice(dt: DataType, raw: &[u8], bit_offset: usize) -> (r: Result<Value, Error>)
    requires
        bit_offset < 8,
    ensures
        spec_result_view(r) == spec_value_from_slice(dt, raw@, bit_offset),
{
    if raw.len() == 0 {
        return Err(Error::ValueFromEmptyBuf);
    }
    match dt {
        DataType::Bool => Ok(Value::Bool(raw[0] & (1u8 << bit_offset) != 0)),
        DataType::Byte => Ok(Value::Byte(raw[0])),
        DataType::I8 => Ok(Value::I8(raw[0] as i8)),
        DataType::I16 => if raw.len() == 2 {
            Ok(Value::I16(u16_from_le_bytes(raw) as i16))
        } else {
            Err(Error::ValueConversion)
        },
        DataType::I32 => if raw.len() == 4 {
            Ok(Value::I32(u32_from_le_bytes(raw) as i32))
        } else {
            Err(Error::ValueConversion)
        },
        DataType::I64 => if raw.len() == 8 {
            Ok(Value::I64(u64_from_le_bytes(raw) as i64))
        } else {
            Err(Error::ValueConversion)
        },
        DataType::U8 => Ok(Value::U8(raw[0])),
        DataType::U16 => if raw.len() == 2 {
            Ok(Value::U16(u16_from_le_bytes(raw)))
        } else {
            Err(Error::ValueConversion)
        },
        DataType::U32 => if raw.len() == 4 {
            Ok(Value::U32(u32_from_le_bytes(raw)))
        } else {
            Err(Error::ValueConversion)
        },
        DataType::U64 => if raw.len() == 8 {
            Ok(Value::U64(u64_from_le_bytes(raw)))
        } else {
            Err(Error::ValueConversion)
        },
        DataType::F32 => if raw.len() == 4 {
            Ok(Value::F32(u32_from_le_bytes(raw)))
        } else {
            Err(Error::ValueConversion)
        },
        DataType::F64 => if raw.len() == 8 {
            Ok(Value::F64(u64_from_le_bytes(raw)))
        } else {
            Err(Error::ValueConversion)
        },
        DataType::String => Ok(Value::String(utf8_lossy(raw))),
        DataType::U8Array => Ok(Value::U8Array(slice_to_vec(raw))),
        DataType::Raw => Ok(Value::Raw(slice_to_vec(raw))),
        _ => Err(Error::UnsuportedDataType(dt)),
    }
}

/// The wire bytes of a value, `None` for the variants that have no wire
/// encoding (strings, arrays and the single-bit aliases).
pub open spec fn spec_value_to_bytes(v: ValueView) -> Option<Seq<u8>> {
    match v {
        ValueView::Bool(b) => Some(if b {
            seq![1u8]
        } else {
            seq![0u8]
        }),
        ValueView::Byte(x) => Some(seq![x]),
        ValueView::I8(x) => Some(seq![x as u8]),
        ValueView::I16(x) => Some(spec_u16_to_le_bytes(x as u16)),
        ValueView::I32(x) => Some(spec_u32_to_le_bytes(x as u32)),
        ValueView::I64(x) => Some(spec_u64_to_le_bytes(x as u64)),
        ValueView::U8(x) => Some(seq![x]),
        ValueView::U16(x) => Some(spec_u16_to_le_bytes(x)),
        ValueView::U32(x) => Some(spec_u32_to_le_bytes(x)),
        ValueView::U64(x) => Some(spec_u64_to_le_bytes(x)),
        ValueView::F32(x) => Some(spec_u32_to_le_bytes(x)),
        ValueView::F64(x) => Some(spec_u64_to_le_bytes(x)),
        ValueView::Raw(b) => Some(b),
        _ => None,
    }
}

/// Encodes a value to its little-endian wire bytes.
///
/// Returns [`Error::UnsuportedValue`] holding the value itself for the
/// variants that have no wire encoding.
pub fn value_to_bytes(v: Value) -> (r: Result<Vec<u8>, Error>)
    ensures
        match spec_value_to_bytes(v@) {
            Some(b) => r matches Ok(bytes) && bytes@ == b,
            None => r == Err::<Vec<u8>, Error>(Error::UnsuportedValue(v)),
        },
{
    match v {
        Value::Bool(b) => {
            let mut out: Vec<u8> = Vec::new();
            out.push(if b { 1 } else { 0 });
            assert(out@ == spec_value_to_bytes(ValueView::Bool(b))->Some_0);
            Ok(out)
        },
        Value::Byte(x) => {
            let mut out: Vec<u8> = Vec::new();
            out.push(x);
            assert(out@ == seq![x]);
            Ok(out)
        },
        Value::I8(x) => {
            let mut out: Vec<u8> = Vec::new();
            out.push(x as u8);
            assert(out@ == seq![x as u8]);
            Ok(out)
        },
        Value::I16(x) => Ok(u16_to_le_bytes(x as u16)),
        Value::I32(x) => Ok(u32_to_le_bytes(x as u32)),
        Value::I64(x) => Ok(u64_to_le_bytes(x as u64)),
        Value::U8(x) => {
            let mut out: Vec<u8> = Vec::new();
            out.push(x);
            assert(out@ == seq![x]);
            Ok(out)
        },
        Value::U16(x) => Ok(u16_to_le_bytes(x)),
        Value::U32(x) => Ok(u32_to_le_bytes(x)),
        Value::U64(x) => Ok(u64_to_le_bytes(x)),
        Value::F32(x) => Ok(u32_to_le_bytes(x)),
        Value::F64(x) => Ok(u64_to_le_bytes(x)),
        Value::Raw(bytes) => Ok(bytes),
        other => Err(Error::UnsuportedValue(other)),
    }
}

/// Round-trip law: every value the codec can put on the wire is read back
/// unchanged when its bytes are decoded with the value's own data type and
/// bit offset — any offset for the scalar types, which ignore it, and
/// offset 0 for a boolean, whose encoding carries its bit there.  Strings
/// and arrays have no wire encoding and so are not subject to the law; a
/// raw value must be non-empty to be representable on the wire at all.
pub proof fn lemma_codec_round_trip(v: ValueView, bit_offset: usize)
    requires
        spec_value_to_bytes(v) is Some,
        v matches ValueView::Raw(b) ==> b.len() > 0,
        bit_offset < 8,
        v is Bool ==> bit_offset == 0,
    ensures
        spec_value_from_slice(
            spec_value_data_type(v),
            spec_value_to_bytes(v)->Some_0,
            bit_offset,
        ) == Ok::<ValueView, Error>(v),
{
    lemma_auto_spec_u16_to_from_le_bytes();
    lemma_auto_spec_u32_to_from_le_bytes();
    lemma_auto_spec_u64_to_from_le_bytes();
    match v {
        ValueView::Bool(b) => {
            assert(1u8 & (1u8 << 0usize) != 0) by (bit_vector);
            assert(0u8 & (1u8 << 0usize) == 0) by (bit_vector);
        },
        ValueView::I8(x) => {
            assert((x as u8) as i8 == x) by (bit_vector);
        },
        ValueView::I16(x) => {
            assert((x as u16) as i16 == x) by (bit_vector);
        },
        ValueView::I32(x) => {
            assert((x as u32) as i32 == x) by (bit_vector);
        },
        ValueView::I64(x) => {
            assert((x as u64) as i64 == x) by (bit_vector);
        },
        _ => {},
    }
}

} // verus!
