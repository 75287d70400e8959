//! The data model of the CoE object dictionary and of process-data values.
//!
//! Every type here holds plain values only, so that contracts can speak about
//! each field directly.  Floating-point process values are carried as their
//! IEEE-754 bit patterns (`Value::F32` holds a `u32`, `Value::F64` a `u64`):
//! the codec moves bytes, it never does float arithmetic, and the bit pattern
//! is exactly what stands in the process image.

use vstd::prelude::*;

verus! {

/// Zero-based logical position of a slave on the bus.
pub type SlavePos = u16;

/// Address of one object-dictionary entry: 16-bit object index and 8-bit
/// subindex.  Ordering of entries is numeric on `idx`, then on `sub_idx`.
#[derive(Clone, Copy, Debug, PartialEq, Eq, Structural, Hash)]
pub struct SdoIdx {
    pub idx: u16,
    pub sub_idx: u8,
}

impl SdoIdx {
    pub fn new(idx: u16, sub: u8) -> (r: SdoIdx)
        ensures
            r == (SdoIdx { idx, sub_idx: sub }),
    {
        SdoIdx { idx, sub_idx: sub }
    }
}

/// Address of one entry inside a PDO mapping object: the PDO's object index
/// and the 1-based position of the entry in that mapping.
#[derive(Clone, Copy, Debug, PartialEq, Eq, Structural, Hash)]
pub struct PdoEntryIdx {
    pub idx: u16,
    pub sub_idx: u8,
}

impl PdoEntryIdx {
    pub fn new(idx: u16, sub: u8) -> (r: PdoEntryIdx)
        ensures
            r == (PdoEntryIdx { idx, sub_idx: sub }),
    {
        PdoEntryIdx { idx, sub_idx: sub }
    }
}

/// Position of a PDO entry in the process image: a byte offset into the
/// direction's region and a bit offset inside that byte.
#[derive(Clone, Copy, Debug, PartialEq, Eq, Structural, Hash)]
pub struct Offset {
    pub byte: usize,
    /// Bit inside the byte, always below 8.
    pub bit: u8,
}

/// CoE data types, by their standard 16-bit type codes (see
/// [`data_type_from_u16`]).  Only a subset has a codec; the rest is
/// representable so that discovered entries of such types can be retained and
/// rejected cleanly when a decode is attempted.
#[derive(Clone, Copy, Debug, PartialEq, Eq, Structural, Hash)]
pub enum DataType {
    Bool,
    Byte,
    I8,
    I16,
    I32,
    I64,
    U8,
    U16,
    U32,
    U64,
    F32,
    F64,
    String,
    U8Array,
    U16Array,
    I24,
    I40,
    I48,
    I56,
    U24,
    U40,
    U48,
    U56,
    Bit1,
    Bit2,
    Bit3,
    Bit4,
    Bit5,
    Bit6,
    Bit7,
    Bit8,
    TimeOfDay,
    TimeDifference,
    Domain,
    Raw,
}

/// The CoE data type denoted by a 16-bit type code, `None` for a code this
/// model does not know.
pub open spec fn spec_data_type_from_u16(code: u16) -> Option<DataType> {
    match code {
        0x0001u16 => Some(DataType::Bool),
        0x0002u16 => Some(DataType::I8),
        0x0003u16 => Some(DataType::I16),
        0x0004u16 => Some(DataType::I32),
        0x0005u16 => Some(DataType::U8),
        0x0006u16 => Some(DataType::U16),
        0x0007u16 => Some(DataType::U32),
        0x0008u16 => Some(DataType::F32),
        0x0009u16 => Some(DataType::String),
        0x000Au16 => Some(DataType::U8Array),
        0x000Bu16 => Some(DataType::U16Array),
        0x000Cu16 => Some(DataType::TimeOfDay),
        0x000Du16 => Some(DataType::TimeDifference),
        0x000Fu16 => Some(DataType::Domain),
        0x0010u16 => Some(DataType::I24),
        0x0011u16 => Some(DataType::F64),
        0x0012u16 => Some(DataType::I40),
        0x0013u16 => Some(DataType::I48),
        0x0014u16 => Some(DataType::I56),
        0x0015u16 => Some(DataType::I64),
        0x0016u16 => Some(DataType::U24),
        0x0018u16 => Some(DataType::U40),
        0x0019u16 => Some(DataType::U48),
        0x001Au16 => Some(DataType::U56),
        0x001Bu16 => Some(DataType::U64),
        0x001Eu16 => Some(DataType::Byte),
        0x0030u16 => Some(DataType::Bit1),
        0x0031u16 => Some(DataType::Bit2),
        0x0032u16 => Some(DataType::Bit3),
        0x0033u16 => Some(DataType::Bit4),
        0x0034u16 => Some(DataType::Bit5),
        0x0035u16 => Some(DataType::Bit6),
        0x0036u16 => Some(DataType::Bit7),
        0x0037u16 => Some(DataType::Bit8),
        0xFFFFu16 => Some(DataType::Raw),
        _ => None,
    }
}

/// Decodes a CoE data-type code as found in an object-description entry.
pub fn data_type_from_u16(code: u16) -> (r: Option<DataType>)
    ensures
        r == spec_data_type_from_u16(code),
{
    match code {
        0x0001 => Some(DataType::Bool),
        0x0002 => Some(DataType::I8),
        0x0003 => Some(DataType::I16),
        0x0004 => Some(DataType::I32),
        0x0005 => Some(DataType::U8),
        0x0006 => Some(DataType::U16),
        0x0007 => Some(DataType::U32),
        0x0008 => Some(DataType::F32),
        0x0009 => Some(DataType::String),
        0x000A => Some(DataType::U8Array),
        0x000B => Some(DataType::U16Array),
        0x000C => Some(DataType::TimeOfDay),
        0x000D => Some(DataType::TimeDifference),
        0x000F => Some(DataType::Domain),
        0x0010 => Some(DataType::I24),
        0x0011 => Some(DataType::F64),
        0x0012 => Some(DataType::I40),
        0x0013 => Some(DataType::I48),
        0x0014 => Some(DataType::I56),
        0x0015 => Some(DataType::I64),
        0x0016 => Some(DataType::U24),
        0x0018 => Some(DataType::U40),
        0x0019 => Some(DataType::U48),
        0x001A => Some(DataType::U56),
        0x001B => Some(DataType::U64),
        0x001E => Some(DataType::Byte),
        0x0030 => Some(DataType::Bit1),
        0x0031 => Some(DataType::Bit2),
        0x0032 => Some(DataType::Bit3),
        0x0033 => Some(DataType::Bit4),
        0x0034 => Some(DataType::Bit5),
        0x0035 => Some(DataType::Bit6),
        0x0036 => Some(DataType::Bit7),
        0x0037 => Some(DataType::Bit8),
        0xFFFF => Some(DataType::Raw),
        _ => None,
    }
}

/// Communication type of a sync manager, as object 0x1C00 reports it.
#[derive(Clone, Copy, Debug, PartialEq, Eq, Structural, Hash)]
pub enum SmType {
    /// The channel is not used.
    Unused,
    /// Mailbox data written by the master to the slave.
    MbxWr,
    /// Mailbox data read by the master from the slave.
    MbxRd,
    /// Cyclic process data towards the slave.
    Outputs,
    /// Cyclic process data from the slave.
    Inputs,
}

/// The sync-manager type encoded by a communication-type byte, `None` for an
/// unknown code.
pub open spec fn spec_sm_type_from_u8(code: u8) -> Option<SmType> {
    match code {
        0u8 => Some(SmType::Unused),
        1u8 => Some(SmType::MbxWr),
        2u8 => Some(SmType::MbxRd),
        3u8 => Some(SmType::Outputs),
        4u8 => Some(SmType::Inputs),
        _ => None,
    }
}

/// Decodes a sync-manager communication-type byte.
pub fn sm_type_from_u8(code: u8) -> (r: Option<SmType>)
    ensures
        r == spec_sm_type_from_u8(code),
{
    match code {
        0 => Some(SmType::Unused),
        1 => Some(SmType::MbxWr),
        2 => Some(SmType::MbxRd),
        3 => Some(SmType::Outputs),
        4 => Some(SmType::Inputs),
        _ => None,
    }
}

/// EtherCAT state-machine (AL) states.
#[derive(Clone, Copy, Debug, PartialEq, Eq, Structural, Hash)]
pub enum AlState {
    Boot,
    Init,
    PreOp,
    SafeOp,
    Op,
}

/// The AL state encoded by a state byte, `None` for an unknown code.
pub open spec fn spec_al_state_from_u8(code: u8) -> Option<AlState> {
    match code {
        1u8 => Some(AlState::Init),
        2u8 => Some(AlState::PreOp),
        3u8 => Some(AlState::Boot),
        4u8 => Some(AlState::SafeOp),
        8u8 => Some(AlState::Op),
        _ => None,
    }
}

/// Decodes an AL state byte.
pub fn al_state_from_u8(code: u8) -> (r: Option<AlState>)
    ensures
        r == spec_al_state_from_u8(code),
{
    match code {
        1 => Some(AlState::Init),
        2 => Some(AlState::PreOp),
        3 => Some(AlState::Boot),
        4 => Some(AlState::SafeOp),
        8 => Some(AlState::Op),
        _ => None,
    }
}

/// The state byte that stands for an AL state.
pub open spec fn spec_al_state_to_u8(s: AlState) -> u8 {
    match s {
        AlState::Init => 1u8,
        AlState::PreOp => 2u8,
        AlState::Boot => 3u8,
        AlState::SafeOp => 4u8,
        AlState::Op => 8u8,
    }
}

/// Encodes an AL state as its state byte.
pub fn al_state_to_u8(s: AlState) -> (r: u8)
    ensures
        r == spec_al_state_to_u8(s),
{
    match s {
        AlState::Init => 1,
        AlState::PreOp => 2,
        AlState::Boot => 3,
        AlState::SafeOp => 4,
        AlState::Op => 8,
    }
}

/// A typed process-data or SDO value.
///
/// `F32` and `F64` carry the IEEE-754 bit pattern of the number; the codec
/// never interprets it.  Variants beyond the scalar set exist so that every
/// value the dictionary can describe is representable; the codec rejects the
/// ones it has no wire encoding for.
#[derive(Clone, Debug, PartialEq)]
pub enum Value {
    Bool(bool),
    Byte(u8),
    I8(i8),
    I16(i16),
    I32(i32),
    I64(i64),
    U8(u8),
    U16(u16),
    U32(u32),
    U64(u64),
    /// IEEE-754 single-precision bit pattern.
    F32(u32),
    /// IEEE-754 double-precision bit pattern.
    F64(u64),
    String(String),
    U8Array(Vec<u8>),
    U16Array(Vec<u16>),
    Bit1(bool),
    Bit2(bool),
    Bit3(bool),
    Bit4(bool),
    Bit5(bool),
    Bit6(bool),
    Bit7(bool),
    Bit8(bool),
    Raw(Vec<u8>),
}

} // verus!
