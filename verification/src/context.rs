//! Errors popped from the engine's error stack.
//!
//! The engine keeps a stack of typed errors behind its context; draining it
//! is an engine call, but what a popped record means — its error class and
//! abort code — is modelled here.

use vstd::prelude::*;

verus! {

/// Classes of errors the engine's error stack distinguishes, with the
/// numeric class codes its error records carry (see [`err_type_from_u32`]).
#[derive(Clone, Copy, Debug, PartialEq, Eq, Structural, Hash)]
pub enum ErrType {
    Emergency,
    Packet,
    Mbx,
    Sdo,
    SdoInfo,
    Soe,
    Foe,
    FoePacketNumber,
    FoeFileNotFound,
    FoeBufTooSmall,
    EoeInvalidRxData,
    Unknown(u32),
}

/// The error class denoted by a class code from an engine error record:
/// 0 is an SDO error, 1 an emergency, 3 a packet error, 4 an SDO-information
/// error, 5 to 7 the FoE errors, 8 an SoE error, 9 a mailbox error, 10 a
/// missing FoE file, 11 invalid EoE receive data; anything else is retained
/// as `Unknown` with its code.
pub open spec fn spec_err_type_from_u32(t: u32) -> ErrType {
    match t {
        0u32 => ErrType::Sdo,
        1u32 => ErrType::Emergency,
        3u32 => ErrType::Packet,
        4u32 => ErrType::SdoInfo,
        5u32 => ErrType::Foe,
        6u32 => ErrType::FoeBufTooSmall,
        7u32 => ErrType::FoePacketNumber,
        8u32 => ErrType::Soe,
        9u32 => ErrType::Mbx,
        10u32 => ErrType::FoeFileNotFound,
        11u32 => ErrType::EoeInvalidRxData,
        _ => ErrType::Unknown(t),
    }
}

/// Decodes the class code of an engine error record.
pub fn err_type_from_u32(t: u32) -> (r: ErrType)
    ensures
        r == spec_err_type_from_u32(t),
{
    match t {
        0 => ErrType::Sdo,
        1 => ErrType::Emergency,
        3 => ErrType::Packet,
        4 => ErrType::SdoInfo,
        5 => ErrType::Foe,
        6 => ErrType::FoeBufTooSmall,
        7 => ErrType::FoePacketNumber,
        8 => ErrType::Soe,
        9 => ErrType::Mbx,
        10 => ErrType::FoeFileNotFound,
        11 => ErrType::EoeInvalidRxData,
        _ => ErrType::Unknown(t),
    }
}

/// One error popped from the engine's error stack: its class, the abort
/// code of the failed transfer, and the engine's message for it.
#[derive(Clone, Debug, PartialEq)]
pub struct EcError {
    pub e_type: ErrType,
    pub code: i32,
    pub msg: String,
}

impl EcError {
    /// Builds a record from the plain fields of a popped engine error.
    pub fn new(class_code: u32, code: i32, msg: String) -> (r: EcError)
        ensures
            r.e_type == spec_err_type_from_u32(class_code),
            r.code == code,
            r.msg@ == msg@,
    {
        EcError { e_type: err_type_from_u32(class_code), code, msg }
    }
}

} // verus!
