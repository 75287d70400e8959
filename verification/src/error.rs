//! The error taxonomy of the library.
//!
//! Discovery and resolution errors name the slave and the SDO position they
//! failed at; codec errors name the data type or value that was rejected, so
//! that a caller can correlate every failure with the device's object
//! dictionary documentation.

use vstd::prelude::*;
use crate::al_status::AlStatus;
use crate::types::{DataType, PdoEntryIdx, SdoIdx, SlavePos, Value};

verus! {

/// Position of an object description in the object list, as counted by the
/// information services.
pub type SdoPos = u16;

/// Everything that can go wrong while configuring the bus, discovering
/// dictionaries, resolving PDO assignments, or moving process-data values.
#[derive(Clone, Debug, PartialEq)]
pub enum Error {
    /// The master stack could not be initialised.
    Init,
    /// The network interface name was not usable.
    Iface,
    /// No slaves were found on the bus.
    NoSlaves,
    /// The process-data map group could not be configured.
    CfgMapGroup,
    /// Distributed clocks could not be configured.
    CfgDc,
    /// The requested AL state could not be set.
    SetState,
    /// The AL state could not be checked.
    CheckState,
    /// The AL states could not be read.
    ReadStates,
    /// Process data could not be sent.
    SendProcessData,
    /// Process data could not be received.
    RecvProcessData,
    /// A slave reported an invalid AL state, with its AL status code.
    AlState(AlStatus),
    /// An invalid group id was used.
    GroupId,
    /// The object-description list of this slave could not be read.
    ReadOdList(SlavePos),
    /// The object description at this list position could not be read.
    ReadOdDesc(SdoPos),
    /// The entry list of the object at this list position could not be read.
    ReadOeList(SdoPos),
    /// An SDO upload from this slave at this entry failed.
    ReadSdo(SlavePos, SdoIdx),
    /// No dictionary object with this index is known for this slave.
    IdxNotFound(SlavePos, u16),
    /// No dictionary entry with this index and subindex is known for this
    /// slave.
    SubIdxNotFound(SlavePos, SdoIdx),
    /// An SDO download to this slave at this entry failed.
    WriteSdo(SlavePos, SdoIdx),
    /// The codec has no decoding for this data type.
    UnsuportedDataType(DataType),
    /// A value was to be decoded from an empty buffer.
    ValueFromEmptyBuf,
    /// The raw byte count did not match the data type's width.
    ValueConversion,
    /// No frame was received.
    NoFrame,
    /// An unknown frame was received.
    OtherFrame,
    /// A sync-manager communication type was missing or unknown.
    InvalidSmType,
    /// No PDO map is known for this slave.
    SlaveNotFound(SlavePos),
    /// No mapped PDO entry with this index is known.
    PdoEntryNotFound(PdoEntryIdx),
    /// The codec has no wire encoding for this value.
    UnsuportedValue(Value),
    /// An encoded value did not fit the byte span of the entry it was
    /// written to.
    DataSizeMismatch(PdoEntryIdx),
    /// A resolved PDO layout outgrew the addressable process image.
    PdoLayoutOverflow,
}

} // verus!
