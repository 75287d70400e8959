//! The object-dictionary model and its builder.
//!
//! Discovery walks the CoE SDO information services: one mailbox request for
//! the object list, then per object one request for its description and one
//! for its entry list.  Those transfers hand back plain values; everything
//! that is decided about them — which entries are decodable, what access
//! rights a bitmap encodes, how an object is assembled and looked up — is
//! verified here.

use vstd::prelude::*;
use crate::error::SdoPos;
use crate::types::{spec_data_type_from_u16, data_type_from_u16, DataType, SdoIdx};

verus! {

/// Access right of an entry in one AL state.
#[derive(Clone, Copy, Debug, PartialEq, Eq, Structural, Hash)]
pub enum Access {
    ReadOnly,
    ReadWrite,
    WriteOnly,
    Unknown,
}

/// Access rights of an entry per AL state.
#[derive(Clone, Copy, Debug, PartialEq, Eq, Structural, Hash)]
pub struct SdoEntryAccess {
    pub pre_op: Access,
    pub safe_op: Access,
    pub op: Access,
}

/// Description of one top-level dictionary object.
#[derive(Clone, Debug, PartialEq)]
pub struct SdoInfo {
    /// Position of the object in the object-description list.
    pub pos: SdoPos,
    /// Object index.
    pub idx: u16,
    /// Highest subindex the object carries.
    pub max_sub_idx: u8,
    /// Object code from the object description.
    pub object_code: Option<u8>,
    /// Object name from the object description.
    pub name: String,
}

/// Description of one dictionary entry (one subindex of an object).
#[derive(Clone, Debug, PartialEq)]
pub struct SdoEntryInfo {
    pub data_type: DataType,
    /// Width of the entry on the wire in bits, never 0 here: an entry whose
    /// reported bit length is 0 is retained as `None` in its object instead.
    pub bit_len: u16,
    pub access: SdoEntryAccess,
    pub description: String,
}

/// One object with its per-subindex entries.  Slot `j` describes subindex
/// `j`; slot 0 is the "number of entries" meta-field.  A slot is `None` when
/// the entry was reported with an unknown data type or a bit length of 0:
/// such an entry is retained but not decodable.
#[derive(Clone, Debug, PartialEq)]
pub struct SdoObject {
    pub info: SdoInfo,
    pub entries: Vec<Option<SdoEntryInfo>>,
}

/// The object dictionary of one slave, in object-list order.
pub type SlaveOd = Vec<SdoObject>;

/// The access right encoded by one read bit and one write bit.
pub open spec fn spec_access(read: bool, write: bool) -> Access {
    match (read, write) {
        (true, false) => Access::ReadOnly,
        (false, true) => Access::WriteOnly,
        (true, true) => Access::ReadWrite,
        (false, false) => Access::Unknown,
    }
}

/// The access right encoded by one read bit and one write bit.
pub fn access(read: bool, write: bool) -> (r: Access)
    ensures
        r == spec_access(read, write),
{
    match (read, write) {
        (true, false) => Access::ReadOnly,
        (false, true) => Access::WriteOnly,
        (true, true) => Access::ReadWrite,
        (false, false) => Access::Unknown,
    }
}

/// The per-state access rights encoded by an object-access bitmap: bits 0-2
/// grant reading in pre-op, safe-op and op, bits 3-5 grant writing in the
/// same states.
pub open spec fn spec_access_from_u16(x: u16) -> SdoEntryAccess {
    SdoEntryAccess {
        pre_op: spec_access(x & 0x0001 > 0, x & 0x0008 > 0),
        safe_op: spec_access(x & 0x0002 > 0, x & 0x0010 > 0),
        op: spec_access(x & 0x0004 > 0, x & 0x0020 > 0),
    }
}

/// Decodes the access bitmap of an object-description entry.
pub fn access_from_u16(x: u16) -> (r: SdoEntryAccess)
    ensures
        r == spec_access_from_u16(x),
{
    let p = access(x & 0x0001 > 0, x & 0x0008 > 0);
    let s = access(x & 0x0002 > 0, x & 0x0010 > 0);
    let o = access(x & 0x0004 > 0, x & 0x0020 > 0);
    SdoEntryAccess { pre_op: p, safe_op: s, op: o }
}

/// What one retained, decodable entry must hold, given the raw fields of the
/// entry-list response it was built from.
pub open spec fn spec_entry_matches_raw(
    e: SdoEntryInfo,
    dt_code: u16,
    bit_len: u16,
    access_bits: u16,
    description: Seq<char>,
) -> bool {
    &&& Some(e.data_type) == spec_data_type_from_u16(dt_code)
    &&& e.bit_len == bit_len
    &&& e.access == spec_access_from_u16(access_bits)
    &&& e.description@ == description
}

/// What a dictionary slot must hold, given the raw fields it was built from:
/// the entry is decodable exactly when the data-type code is known and the
/// bit length is not 0; otherwise the slot is retained empty.
pub open spec fn spec_slot_matches_raw(
    slot: Option<SdoEntryInfo>,
    dt_code: u16,
    bit_len: u16,
    access_bits: u16,
    description: Seq<char>,
) -> bool {
    &&& slot is Some <==> (spec_data_type_from_u16(dt_code) is Some && bit_len != 0)
    &&& slot matches Some(e) ==> spec_entry_matches_raw(e, dt_code, bit_len, access_bits, description)
}

/// Builds the dictionary slot for one subindex from the raw fields of the
/// entry-list response.  An unknown data-type code or a bit length of 0
/// yields an empty slot: the entry is retained but marked not decodable,
/// never guessed at.
pub fn entry_from_raw(dt_code: u16, bit_len: u16, access_bits: u16, description: String) -> (r:
    Option<SdoEntryInfo>)
    ensures
        spec_slot_matches_raw(r, dt_code, bit_len, access_bits, description@),
{
    match data_type_from_u16(dt_code) {
        Some(data_type) => {
            if bit_len != 0 {
                Some(
                    SdoEntryInfo {
                        data_type,
                        bit_len,
                        access: access_from_u16(access_bits),
                        description,
                    },
                )
            } else {
                None
            }
        },
        None => None,
    }
}

/// The raw content of one object description and its entry list, exactly as
/// the information services hand it over: per subindex `j` (0 up to and
/// including `max_sub_idx`) a data-type code, a bit length, an access bitmap
/// and a textual description.
pub struct OdObjectRaw {
    pub idx: u16,
    pub object_code: u8,
    pub max_sub_idx: u8,
    pub name: String,
    pub data_types: Vec<u16>,
    pub bit_lengths: Vec<u16>,
    pub object_access: Vec<u16>,
    pub descriptions: Vec<String>,
}

impl OdObjectRaw {
    /// The raw lists cover every subindex of the object.
    pub open spec fn complete(&self) -> bool {
        &&& self.data_types@.len() > self.max_sub_idx
        &&& self.bit_lengths@.len() > self.max_sub_idx
        &&& self.object_access@.len() > self.max_sub_idx
        &&& self.descriptions@.len() > self.max_sub_idx
    }
}

/// Assembles one dictionary object from the raw object description and entry
/// list, building one slot per subindex as [`entry_from_raw`] does.
pub fn build_object(pos: SdoPos, raw: &OdObjectRaw) -> (r: SdoObject)
    requires
        raw.complete(),
    ensures
        r.info.pos == pos,
        r.info.idx == raw.idx,
        r.info.max_sub_idx == raw.max_sub_idx,
        r.info.object_code == Some(raw.object_code),
        r.info.name@ == raw.name@,
        r.entries@.len() == raw.max_sub_idx + 1,
        forall|j: int|
            0 <= j <= raw.max_sub_idx ==> spec_slot_matches_raw(
                #[trigger] r.entries@[j],
                raw.data_types@[j],
                raw.bit_lengths@[j],
                raw.object_access@[j],
                raw.descriptions@[j]@,
            ),
{
    let info = SdoInfo {
        pos,
        idx: raw.idx,
        max_sub_idx: raw.max_sub_idx,
        object_code: Some(raw.object_code),
        name: raw.name.clone(),
    };
    let mut entries: Vec<Option<SdoEntryInfo>> = Vec::new();
    let last: usize = raw.max_sub_idx as usize;
    let mut j: usize = 0;
    while j <= last
        invariant
            raw.complete(),
            last == raw.max_sub_idx,
            j <= last + 1,
            entries@.len() == j,
            forall|k: int|
                0 <= k < j ==> spec_slot_matches_raw(
                    #[trigger] entries@[k],
                    raw.data_types@[k],
                    raw.bit_lengths@[k],
                    raw.object_access@[k],
                    raw.descriptions@[k]@,
                ),
        decreases last + 1 - j,
    {
        let slot = entry_from_raw(
            raw.data_types[j],
            raw.bit_lengths[j],
            raw.object_access[j],
            raw.descriptions[j].clone(),
        );
        entries.push(slot);
        j = j + 1;
    }
    SdoObject { info, entries }
}

/// Whether some object of the dictionary carries this object index.
pub open spec fn spec_has_object(od: Seq<SdoObject>, idx: u16) -> bool {
    exists|j: int| 0 <= j < od.len() && od[j].info.idx == idx
}

/// Finds the first object with the given object index.
pub fn find_object<'a>(od: &'a SlaveOd, idx: u16) -> (r: Option<&'a SdoObject>)
    ensures
        match r {
            Some(obj) => exists|j: int|
                {
                    &&& 0 <= j < od@.len()
                    &&& od@[j].info.idx == idx
                    &&& obj == &od@[j]
                    &&& forall|k: int| 0 <= k < j ==> od@[k].info.idx != idx
                },
            None => !spec_has_object(od@, idx),
        },
{
    let n = od.len();
    let mut j: usize = 0;
    while j < n
        invariant
            n == od@.len(),
            j <= n,
            forall|k: int| 0 <= k < j ==> od@[k].info.idx != idx,
        decreases n - j,
    {
        if od[j].info.idx == idx {
            return Some(&od[j]);
        }
        j = j + 1;
    }
    None
}

/// Whether the dictionary holds a decodable entry at this index and
/// subindex, judged on the first object with the entry's object index.
pub open spec fn spec_entry_found(od: Seq<SdoObject>, idx: SdoIdx, e: SdoEntryInfo) -> bool {
    exists|j: int|
        {
            &&& 0 <= j < od.len()
            &&& od[j].info.idx == idx.idx
            &&& forall|k: int| 0 <= k < j ==> od[k].info.idx != idx.idx
            &&& idx.sub_idx < od[j].entries@.len()
            &&& od[j].entries@[idx.sub_idx as int] == Some(e)
        }
}

/// Looks an entry up by object index and subindex: the first object with
/// that index is consulted, and only a retained, decodable slot is returned.
pub fn find_entry<'a>(od: &'a SlaveOd, idx: SdoIdx) -> (r: Option<&'a SdoEntryInfo>)
    ensures
        match r {
            Some(e) => spec_entry_found(od@, idx, *e),
            None => forall|e: SdoEntryInfo| !spec_entry_found(od@, idx, e),
        },
{
    match find_object(od, idx.idx) {
        Some(obj) => {
            let sub = idx.sub_idx as usize;
            if sub < obj.entries.len() {
                match &obj.entries[sub] {
                    Some(e) => Some(e),
                    None => None,
                }
            } else {
                None
            }
        },
        None => None,
    }
}

} // verus!
