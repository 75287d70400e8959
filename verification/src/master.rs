//! The master façade: the discovered dictionaries, the resolved PDO
//! assignments, and the process-data accessor over the cyclic image.
//!
//! The engine owns the wire and the shared I/O buffer; a [`Master`] owns the
//! model of it: per slave the object dictionary, the PDO layout, and the two
//! image regions the layout addresses.  Discovery fills it once during
//! configuration — the engine adapter runs the mailbox reads and feeds them
//! through [`crate::dict`] and [`crate::pdo`] — and the cyclic path then
//! decodes and patches values through the cached layout.

use vstd::prelude::*;
use crate::codec::{byte_cnt, spec_bit_at, spec_byte_cnt, spec_result_view, spec_value_data_type,
    spec_value_from_slice, spec_value_to_bytes, value_from_slice, value_to_bytes, ValueView};
use crate::dict::{find_entry, find_object, SdoEntryInfo, SdoInfo, SlaveOd, spec_entry_found,
    spec_has_object};
use crate::error::Error;
use crate::pdo::{PdoEntryInfo, PdoMapping, SlavePdos, spec_layout_ok};
use crate::types::{al_state_from_u8, AlState, DataType, PdoEntryIdx, SdoIdx, SlavePos, SmType,
    Value};

verus! {

/// The cached state of one configured bus.
///
/// Index `i` of every field belongs to the slave at position `i`.  The
/// dictionaries and layouts are built once during configuration and then
/// only read; the image regions are refreshed by the cyclic path.
pub struct Master {
    /// Per-slave object dictionaries.
    pub sdos: Vec<SlaveOd>,
    /// Per-slave resolved PDO assignments.
    pub pdos: Vec<SlavePdos>,
    /// Per-slave output region of the process image.
    pub outputs: Vec<Vec<u8>>,
    /// Per-slave input region of the process image.
    pub inputs: Vec<Vec<u8>>,
}

impl Master {
    /// One entry per slave everywhere, and every cached layout satisfies
    /// the layout invariant.
    pub open spec fn wf(&self) -> bool {
        &&& self.pdos@.len() == self.sdos@.len()
        &&& self.outputs@.len() == self.sdos@.len()
        &&& self.inputs@.len() == self.sdos@.len()
        &&& forall|i: int| 0 <= i < self.pdos@.len() ==> spec_layout_ok((#[trigger] self.pdos@[i])@)
    }

    /// A master with no slaves configured.
    pub fn new() -> (r: Master)
        ensures
            r.wf(),
            r.sdos@.len() == 0,
    {
        Master { sdos: Vec::new(), pdos: Vec::new(), outputs: Vec::new(), inputs: Vec::new() }
    }

    /// Number of configured slaves.
    pub fn slave_count(&self) -> (r: usize)
        ensures
            r == self.sdos@.len(),
    {
        self.sdos.len()
    }

    /// Adds the next slave's discovery results: its dictionary, its
    /// resolved assignment, and zeroed image regions of the sizes the
    /// engine reports for it.
    pub fn push_slave(&mut self, od: SlaveOd, pdos: SlavePdos, output_len: usize, input_len: usize)
        requires
            old(self).wf(),
            spec_layout_ok(pdos@),
        ensures
            final(self).wf(),
            final(self).sdos@ == old(self).sdos@.push(od),
            final(self).pdos@ == old(self).pdos@.push(pdos),
            final(self).outputs@.len() == old(self).outputs@.len() + 1,
            final(self).inputs@.len() == old(self).inputs@.len() + 1,
            final(self).outputs@.last()@ == Seq::new(output_len as nat, |i: int| 0u8),
            final(self).inputs@.last()@ == Seq::new(input_len as nat, |i: int| 0u8),
            forall|i: int|
                0 <= i < old(self).outputs@.len() ==> final(self).outputs@[i] == old(
                    self,
                ).outputs@[i] && final(self).inputs@[i] == old(self).inputs@[i],
    {
        self.sdos.push(od);
        self.pdos.push(pdos);
        let out_region: Vec<u8> = vec![0u8; output_len];
        let in_region: Vec<u8> = vec![0u8; input_len];
        proof {
            assert(out_region@ =~= Seq::new(output_len as nat, |i: int| 0u8));
            assert(in_region@ =~= Seq::new(input_len as nat, |i: int| 0u8));
        }
        self.outputs.push(out_region);
        self.inputs.push(in_region);
    }

    /// The output region of one slave's process image.
    pub fn output_image(&self, slave: SlavePos) -> (r: Option<&Vec<u8>>)
        ensures
            match r {
                Some(v) => slave < self.outputs@.len() && v == &self.outputs@[slave as int],
                None => slave >= self.outputs@.len(),
            },
    {
        if (slave as usize) < self.outputs.len() {
            Some(&self.outputs[slave as usize])
        } else {
            None
        }
    }

    /// The input region of one slave's process image.
    pub fn input_image(&self, slave: SlavePos) -> (r: Option<&Vec<u8>>)
        ensures
            match r {
                Some(v) => slave < self.inputs@.len() && v == &self.inputs@[slave as int],
                None => slave >= self.inputs@.len(),
            },
    {
        if (slave as usize) < self.inputs.len() {
            Some(&self.inputs[slave as usize])
        } else {
            None
        }
    }

    /// Replaces the input region of one slave with what the engine
    /// exchanged this cycle.
    pub fn load_inputs(&mut self, slave: SlavePos, data: Vec<u8>) -> (r: Result<(), Error>)
        requires
            old(self).wf(),
        ensures
            final(self).wf(),
            final(self).sdos@ == old(self).sdos@,
            final(self).pdos@ == old(self).pdos@,
            final(self).outputs@ == old(self).outputs@,
            slave < old(self).inputs@.len() ==> r == Ok::<(), Error>(()) && final(self).inputs@
                == old(self).inputs@.update(slave as int, data),
            slave >= old(self).inputs@.len() ==> r == Err::<(), Error>(
                Error::SlaveNotFound(slave),
            ) && final(self).inputs@ == old(self).inputs@,
    {
        if (slave as usize) < self.inputs.len() {
            self.inputs[slave as usize] = data;
            Ok(())
        } else {
            Err(Error::SlaveNotFound(slave))
        }
    }

    /// Replaces the output region of one slave, as exchanged with the
    /// engine.
    pub fn load_outputs(&mut self, slave: SlavePos, data: Vec<u8>) -> (r: Result<(), Error>)
        requires
            old(self).wf(),
        ensures
            final(self).wf(),
            final(self).sdos@ == old(self).sdos@,
            final(self).pdos@ == old(self).pdos@,
            final(self).inputs@ == old(self).inputs@,
            slave < old(self).outputs@.len() ==> r == Ok::<(), Error>(()) && final(self).outputs@
                == old(self).outputs@.update(slave as int, data),
            slave >= old(self).outputs@.len() ==> r == Err::<(), Error>(
                Error::SlaveNotFound(slave),
            ) && final(self).outputs@ == old(self).outputs@,
    {
        if (slave as usize) < self.outputs.len() {
            self.outputs[slave as usize] = data;
            Ok(())
        } else {
            Err(Error::SlaveNotFound(slave))
        }
    }

    /// The cached dictionary entry of one slave at this index and
    /// subindex, if a decodable one was discovered.
    pub fn cached_sdo_entry(&self, slave: SlavePos, idx: SdoIdx) -> (r: Option<&SdoEntryInfo>)
        ensures
            match r {
                Some(e) => slave < self.sdos@.len() && spec_entry_found(
                    self.sdos@[slave as int]@,
                    idx,
                    *e,
                ),
                None => slave >= self.sdos@.len() || (forall|e: SdoEntryInfo|
                    !spec_entry_found(self.sdos@[slave as int]@, idx, e)),
            },
    {
        if (slave as usize) < self.sdos.len() {
            find_entry(&self.sdos[slave as usize], idx)
        } else {
            None
        }
    }

    /// The cached description of one slave's dictionary object with this
    /// index, judged on the first object carrying it.
    pub fn cached_sdo_info(&self, slave: SlavePos, idx: u16) -> (r: Option<&SdoInfo>)
        ensures
            match r {
                Some(info) => slave < self.sdos@.len() && exists|j: int|
                    {
                        &&& 0 <= j < self.sdos@[slave as int]@.len()
                        &&& self.sdos@[slave as int]@[j].info.idx == idx
                        &&& (forall|k: int|
                            0 <= k < j ==> self.sdos@[slave as int]@[k].info.idx != idx)
                        &&& info == &self.sdos@[slave as int]@[j].info
                    },
                None => slave >= self.sdos@.len() || !spec_has_object(
                    self.sdos@[slave as int]@,
                    idx,
                ),
            },
    {
        if (slave as usize) < self.sdos.len() {
            match find_object(&self.sdos[slave as usize], idx) {
                Some(obj) => Some(&obj.info),
                None => None,
            }
        } else {
            None
        }
    }

    /// How many bytes an SDO upload of this entry needs, from the entry's
    /// discovered bit length.  An entry the dictionary does not hold as
    /// decodable is a typed error, never a guess.
    pub fn sdo_entry_byte_count(&self, slave: SlavePos, idx: SdoIdx) -> (r: Result<usize, Error>)
        ensures
            forall|e: SdoEntryInfo|
                slave < self.sdos@.len() && spec_entry_found(self.sdos@[slave as int]@, idx, e)
                    ==> r == Ok::<usize, Error>(spec_byte_cnt(e.bit_len as nat) as usize),
            (slave >= self.sdos@.len() || (forall|e: SdoEntryInfo|
                !spec_entry_found(self.sdos@[slave as int]@, idx, e))) ==> r == Err::<
                usize,
                Error,
            >(Error::SubIdxNotFound(slave, idx)),
    {
        match self.cached_sdo_entry(slave, idx) {
            Some(e) => Ok(byte_cnt(e.bit_len as usize)),
            None => Err(Error::SubIdxNotFound(slave, idx)),
        }
    }

    /// Decodes the bytes an SDO upload returned for this entry, with the
    /// entry's discovered data type.
    ///
    /// An entry that is not in the dictionary, or was retained there as not
    /// decodable, is a typed error; an entry whose data type the codec does
    /// not support fails inside the codec the same way.
    pub fn decode_sdo_value(&self, slave: SlavePos, idx: SdoIdx, raw: &[u8]) -> (r: Result<
        Value,
        Error,
    >)
        ensures
            forall|e: SdoEntryInfo|
                slave < self.sdos@.len() && spec_entry_found(self.sdos@[slave as int]@, idx, e)
                    ==> spec_result_view(r) == spec_value_from_slice(e.data_type, raw@, 0),
            (slave >= self.sdos@.len() || (forall|e: SdoEntryInfo|
                !spec_entry_found(self.sdos@[slave as int]@, idx, e))) ==> r == Err::<
                Value,
                Error,
            >(Error::SubIdxNotFound(slave, idx)),
    {
        match self.cached_sdo_entry(slave, idx) {
            Some(e) => value_from_slice(e.data_type, raw, 0),
            None => Err(Error::SubIdxNotFound(slave, idx)),
        }
    }
}

/// Maps the engine's bus-configuration result to the library's error: -1
/// stands for a lost frame, -2 for a foreign frame, anything else
/// non-positive for an empty bus.
pub fn config_init_error(res: i32) -> (r: Error)
    ensures
        res == -1 ==> r == Error::NoFrame,
        res == -2 ==> r == Error::OtherFrame,
        res != -1 && res != -2 ==> r == Error::NoSlaves,
{
    match res {
        -1 => Error::NoFrame,
        -2 => Error::OtherFrame,
        _ => Error::NoSlaves,
    }
}

/// The working counter a healthy cyclic exchange is expected to report:
/// twice the output counter plus the input counter.
pub fn expected_wkc(outputs_wkc: usize, inputs_wkc: usize) -> (r: Option<usize>)
    ensures
        2 * outputs_wkc + inputs_wkc <= usize::MAX ==> r == Some(
            (2 * outputs_wkc + inputs_wkc) as usize,
        ),
        2 * outputs_wkc + inputs_wkc > usize::MAX ==> r is None,
{
    match outputs_wkc.checked_mul(2) {
        Some(d) => d.checked_add(inputs_wkc),
        None => None,
    }
}

/// Judges the result of a state-write request: -1 means no frame came
/// back, 0 means the request was not taken.
pub fn write_state_result(res: i32) -> (r: Result<(), Error>)
    ensures
        res == -1 ==> r == Err::<(), Error>(Error::NoFrame),
        res == 0 ==> r == Err::<(), Error>(Error::SetState),
        res != -1 && res != 0 ==> r == Ok::<(), Error>(()),
{
    match res {
        -1 => Err(Error::NoFrame),
        0 => Err(Error::SetState),
        _ => Ok(()),
    }
}

/// Judges a state-check result: 0 means the check itself failed, anything
/// else is the AL state the bus settled in, which must be a known state
/// byte.
pub fn check_state_result(res: u16) -> (r: Result<AlState, Error>)
    ensures
        res == 0 ==> r == Err::<AlState, Error>(Error::CheckState),
        res != 0 ==> match crate::types::spec_al_state_from_u8(res as u8) {
            Some(s) => r == Ok::<AlState, Error>(s),
            None => r == Err::<AlState, Error>(Error::CheckState),
        },
    {
    if res == 0 {
        return Err(Error::CheckState);
    }
    match al_state_from_u8(res as u8) {
        Some(s) => Ok(s),
        None => Err(Error::CheckState),
    }
}

/// Decodes one slave's reported state, surfacing the slave's AL status
/// code when the state byte is not a known state.
pub fn slave_al_state(state: u8, status_code: u16) -> (r: Result<AlState, Error>)
    ensures
        match crate::types::spec_al_state_from_u8(state) {
            Some(s) => r == Ok::<AlState, Error>(s),
            None => r == Err::<AlState, Error>(
                Error::AlState(crate::al_status::spec_al_status_from_u16(status_code)),
            ),
        },
{
    match al_state_from_u8(state) {
        Some(s) => Ok(s),
        None => Err(Error::AlState(crate::al_status::AlStatus::from_u16(status_code))),
    }
}

/// Accepts a group index only below both the group-table length and the
/// configured group count.
pub fn check_group_index(i: usize, groups_len: usize, max_group: usize) -> (r: Result<(), Error>)
    ensures
        i < groups_len && i < max_group ==> r == Ok::<(), Error>(()),
        !(i < groups_len && i < max_group) ==> r == Err::<(), Error>(Error::GroupId),
{
    if i < groups_len && i < max_group {
        Ok(())
    } else {
        Err(Error::GroupId)
    }
}

/// The region size the engine reports for one direction of a slave: the
/// byte count, or one byte when only a bit count below 8 is set.
pub fn region_byte_len(bytes: usize, bits: usize) -> (r: usize)
    ensures
        bytes == 0 && bits > 0 ==> r == 1,
        !(bytes == 0 && bits > 0) ==> r == bytes,
{
    if bytes == 0 && bits > 0 {
        1
    } else {
        bytes
    }
}

/// The value one mapped entry decodes to from its slave's image regions:
/// `None` when the entry's direction carries no process data, its byte span
/// falls outside the region, or the codec rejects it — such an entry is
/// skipped on a cyclic read, never fatal.
pub open spec fn spec_entry_value(e: PdoEntryInfo, outputs: Seq<u8>, inputs: Seq<u8>) -> Option<
    ValueView,
> {
    let region = if e.sm == SmType::Outputs {
        outputs
    } else {
        inputs
    };
    if (e.sm == SmType::Outputs || e.sm == SmType::Inputs) && e.offset.bit < 8 && e.offset.byte
        + spec_byte_cnt(e.bit_len as nat) <= region.len() {
        match spec_value_from_slice(
            e.data_type,
            region.subrange(
                e.offset.byte as int,
                e.offset.byte + spec_byte_cnt(e.bit_len as nat),
            ),
            e.offset.bit as usize,
        ) {
            Ok(v) => Some(v),
            Err(_) => None,
        }
    } else {
        None
    }
}

/// The decodable entries' values, in mapping order: entry by entry, what
/// [`spec_entry_value`] yields, with the undecodable ones left out.
pub open spec fn spec_pdo_entry_values(
    entries: Seq<PdoEntryInfo>,
    outputs: Seq<u8>,
    inputs: Seq<u8>,
) -> Seq<ValueView>
    decreases entries.len(),
{
    if entries.len() == 0 {
        Seq::<ValueView>::empty()
    } else {
        let rest = spec_pdo_entry_values(entries.drop_last(), outputs, inputs);
        match spec_entry_value(entries.last(), outputs, inputs) {
            Some(v) => rest.push(v),
            None => rest,
        }
    }
}

/// The ghost shapes of a sequence of decoded values.
pub open spec fn spec_value_views(s: Seq<Value>) -> Seq<ValueView> {
    s.map_values(|v: Value| v@)
}

/// Decodes every decodable entry of one PDO from the slave's image
/// regions, in mapping order, skipping entries that cannot be decoded.
pub fn pdo_entry_values(entries: &Vec<PdoEntryInfo>, outputs: &Vec<u8>, inputs: &Vec<u8>) -> (r:
    Vec<Value>)
    ensures
        spec_value_views(r@) == spec_pdo_entry_values(entries@, outputs@, inputs@),
{
    let mut r: Vec<Value> = Vec::new();
    let n = entries.len();
    let mut i: usize = 0;
    proof {
        assert(entries@.take(0) =~= Seq::<PdoEntryInfo>::empty());
        assert(spec_value_views(r@) =~= Seq::<ValueView>::empty());
    }
    while i < n
        invariant
            n == entries@.len(),
            i <= n,
            spec_value_views(r@) == spec_pdo_entry_values(
                entries@.take(i as int),
                outputs@,
                inputs@,
            ),
        decreases n - i,
    {
        let e = &entries[i];
        let decoded: Option<Value> = if (e.sm == SmType::Outputs || e.sm == SmType::Inputs)
            && e.offset.bit < 8 {
            let region: &Vec<u8> = if e.sm == SmType::Outputs {
                outputs
            } else {
                inputs
            };
            let cnt = byte_cnt(e.bit_len);
            let rlen = region.len();
            match e.offset.byte.checked_add(cnt) {
                Some(end) => {
                    if end <= rlen {
                        let raw = &region.as_slice()[e.offset.byte..end];
                        let res = value_from_slice(e.data_type, raw, e.offset.bit as usize);
                        match res {
                            Ok(v) => Some(v),
                            Err(_) => None,
                        }
                    } else {
                        None
                    }
                },
                None => None,
            }
        } else {
            None
        };
        proof {
            assert(entries@.take(i + 1).drop_last() =~= entries@.take(i as int));
            assert(entries@.take(i + 1).last() == entries@[i as int]);
        }
        match decoded {
            Some(v) => {
                let ghost prev = spec_value_views(r@);
                r.push(v);
                proof {
                    assert(spec_value_views(r@) =~= prev.push(v@));
                }
            },
            None => {},
        }
        i = i + 1;
    }
    proof {
        assert(entries@.take(n as int) =~= entries@);
    }
    r
}

/// Whether `e` is the entry that a cyclic write addressed as `idx` reaches:
/// the first mapping whose PDO index matches, searched for the first entry
/// carrying `idx`.
pub open spec fn spec_pdo_entry_found(pdos: Seq<PdoMapping>, idx: PdoEntryIdx, e: PdoEntryInfo) -> bool {
    exists|j: int|
        {
            &&& 0 <= j < pdos.len()
            &&& (#[trigger] pdos[j]).info.idx == idx.idx
            &&& (forall|j2: int| 0 <= j2 < j ==> (#[trigger] pdos[j2]).info.idx != idx.idx)
            &&& exists|i: int|
                {
                    &&& 0 <= i < pdos[j].entries@.len()
                    &&& (#[trigger] pdos[j].entries@[i]).idx == idx
                    &&& (forall|i2: int|
                        0 <= i2 < i ==> (#[trigger] pdos[j].entries@[i2]).idx != idx)
                    &&& pdos[j].entries@[i] == e
                }
        }
}

/// At most one entry answers to a write address.
pub proof fn lemma_pdo_entry_found_unique(
    pdos: Seq<PdoMapping>,
    idx: PdoEntryIdx,
    e1: PdoEntryInfo,
    e2: PdoEntryInfo,
)
    requires
        spec_pdo_entry_found(pdos, idx, e1),
        spec_pdo_entry_found(pdos, idx, e2),
    ensures
        e1 == e2,
{
    let j1 = choose|j: int|
        {
            &&& 0 <= j < pdos.len()
            &&& (#[trigger] pdos[j]).info.idx == idx.idx
            &&& (forall|j2: int| 0 <= j2 < j ==> (#[trigger] pdos[j2]).info.idx != idx.idx)
            &&& exists|i: int|
                {
                    &&& 0 <= i < pdos[j].entries@.len()
                    &&& (#[trigger] pdos[j].entries@[i]).idx == idx
                    &&& (forall|i2: int|
                        0 <= i2 < i ==> (#[trigger] pdos[j].entries@[i2]).idx != idx)
                    &&& pdos[j].entries@[i] == e1
                }
        };
    let j2 = choose|j: int|
        {
            &&& 0 <= j < pdos.len()
            &&& (#[trigger] pdos[j]).info.idx == idx.idx
            &&& (forall|j2: int| 0 <= j2 < j ==> (#[trigger] pdos[j2]).info.idx != idx.idx)
            &&& exists|i: int|
                {
                    &&& 0 <= i < pdos[j].entries@.len()
                    &&& (#[trigger] pdos[j].entries@[i]).idx == idx
                    &&& (forall|i2: int|
                        0 <= i2 < i ==> (#[trigger] pdos[j].entries@[i2]).idx != idx)
                    &&& pdos[j].entries@[i] == e2
                }
        };
    assert(j1 == j2);
    let i1 = choose|i: int|
        {
            &&& 0 <= i < pdos[j1].entries@.len()
            &&& (#[trigger] pdos[j1].entries@[i]).idx == idx
            &&& (forall|i2: int| 0 <= i2 < i ==> (#[trigger] pdos[j1].entries@[i2]).idx != idx)
            &&& pdos[j1].entries@[i] == e1
        };
    let i2 = choose|i: int|
        {
            &&& 0 <= i < pdos[j1].entries@.len()
            &&& (#[trigger] pdos[j1].entries@[i]).idx == idx
            &&& (forall|i2: int| 0 <= i2 < i ==> (#[trigger] pdos[j1].entries@[i2]).idx != idx)
            &&& pdos[j1].entries@[i] == e2
        };
    assert(i1 == i2);
}

/// Finds the entry a cyclic write addresses: the first mapping with the
/// PDO index, searched for the first entry with the full address.
pub fn find_pdo_entry<'a>(pdos: &'a SlavePdos, idx: PdoEntryIdx) -> (r: Option<&'a PdoEntryInfo>)
    ensures
        match r {
            Some(e) => spec_pdo_entry_found(pdos@, idx, *e),
            None => forall|e: PdoEntryInfo| !spec_pdo_entry_found(pdos@, idx, e),
        },
{
    let n = pdos.len();
    let mut j: usize = 0;
    while j < n
        invariant
            n == pdos@.len(),
            j <= n,
            forall|j2: int| 0 <= j2 < j ==> (#[trigger] pdos@[j2]).info.idx != idx.idx,
        decreases n - j,
    {
        if pdos[j].info.idx == idx.idx {
            let entries = &pdos[j].entries;
            let m = entries.len();
            let mut i: usize = 0;
            while i < m
                invariant
                    n == pdos@.len(),
                    j < n,
                    pdos@[j as int].info.idx == idx.idx,
                    forall|j2: int| 0 <= j2 < j ==> (#[trigger] pdos@[j2]).info.idx != idx.idx,
                    m == entries@.len(),
                    i <= m,
                    entries == &pdos@[j as int].entries,
                    forall|i2: int|
                        0 <= i2 < i ==> (#[trigger] entries@[i2]).idx != idx,
                decreases m - i,
            {
                if entries[i].idx == idx {
                    proof {
                        let jw = j as int;
                        let iw = i as int;
                        assert((#[trigger] pdos@[jw]).info.idx == idx.idx);
                        assert((#[trigger] pdos@[jw].entries@[iw]).idx == idx);
                        assert(spec_pdo_entry_found(pdos@, idx, pdos@[jw].entries@[iw]));
                    }
                    return Some(&entries[i]);
                }
                i = i + 1;
            }
            assert forall|e: PdoEntryInfo| !spec_pdo_entry_found(pdos@, idx, e) by {
                if spec_pdo_entry_found(pdos@, idx, e) {
                    let jw = choose|jw: int|
                        {
                            &&& 0 <= jw < pdos@.len()
                            &&& (#[trigger] pdos@[jw]).info.idx == idx.idx
                            &&& (forall|j2: int|
                                0 <= j2 < jw ==> (#[trigger] pdos@[j2]).info.idx != idx.idx)
                            &&& exists|i: int|
                                {
                                    &&& 0 <= i < pdos@[jw].entries@.len()
                                    &&& (#[trigger] pdos@[jw].entries@[i]).idx == idx
                                    &&& (forall|i2: int|
                                        0 <= i2 < i ==> (#[trigger] pdos@[jw].entries@[i2]).idx
                                            != idx)
                                    &&& pdos@[jw].entries@[i] == e
                                }
                        };
                    assert(jw == j as int);
                }
            }
            return None;
        }
        j = j + 1;
    }
    None
}

/// What one cyclic write does, given the entry it addressed.
///
/// A write to an entry of the input direction is refused; a value the codec
/// cannot encode is refused holding the value; encoded bytes that do not
/// exactly fill the entry's byte span, or a span outside the region, are a
/// caller contract violation refused as [`Error::DataSizeMismatch`].  A
/// boolean write touches exactly one bit and leaves every other bit of its
/// byte alone; any other write replaces exactly the entry's byte span.
pub open spec fn spec_write_outcome(
    e: PdoEntryInfo,
    v: Value,
    idx: PdoEntryIdx,
    old_region: Seq<u8>,
    r: Result<(), Error>,
    new_region: Seq<u8>,
) -> bool {
    if e.sm != SmType::Outputs {
        &&& r == Err::<(), Error>(Error::InvalidSmType)
        &&& new_region == old_region
    } else {
        match spec_value_to_bytes(v@) {
            Option::None => {
                &&& r == Err::<(), Error>(Error::UnsuportedValue(v))
                &&& new_region == old_region
            },
            Option::Some(bytes) => {
                if e.data_type == DataType::Bool {
                    if bytes.len() == 1 && e.offset.bit < 8 && e.offset.byte < old_region.len() {
                        let mask = 1u8 << e.offset.bit;
                        let nb = if bytes[0] == 1 {
                            old_region[e.offset.byte as int] | mask
                        } else {
                            old_region[e.offset.byte as int] & !mask
                        };
                        &&& r == Ok::<(), Error>(())
                        &&& new_region == old_region.update(e.offset.byte as int, nb)
                    } else {
                        &&& r == Err::<(), Error>(Error::DataSizeMismatch(idx))
                        &&& new_region == old_region
                    }
                } else {
                    let cnt = spec_byte_cnt(e.bit_len as nat);
                    if bytes.len() == cnt && e.offset.byte + cnt <= old_region.len() {
                        &&& r == Ok::<(), Error>(())
                        &&& new_region.len() == old_region.len()
                        &&& forall|k: int|
                            0 <= k < old_region.len() ==> #[trigger] new_region[k] == if e.offset.byte
                                <= k < e.offset.byte + cnt {
                                bytes[k - e.offset.byte]
                            } else {
                                old_region[k]
                            }
                    } else {
                        &&& r == Err::<(), Error>(Error::DataSizeMismatch(idx))
                        &&& new_region == old_region
                    }
                }
            },
        }
    }
}

impl Master {
    /// Decodes every mapped value of every slave from the cached layout
    /// and the current image regions: per slave, per assigned PDO, the
    /// PDO's index with its decodable entries' values in mapping order.
    /// An entry that cannot be decoded is skipped, never fatal for the
    /// rest of the cycle.
    pub fn pdo_values(&self) -> (r: Vec<Vec<(u16, Vec<Value>)>>)
        requires
            self.wf(),
        ensures
            r@.len() == self.pdos@.len(),
            forall|j: int| 0 <= j < r@.len() ==> (#[trigger] r@[j])@.len() == self.pdos@[j]@.len(),
            forall|j: int, k: int|
                0 <= j < r@.len() && 0 <= k < r@[j]@.len() ==> {
                    &&& (#[trigger] r@[j]@[k]).0 == self.pdos@[j]@[k].info.idx
                    &&& spec_value_views(r@[j]@[k].1@) == spec_pdo_entry_values(
                        self.pdos@[j]@[k].entries@,
                        self.outputs@[j]@,
                        self.inputs@[j]@,
                    )
                },
    {
        let mut r: Vec<Vec<(u16, Vec<Value>)>> = Vec::new();
        let n = self.pdos.len();
        let mut j: usize = 0;
        while j < n
            invariant
                self.wf(),
                n == self.pdos@.len(),
                j <= n,
                r@.len() == j,
                forall|j2: int|
                    0 <= j2 < j ==> (#[trigger] r@[j2])@.len() == self.pdos@[j2]@.len(),
                forall|j2: int, k: int|
                    0 <= j2 < j && 0 <= k < r@[j2]@.len() ==> {
                        &&& (#[trigger] r@[j2]@[k]).0 == self.pdos@[j2]@[k].info.idx
                        &&& spec_value_views(r@[j2]@[k].1@) == spec_pdo_entry_values(
                            self.pdos@[j2]@[k].entries@,
                            self.outputs@[j2]@,
                            self.inputs@[j2]@,
                        )
                    },
            decreases n - j,
        {
            let slave_pdos = &self.pdos[j];
            let outputs = &self.outputs[j];
            let inputs = &self.inputs[j];
            let mut slave_values: Vec<(u16, Vec<Value>)> = Vec::new();
            let m = slave_pdos.len();
            let mut k: usize = 0;
            while k < m
                invariant
                    m == slave_pdos@.len(),
                    k <= m,
                    slave_pdos == &self.pdos@[j as int],
                    outputs == &self.outputs@[j as int],
                    inputs == &self.inputs@[j as int],
                    j < self.pdos@.len(),
                    slave_values@.len() == k,
                    forall|k2: int|
                        0 <= k2 < k ==> {
                            &&& (#[trigger] slave_values@[k2]).0 == slave_pdos@[k2].info.idx
                            &&& spec_value_views(slave_values@[k2].1@)
                                == spec_pdo_entry_values(
                                slave_pdos@[k2].entries@,
                                outputs@,
                                inputs@,
                            )
                        },
                decreases m - k,
            {
                let values = pdo_entry_values(&slave_pdos[k].entries, outputs, inputs);
                let pdo_idx = slave_pdos[k].info.idx;
                slave_values.push((pdo_idx, values));
                k = k + 1;
            }
            r.push(slave_values);
            j = j + 1;
        }
        r
    }

    /// Patches one mapped value into the output region of its slave.
    ///
    /// The entry is addressed by PDO index and entry position; the write
    /// is refused with a typed error when the slave or entry is unknown,
    /// the entry is not output-mapped, the value cannot be encoded, or the
    /// encoded bytes do not exactly fit the entry's span.  On success a
    /// boolean touches only its one bit; everything else replaces exactly
    /// the entry's byte span.  Nothing outside the addressed region is
    /// ever changed.
    pub fn set_pdo_value(&mut self, slave: SlavePos, idx: PdoEntryIdx, v: Value) -> (r: Result<
        (),
        Error,
    >)
        requires
            old(self).wf(),
        ensures
            final(self).wf(),
            final(self).sdos@ == old(self).sdos@,
            final(self).pdos@ == old(self).pdos@,
            final(self).inputs@ == old(self).inputs@,
            final(self).outputs@.len() == old(self).outputs@.len(),
            forall|j: int|
                0 <= j < old(self).outputs@.len() && j != slave ==> final(self).outputs@[j] == old(
                    self,
                ).outputs@[j],
            r is Err ==> final(self).outputs@ == old(self).outputs@,
            slave >= old(self).pdos@.len() ==> r == Err::<(), Error>(Error::SlaveNotFound(slave)),
            slave < old(self).pdos@.len() && (forall|e: PdoEntryInfo|
                !spec_pdo_entry_found(old(self).pdos@[slave as int]@, idx, e)) ==> r == Err::<
                (),
                Error,
            >(Error::PdoEntryNotFound(idx)),
            forall|e: PdoEntryInfo|
                slave < old(self).pdos@.len() && spec_pdo_entry_found(
                    old(self).pdos@[slave as int]@,
                    idx,
                    e,
                ) ==> spec_write_outcome(
                    e,
                    v,
                    idx,
                    old(self).outputs@[slave as int]@,
                    r,
                    final(self).outputs@[slave as int]@,
                ),
    {
        if (slave as usize) >= self.pdos.len() {
            return Err(Error::SlaveNotFound(slave));
        }
        let (sm, data_type, offset, bit_len) = match find_pdo_entry(
            &self.pdos[slave as usize],
            idx,
        ) {
            Some(e) => (e.sm, e.data_type, e.offset, e.bit_len),
            None => {
                return Err(Error::PdoEntryNotFound(idx));
            },
        };
        let ghost found = choose|e: PdoEntryInfo|
            spec_pdo_entry_found(self.pdos@[slave as int]@, idx, e);
        proof {
            assert forall|e: PdoEntryInfo|
                spec_pdo_entry_found(self.pdos@[slave as int]@, idx, e) implies e.sm == sm
                && e.data_type == data_type && e.offset == offset && e.bit_len == bit_len by {
                lemma_pdo_entry_found_unique(self.pdos@[slave as int]@, idx, e, found);
            }
        }
        if sm != SmType::Outputs {
            return Err(Error::InvalidSmType);
        }
        let bytes = match value_to_bytes(v) {
            Ok(b) => b,
            Err(err) => {
                return Err(err);
            },
        };
        if data_type == DataType::Bool {
            if bytes.len() == 1 && offset.bit < 8 && offset.byte < self.outputs[slave
                as usize].len() {
                let mask: u8 = 1u8 << offset.bit;
                let b = self.outputs[slave as usize][offset.byte];
                let nb = if bytes[0] == 1 {
                    b | mask
                } else {
                    b & !mask
                };
                self.outputs[slave as usize][offset.byte] = nb;
                Ok(())
            } else {
                Err(Error::DataSizeMismatch(idx))
            }
        } else {
            let cnt = byte_cnt(bit_len);
            let region_len = self.outputs[slave as usize].len();
            let end = match offset.byte.checked_add(cnt) {
                Some(end) => end,
                None => {
                    return Err(Error::DataSizeMismatch(idx));
                },
            };
            if bytes.len() == cnt && end <= region_len {
                let ghost old_region = self.outputs@[slave as int]@;
                let mut i: usize = 0;
                while i < cnt
                    invariant
                        cnt == bytes@.len(),
                        end == offset.byte + cnt,
                        i <= cnt,
                        slave < self.outputs@.len(),
                        offset.byte + cnt <= self.outputs@[slave as int]@.len(),
                        self.outputs@[slave as int]@.len() == old_region.len(),
                        forall|k: int|
                            0 <= k < old_region.len()
                                ==> #[trigger] self.outputs@[slave as int]@[k] == if offset.byte
                                <= k < offset.byte + i {
                                bytes@[k - offset.byte]
                            } else {
                                old_region[k]
                            },
                        forall|j: int|
                            0 <= j < self.outputs@.len() && j != slave ==> self.outputs@[j]
                                == old(self).outputs@[j],
                        self.sdos@ == old(self).sdos@,
                        self.pdos@ == old(self).pdos@,
                        self.inputs@ == old(self).inputs@,
                        self.outputs@.len() == old(self).outputs@.len(),
                    decreases cnt - i,
                {
                    let byte_i = bytes[i];
                    self.outputs[slave as usize][offset.byte + i] = byte_i;
                    i = i + 1;
                }
                Ok(())
            } else {
                Err(Error::DataSizeMismatch(idx))
            }
        }
    }
}

/// The ghost shapes of a sequence of per-subindex decoded values.
pub open spec fn spec_opt_value_views(s: Seq<Option<Value>>) -> Seq<Option<ValueView>> {
    s.map_values(
        |o: Option<Value>|
            match o {
                Option::Some(v) => Option::Some(v@),
                Option::None => Option::<ValueView>::None,
            },
    )
}

/// What decoding a complete-access upload yields: the buffer is walked
/// slot by slot, each retained slot taking its own byte count, each empty
/// slot consuming nothing and yielding nothing; a slot whose span falls
/// outside the buffer or whose bytes the codec rejects fails the whole
/// decode with that error.
pub open spec fn spec_decode_complete(
    layout: Seq<Option<(usize, DataType)>>,
    raw: Seq<u8>,
    pos: int,
) -> Result<Seq<Option<ValueView>>, Error>
    decreases layout.len(),
{
    if layout.len() == 0 {
        Ok(Seq::<Option<ValueView>>::empty())
    } else {
        match layout[0] {
            Option::None => match spec_decode_complete(layout.drop_first(), raw, pos) {
                Ok(tail) => Ok(seq![Option::<ValueView>::None] + tail),
                Err(e) => Err(e),
            },
            Option::Some(cd) => {
                if pos + cd.0 <= raw.len() {
                    match spec_value_from_slice(cd.1, raw.subrange(pos, pos + cd.0), 0) {
                        Ok(v) => match spec_decode_complete(
                            layout.drop_first(),
                            raw,
                            pos + cd.0,
                        ) {
                            Ok(tail) => Ok(seq![Option::Some(v)] + tail),
                            Err(e) => Err(e),
                        },
                        Err(e) => Err(e),
                    }
                } else {
                    Err(Error::ValueConversion)
                }
            },
        }
    }
}

/// The ghost shape of a complete-access decode result.
pub open spec fn spec_complete_result(r: Result<Vec<Option<Value>>, Error>) -> Result<
    Seq<Option<ValueView>>,
    Error,
> {
    match r {
        Ok(values) => Ok(spec_opt_value_views(values@)),
        Err(e) => Err(e),
    }
}

/// One slot of a complete-access layout, as built from a dictionary slot:
/// the byte count and data type of a retained entry, nothing otherwise.
pub open spec fn spec_layout_slot(
    slot: Option<SdoEntryInfo>,
    l: Option<(usize, DataType)>,
) -> bool {
    match slot {
        Option::Some(e) => l == Option::Some(
            (spec_byte_cnt(e.bit_len as nat) as usize, e.data_type),
        ),
        Option::None => l is None,
    }
}

/// Decodes the buffer a complete SDO upload returned, slot by slot along
/// the given layout.
pub fn decode_complete(layout: &Vec<Option<(usize, DataType)>>, raw: &[u8]) -> (r: Result<
    Vec<Option<Value>>,
    Error,
>)
    ensures
        spec_complete_result(r) == spec_decode_complete(layout@, raw@, 0),
{
    let mut values: Vec<Option<Value>> = Vec::new();
    let mut byte_pos: usize = 0;
    let n = layout.len();
    let raw_len = raw.len();
    let mut i: usize = 0;
    proof {
        assert(layout@.skip(0) =~= layout@);
        assert(spec_opt_value_views(values@) =~= Seq::<Option<ValueView>>::empty());
    }
    while i < n
        invariant
            n == layout@.len(),
            raw_len == raw@.len(),
            i <= n,
            spec_decode_complete(layout@, raw@, 0) == (match spec_decode_complete(
                layout@.skip(i as int),
                raw@,
                byte_pos as int,
            ) {
                Ok(tail) => Ok::<Seq<Option<ValueView>>, Error>(
                    spec_opt_value_views(values@) + tail,
                ),
                Err(e) => Err::<Seq<Option<ValueView>>, Error>(e),
            }),
        decreases n - i,
    {
        proof {
            assert(layout@.skip(i as int)[0] == layout@[i as int]);
            assert(layout@.skip(i as int).drop_first() =~= layout@.skip(i + 1));
        }
        let ghost prev_views = spec_opt_value_views(values@);
        match &layout[i] {
            Option::None => {
                values.push(None);
                proof {
                    assert(spec_opt_value_views(values@) =~= prev_views.push(
                        Option::<ValueView>::None,
                    ));
                }
            },
            Option::Some(cd) => {
                let cnt = cd.0;
                let end = match byte_pos.checked_add(cnt) {
                    Some(end) => end,
                    None => {
                        return Err(Error::ValueConversion);
                    },
                };
                if end > raw_len {
                    return Err(Error::ValueConversion);
                }
                let slice = &raw[byte_pos..end];
                match value_from_slice(cd.1, slice, 0) {
                    Ok(v) => {
                        values.push(Some(v));
                        proof {
                            assert(spec_opt_value_views(values@) =~= prev_views.push(
                                Option::Some(v@),
                            ));
                        }
                        byte_pos = end;
                    },
                    Err(e) => {
                        return Err(e);
                    },
                }
            },
        }
        proof {
            if spec_decode_complete(layout@.skip(i + 1), raw@, byte_pos as int) is Ok {
                let tail = spec_decode_complete(
                    layout@.skip(i + 1),
                    raw@,
                    byte_pos as int,
                )->Ok_0;
                assert(spec_opt_value_views(values@) + tail =~= prev_views + (seq![
                    spec_opt_value_views(values@).last()
                ] + tail));
            }
        }
        i = i + 1;
    }
    proof {
        assert(layout@.skip(n as int) =~= Seq::<Option<(usize, DataType)>>::empty());
        assert(spec_opt_value_views(values@) + Seq::<Option<ValueView>>::empty()
            =~= spec_opt_value_views(values@));
    }
    Ok(values)
}

impl Master {
    /// The per-subindex layout a complete SDO upload of this object
    /// unpacks along: one slot per subindex, holding the byte count and
    /// data type of each retained entry, empty for the entries retained as
    /// not decodable.  An object the dictionary does not hold is a typed
    /// error.
    pub fn complete_entry_layout(&self, slave: SlavePos, idx: u16) -> (r: Result<
        Vec<Option<(usize, DataType)>>,
        Error,
    >)
        ensures
            match r {
                Ok(layout) => slave < self.sdos@.len() && exists|j: int|
                    {
                        &&& 0 <= j < self.sdos@[slave as int]@.len()
                        &&& (#[trigger] self.sdos@[slave as int]@[j]).info.idx == idx
                        &&& (forall|k: int|
                            0 <= k < j ==> self.sdos@[slave as int]@[k].info.idx != idx)
                        &&& layout@.len() == self.sdos@[slave as int]@[j].entries@.len()
                        &&& forall|k: int|
                            0 <= k < layout@.len() ==> spec_layout_slot(
                                self.sdos@[slave as int]@[j].entries@[k],
                                #[trigger] layout@[k],
                            )
                    },
                Err(e) => {
                    &&& e == Error::IdxNotFound(slave, idx)
                    &&& (slave >= self.sdos@.len() || !spec_has_object(
                        self.sdos@[slave as int]@,
                        idx,
                    ))
                },
            },
    {
        if (slave as usize) >= self.sdos.len() {
            return Err(Error::IdxNotFound(slave, idx));
        }
        let obj = match find_object(&self.sdos[slave as usize], idx) {
            Some(obj) => obj,
            None => {
                return Err(Error::IdxNotFound(slave, idx));
            },
        };
        let mut layout: Vec<Option<(usize, DataType)>> = Vec::new();
        let m = obj.entries.len();
        let mut k: usize = 0;
        while k < m
            invariant
                m == obj.entries@.len(),
                k <= m,
                layout@.len() == k,
                forall|k2: int|
                    0 <= k2 < k ==> spec_layout_slot(obj.entries@[k2], #[trigger] layout@[k2]),
            decreases m - k,
        {
            match &obj.entries[k] {
                Option::Some(e) => {
                    let cnt = byte_cnt(e.bit_len as usize);
                    layout.push(Some((cnt, e.data_type)));
                },
                Option::None => {
                    layout.push(None);
                },
            }
            k = k + 1;
        }
        Ok(layout)
    }
}

/// Write-then-read law: a value successfully patched into an output entry
/// is exactly what a cyclic read of that entry then decodes, whatever
/// stood in the region before, provided the entry's data type is the
/// value's own.  A boolean travels through its single bit; every other
/// value travels through its byte span.
pub proof fn lemma_write_read_round_trip(
    e: PdoEntryInfo,
    v: Value,
    idx: PdoEntryIdx,
    old_region: Seq<u8>,
    new_region: Seq<u8>,
    inputs: Seq<u8>,
)
    requires
        spec_write_outcome(e, v, idx, old_region, Ok(()), new_region),
        e.data_type == spec_value_data_type(v@),
        e.bit_len > 0,
        e.offset.bit < 8,
        e.data_type == DataType::Bool ==> e.bit_len <= 8,
    ensures
        spec_entry_value(e, new_region, inputs) == Some(v@),
{
    let bytes = spec_value_to_bytes(v@)->Some_0;
    let cnt = spec_byte_cnt(e.bit_len as nat);
    if e.data_type == DataType::Bool {
        let k = e.offset.bit as usize;
        let mask = 1u8 << e.offset.bit;
        let nb = new_region[e.offset.byte as int];
        let b = v@->Bool_0;
        assert(cnt == 1) by {
            assert(e.bit_len > 0);
        };
        assert(new_region.subrange(e.offset.byte as int, e.offset.byte + 1) =~= seq![nb]);
        assert(spec_bit_at(nb, k) == b) by {
            let ob = old_region[e.offset.byte as int];
            if b {
                assert(bytes =~= seq![1u8]);
                assert(forall|x: u8, j: u8| j < 8 ==> (x | (1u8 << j)) & (1u8 << (j as usize))
                    != 0) by (bit_vector);
            } else {
                assert(bytes =~= seq![0u8]);
                assert(forall|x: u8, j: u8| j < 8 ==> (x & !(1u8 << j)) & (1u8 << (j as usize))
                    == 0) by (bit_vector);
            }
        };
    } else {
        assert(new_region.subrange(e.offset.byte as int, e.offset.byte + cnt) =~= bytes);
        crate::codec::lemma_codec_round_trip(v@, e.offset.bit as usize);
    }
}

} // verus!
