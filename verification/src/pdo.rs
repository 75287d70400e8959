//! PDO-assignment resolution.
//!
//! A slave's cyclic process data is laid out by its sync managers: object
//! 0x1C00 lists each sync manager's communication type, and objects 0x1C10
//! and up list, per sync manager, the PDOs assigned to it.  Every PDO object
//! in turn lists packed 32-bit entry descriptors naming the dictionary entry
//! it exposes and its width in bits.
//!
//! Resolution walks those objects over mailbox SDO reads.  The reads
//! themselves are the engine's business; the [`PdoResolver`] step machine
//! here decides everything between two reads: which SDO to read next, how to
//! decode what came back, and at which byte and bit of the process image
//! every entry lands.  Output sync managers are processed before input sync
//! managers, each group in ascending sync-manager order, and one running bit
//! offset per direction places the entries back to back — the layout
//! invariant [`spec_layout_ok`] that the accessor relies on.

use vstd::prelude::*;
use vstd::bytes::{spec_u16_from_le_bytes, spec_u32_from_le_bytes, u16_from_le_bytes,
    u32_from_le_bytes};
use crate::dict::{find_entry, find_object, SdoEntryInfo, SdoObject, SlaveOd, spec_entry_found,
    spec_has_object};
use crate::error::Error;
use crate::types::{sm_type_from_u8, spec_sm_type_from_u8, DataType, Offset, PdoEntryIdx, SdoIdx,
    SmType};

verus! {

/// One resolved PDO entry: where in the process image it lives, how wide it
/// is, and which dictionary entry it exposes.
#[derive(Clone, Debug, PartialEq)]
pub struct PdoEntryInfo {
    /// The PDO object this entry was mapped by, and the entry's 1-based
    /// position inside that mapping object.
    pub idx: PdoEntryIdx,
    /// Running position of the entry in the slave's whole assignment,
    /// counting retained entries (wraps at 256).
    pub pos: u8,
    /// Data type resolved from the object dictionary, `DataType::Raw` when
    /// the referenced entry is not in the dictionary.
    pub data_type: DataType,
    /// Position in the direction's region of the process image.
    pub offset: Offset,
    /// Width on the wire in bits.
    pub bit_len: usize,
    /// Name resolved from the object dictionary, empty when unresolved.
    pub name: String,
    /// Direction of the owning sync manager.
    pub sm: SmType,
    /// The dictionary entry this PDO entry exposes.
    pub sdo: SdoIdx,
}

/// Description of one assigned PDO.
#[derive(Clone, Debug, PartialEq)]
pub struct PdoInfo {
    /// Index of the sync manager the PDO is assigned to.
    pub sm: u8,
    /// Running position of the PDO in the slave's assignment, counting
    /// retained PDOs (wraps at 256).
    pub pos: u8,
    /// Object index of the PDO.
    pub idx: u16,
    /// Number of entries the PDO mapping object reported.
    pub entry_count: u8,
    /// Name of the first mapped entry's object, empty when unresolved.
    pub name: String,
}

/// One assigned PDO with its resolved entries, in mapping order.
#[derive(Clone, Debug, PartialEq)]
pub struct PdoMapping {
    pub info: PdoInfo,
    pub entries: Vec<PdoEntryInfo>,
}

/// The resolved PDO assignment of one slave: output-direction PDOs first,
/// then input-direction PDOs, each group in ascending sync-manager order.
pub type SlavePdos = Vec<PdoMapping>;

/// Position of an entry in its direction's region, in bits from the start
/// of the region.
pub open spec fn entry_bit_pos(e: PdoEntryInfo) -> int {
    8 * e.offset.byte + e.offset.bit
}

/// The entries stand back to back from bit position `start`: each begins
/// where the one before it ended.
pub open spec fn spec_contiguous_from(es: Seq<PdoEntryInfo>, start: int) -> bool
    decreases es.len(),
{
    es.len() == 0 || {
        &&& entry_bit_pos(es[0]) == start
        &&& es[0].offset.bit < 8
        &&& spec_contiguous_from(es.drop_first(), start + es[0].bit_len)
    }
}

/// Total width of the entries in bits.
pub open spec fn spec_total_bits(es: Seq<PdoEntryInfo>) -> int
    decreases es.len(),
{
    if es.len() == 0 {
        0
    } else {
        es[0].bit_len + spec_total_bits(es.drop_first())
    }
}

/// Width in bits of the first `k` entries.
pub open spec fn spec_prefix_bits(es: Seq<PdoEntryInfo>, k: int) -> int
    decreases k,
{
    if k <= 0 {
        0
    } else {
        spec_prefix_bits(es, k - 1) + es[k - 1].bit_len
    }
}

/// A well-formed mapping: it has at least one entry, all its entries belong
/// to the same process-data direction, and every bit offset is below 8.
pub open spec fn spec_mapping_wf(m: PdoMapping) -> bool {
    &&& m.entries@.len() > 0
    &&& forall|i: int|
        0 <= i < m.entries@.len() ==> {
            &&& (#[trigger] m.entries@[i]).sm == m.entries@[0].sm
            &&& m.entries@[i].offset.bit < 8
            &&& (m.entries@[i].sm == SmType::Outputs || m.entries@[i].sm == SmType::Inputs)
        }
}

/// The entries of direction `d`, flattened in assignment order.
pub open spec fn spec_dir_entries(pdos: Seq<PdoMapping>, d: SmType) -> Seq<PdoEntryInfo>
    decreases pdos.len(),
{
    if pdos.len() == 0 {
        Seq::<PdoEntryInfo>::empty()
    } else {
        (if pdos[0].entries@.len() > 0 && pdos[0].entries@[0].sm == d {
            pdos[0].entries@
        } else {
            Seq::<PdoEntryInfo>::empty()
        }) + spec_dir_entries(pdos.drop_first(), d)
    }
}

/// The layout invariant of a resolved assignment: every mapping is
/// well-formed and, per direction, the flattened entries tile the region
/// back to back from bit 0.
pub open spec fn spec_layout_ok(pdos: Seq<PdoMapping>) -> bool {
    &&& forall|i: int| 0 <= i < pdos.len() ==> spec_mapping_wf(#[trigger] pdos[i])
    &&& spec_contiguous_from(spec_dir_entries(pdos, SmType::Outputs), 0)
    &&& spec_contiguous_from(spec_dir_entries(pdos, SmType::Inputs), 0)
}

/// Appending an entry that begins exactly at the end of a back-to-back
/// sequence keeps it back to back and grows its width by the entry's width.
pub proof fn lemma_contiguous_push(es: Seq<PdoEntryInfo>, start: int, e: PdoEntryInfo)
    requires
        spec_contiguous_from(es, start),
        entry_bit_pos(e) == start + spec_total_bits(es),
        e.offset.bit < 8,
    ensures
        spec_contiguous_from(es.push(e), start),
        spec_total_bits(es.push(e)) == spec_total_bits(es) + e.bit_len,
    decreases es.len(),
{
    assert(es.push(e)[0] == if es.len() == 0 {
        e
    } else {
        es[0]
    });
    if es.len() == 0 {
        assert(es.push(e).drop_first() =~= Seq::<PdoEntryInfo>::empty());
        assert(spec_total_bits(es) == 0);
        assert(spec_total_bits(Seq::<PdoEntryInfo>::empty()) == 0);
        assert(spec_contiguous_from(es.push(e).drop_first(), start + e.bit_len));
    } else {
        assert(es.push(e).drop_first() =~= es.drop_first().push(e));
        lemma_contiguous_push(es.drop_first(), start + es[0].bit_len, e);
        assert(spec_contiguous_from(es.drop_first().push(e), start + es[0].bit_len));
        assert(spec_total_bits(es.push(e)) == es[0].bit_len + spec_total_bits(
            es.drop_first().push(e),
        ));
    }
}

/// Appending a mapping appends its entries to its own direction and leaves
/// the other direction's flattened entries unchanged.
pub proof fn lemma_dir_entries_push(pdos: Seq<PdoMapping>, m: PdoMapping, d: SmType)
    requires
        m.entries@.len() > 0,
    ensures
        m.entries@[0].sm == d ==> spec_dir_entries(pdos.push(m), d) == spec_dir_entries(pdos, d)
            + m.entries@,
        m.entries@[0].sm != d ==> spec_dir_entries(pdos.push(m), d) == spec_dir_entries(pdos, d),
    decreases pdos.len(),
{
    if pdos.len() == 0 {
        assert(pdos.push(m).drop_first() =~= Seq::<PdoMapping>::empty());
        assert(pdos.push(m)[0] == m);
        assert(spec_dir_entries(pdos.push(m).drop_first(), d) =~= Seq::<PdoEntryInfo>::empty());
        if m.entries@[0].sm == d {
            assert(spec_dir_entries(pdos.push(m), d) =~= spec_dir_entries(pdos, d) + m.entries@);
        } else {
            assert(spec_dir_entries(pdos.push(m), d) =~= spec_dir_entries(pdos, d));
        }
    } else {
        assert(pdos.push(m).drop_first() =~= pdos.drop_first().push(m));
        assert(pdos.push(m)[0] == pdos[0]);
        lemma_dir_entries_push(pdos.drop_first(), m, d);
        let head = if pdos[0].entries@.len() > 0 && pdos[0].entries@[0].sm == d {
            pdos[0].entries@
        } else {
            Seq::<PdoEntryInfo>::empty()
        };
        assert(spec_dir_entries(pdos, d) == head + spec_dir_entries(pdos.drop_first(), d));
        assert(spec_dir_entries(pdos.push(m), d) == head + spec_dir_entries(
            pdos.drop_first().push(m),
            d,
        ));
        if m.entries@[0].sm == d {
            assert(spec_dir_entries(pdos.push(m), d) =~= spec_dir_entries(pdos, d) + m.entries@);
        } else {
            assert(spec_dir_entries(pdos.push(m), d) =~= spec_dir_entries(pdos, d));
        }
    }
}

/// Tiling law: in a back-to-back sequence starting at `start`, entry `k`
/// begins exactly `start` plus the summed widths of the entries before it —
/// there is no gap and no overlap anywhere in the layout.
pub proof fn lemma_layout_tiles(es: Seq<PdoEntryInfo>, start: int)
    requires
        spec_contiguous_from(es, start),
    ensures
        forall|k: int|
            0 <= k < es.len() ==> entry_bit_pos(#[trigger] es[k]) == start + spec_prefix_bits(
                es,
                k,
            ),
    decreases es.len(),
{
    if es.len() > 0 {
        lemma_layout_tiles(es.drop_first(), start + es[0].bit_len);
        assert forall|k: int| 0 <= k < es.len() implies entry_bit_pos(#[trigger] es[k]) == start
            + spec_prefix_bits(es, k) by {
            if k > 0 {
                assert(es.drop_first()[k - 1] == es[k]);
                lemma_prefix_bits_drop_first(es, k);
            }
        }
    }
}

proof fn lemma_prefix_bits_drop_first(es: Seq<PdoEntryInfo>, k: int)
    requires
        1 <= k <= es.len(),
    ensures
        spec_prefix_bits(es, k) == es[0].bit_len + spec_prefix_bits(es.drop_first(), k - 1),
    decreases k,
{
    if k == 1 {
        assert(spec_prefix_bits(es, 0) == 0);
        assert(spec_prefix_bits(es.drop_first(), 0) == 0);
    } else {
        lemma_prefix_bits_drop_first(es, k - 1);
        assert(es.drop_first()[k - 2] == es[k - 1]);
    }
}

/// Tiling law for a whole assignment: per direction, laid out in
/// assignment order, every entry begins exactly at the summed widths of
/// the entries before it — the direction's region is covered from bit 0
/// with no gap and no overlap.
pub proof fn lemma_assignment_tiles(pdos: Seq<PdoMapping>, d: SmType)
    requires
        spec_layout_ok(pdos),
        d == SmType::Outputs || d == SmType::Inputs,
    ensures
        forall|k: int|
            0 <= k < spec_dir_entries(pdos, d).len() ==> entry_bit_pos(
                #[trigger] spec_dir_entries(pdos, d)[k],
            ) == spec_prefix_bits(spec_dir_entries(pdos, d), k),
{
    lemma_layout_tiles(spec_dir_entries(pdos, d), 0);
}

/// Splits a packed 32-bit PDO entry descriptor into its fields: bits 0-7
/// hold the entry's bit length, bits 8-15 the target subindex, bits 16-31
/// the target object index.
pub fn parse_pdo_desc(desc: u32) -> (r: (usize, u8, u16))
    ensures
        r.0 == desc & 0xFF,
        r.1 == (desc >> 8) & 0xFF,
        r.2 == desc >> 16,
{
    proof {
        assert(desc & 0xFF < 256) by (bit_vector);
        assert((desc >> 8) & 0xFF < 256) by (bit_vector);
        assert(desc >> 16 < 0x10000) by (bit_vector);
    }
    let bit_len = (desc & 0xFF) as usize;
    let sub_idx = ((desc >> 8) & 0xFF) as u8;
    let idx = (desc >> 16) as u16;
    (bit_len, sub_idx, idx)
}

/// Converts a running bit counter to a (byte, bit-in-byte) position.
pub fn offset_of_bits(bits: usize) -> (r: Offset)
    ensures
        r.byte == bits / 8,
        r.bit == bits % 8,
        8 * r.byte + r.bit == bits,
{
    Offset { byte: bits / 8, bit: (bits % 8) as u8 }
}

/// The scanned pairs of one direction, in scan order.
pub open spec fn spec_dir_plan(sm_types: Seq<(u8, SmType)>, d: SmType) -> Seq<(u8, SmType)>
    decreases sm_types.len(),
{
    if sm_types.len() == 0 {
        Seq::<(u8, SmType)>::empty()
    } else {
        let rest = spec_dir_plan(sm_types.drop_last(), d);
        if sm_types.last().1 == d {
            rest.push(sm_types.last())
        } else {
            rest
        }
    }
}

/// The processing order of scanned (sync manager, type) pairs: the
/// output-direction managers first, then the input-direction managers,
/// each group in scan order.
pub open spec fn spec_plan_order(sm_types: Seq<(u8, SmType)>) -> Seq<(u8, SmType)> {
    spec_dir_plan(sm_types, SmType::Outputs) + spec_dir_plan(sm_types, SmType::Inputs)
}

/// Every pair a direction's plan holds is of that direction.
pub proof fn lemma_dir_plan_elements(sm_types: Seq<(u8, SmType)>, d: SmType)
    ensures
        forall|i: int|
            0 <= i < spec_dir_plan(sm_types, d).len() ==> (#[trigger] spec_dir_plan(
                sm_types,
                d,
            )[i]).1 == d,
    decreases sm_types.len(),
{
    if sm_types.len() > 0 {
        lemma_dir_plan_elements(sm_types.drop_last(), d);
    }
}

/// No input-direction pair stands before an output-direction pair in a
/// processing order.
pub open spec fn spec_outputs_first(plan: Seq<(u8, SmType)>) -> bool {
    forall|i: int, j: int|
        0 <= i < j < plan.len() ==> !((#[trigger] plan[i]).1 == SmType::Inputs && (
        #[trigger] plan[j]).1 == SmType::Outputs)
}

/// A processing order built by [`spec_plan_order`] puts every
/// output-direction pair before every input-direction pair.
pub proof fn lemma_plan_order_outputs_first(sm_types: Seq<(u8, SmType)>)
    ensures
        spec_outputs_first(spec_plan_order(sm_types)),
{
    lemma_dir_plan_elements(sm_types, SmType::Outputs);
    lemma_dir_plan_elements(sm_types, SmType::Inputs);
    let outs = spec_dir_plan(sm_types, SmType::Outputs);
    let ins = spec_dir_plan(sm_types, SmType::Inputs);
    assert forall|i: int, j: int|
        0 <= i < j < spec_plan_order(sm_types).len() implies !((#[trigger] spec_plan_order(
        sm_types,
    )[i]).1 == SmType::Inputs && (#[trigger] spec_plan_order(sm_types)[j]).1
        == SmType::Outputs) by {
        if spec_plan_order(sm_types)[i].1 == SmType::Inputs {
            assert(i >= outs.len());
            assert(j >= outs.len());
            assert(spec_plan_order(sm_types)[j] == ins[j - outs.len()]);
        }
    }
}

/// The pairs carry strictly ascending sync-manager indices.
pub open spec fn spec_sm_pairs_ascending(s: Seq<(u8, SmType)>) -> bool {
    forall|i: int, j: int| 0 <= i < j < s.len() ==> (#[trigger] s[i]).0 < (#[trigger] s[j]).0
}

/// A direction's plan keeps the scan order: built from pairs with strictly
/// ascending sync-manager indices all below `bound`, it is strictly
/// ascending and stays below `bound`.
pub proof fn lemma_dir_plan_ascending(sm_types: Seq<(u8, SmType)>, d: SmType, bound: int)
    requires
        spec_sm_pairs_ascending(sm_types),
        forall|i: int| 0 <= i < sm_types.len() ==> (#[trigger] sm_types[i]).0 < bound,
    ensures
        spec_sm_pairs_ascending(spec_dir_plan(sm_types, d)),
        forall|i: int|
            0 <= i < spec_dir_plan(sm_types, d).len() ==> (#[trigger] spec_dir_plan(
                sm_types,
                d,
            )[i]).0 < bound,
    decreases sm_types.len(),
{
    if sm_types.len() > 0 {
        let rest = sm_types.drop_last();
        lemma_dir_plan_ascending(rest, d, sm_types.last().0 as int);
        assert forall|i: int|
            0 <= i < spec_dir_plan(sm_types, d).len() implies (#[trigger] spec_dir_plan(
            sm_types,
            d,
        )[i]).0 < bound by {
            if i < spec_dir_plan(rest, d).len() {
                assert(spec_dir_plan(rest, d)[i].0 < sm_types.last().0);
            }
        }
    }
}

/// The direction of a retained mapping: the shared direction of its
/// entries.
pub open spec fn spec_mapping_dir(m: PdoMapping) -> SmType
    recommends
        m.entries@.len() > 0,
{
    m.entries@[0].sm
}

/// Within one direction, the retained mappings keep ascending sync-manager
/// order.
pub open spec fn spec_mappings_sm_ascending(pdos: Seq<PdoMapping>) -> bool {
    forall|i: int, j: int|
        0 <= i < j < pdos.len() && spec_mapping_dir(#[trigger] pdos[i]) == spec_mapping_dir(
            #[trigger] pdos[j],
        ) ==> pdos[i].info.sm <= pdos[j].info.sm
}

/// In a resolved assignment, no input-direction mapping stands before an
/// output-direction mapping.
pub open spec fn spec_mappings_outputs_first(pdos: Seq<PdoMapping>) -> bool {
    forall|i: int, j: int|
        0 <= i < j < pdos.len() ==> !(spec_mapping_dir(#[trigger] pdos[i]) == SmType::Inputs
            && spec_mapping_dir(#[trigger] pdos[j]) == SmType::Outputs)
}

/// Reorders scanned (sync manager, type) pairs into processing order:
/// the output-direction managers first, then the input-direction managers,
/// keeping the scan order (ascending sync-manager index) within each group.
pub fn plan_order(sm_types: &Vec<(u8, SmType)>) -> (r: Vec<(u8, SmType)>)
    ensures
        r@ == spec_plan_order(sm_types@),
{
    let mut out: Vec<(u8, SmType)> = Vec::new();
    let n = sm_types.len();
    let mut i: usize = 0;
    proof {
        assert(sm_types@.take(0) =~= Seq::<(u8, SmType)>::empty());
    }
    while i < n
        invariant
            n == sm_types@.len(),
            i <= n,
            out@ == spec_dir_plan(sm_types@.take(i as int), SmType::Outputs),
        decreases n - i,
    {
        let p = sm_types[i];
        proof {
            assert(sm_types@.take(i + 1).drop_last() =~= sm_types@.take(i as int));
            assert(sm_types@.take(i + 1).last() == sm_types@[i as int]);
        }
        if p.1 == SmType::Outputs {
            out.push(p);
        }
        i = i + 1;
    }
    proof {
        assert(sm_types@.take(n as int) =~= sm_types@);
    }
    let mut i: usize = 0;
    while i < n
        invariant
            n == sm_types@.len(),
            i <= n,
            out@ == spec_dir_plan(sm_types@, SmType::Outputs) + spec_dir_plan(
                sm_types@.take(i as int),
                SmType::Inputs,
            ),
        decreases n - i,
    {
        let p = sm_types[i];
        proof {
            assert(sm_types@.take(i + 1).drop_last() =~= sm_types@.take(i as int));
            assert(sm_types@.take(i + 1).last() == sm_types@[i as int]);
        }
        if p.1 == SmType::Inputs {
            out.push(p);
        }
        i = i + 1;
    }
    proof {
        assert(sm_types@.take(n as int) =~= sm_types@);
    }
    out
}

/// What the resolver wants next: one SDO read of `len` bytes at
/// (`idx`, `sub`), or nothing because resolution is finished.
#[derive(Clone, Copy, Debug, PartialEq, Eq, Structural)]
pub enum ResolveRequest {
    Read { idx: u16, sub: u8, len: usize },
    Finished,
}

/// Where the resolver stands between two mailbox reads.
#[derive(Clone, Copy, Debug, PartialEq, Eq, Structural)]
pub enum Phase {
    /// Awaiting the sync-manager count from (0x1C00, 0).
    SmCount,
    /// Awaiting the communication type of sync manager `cur_sm` from
    /// (0x1C00, `cur_sm` + 1).
    SmType,
    /// Awaiting the assigned-PDO count of the current sync manager from
    /// (0x1C10 + sm, 0).
    PdoCount,
    /// Awaiting the PDO index assigned at (0x1C10 + sm, `pdo_sub`).
    PdoIdx,
    /// Awaiting the entry count of the current PDO from (`pdo_idx`, 0).
    EntryCount,
    /// Awaiting the packed entry descriptor at (`pdo_idx`, `entry_sub`).
    EntryDesc,
    /// Resolution is complete.
    Finished,
}

/// What one resolved entry must hold, given the packed descriptor it was
/// built from, the dictionary it was resolved against, and the running bit
/// counter of its direction.
pub open spec fn spec_entry_matches_desc(
    e: PdoEntryInfo,
    od: Seq<SdoObject>,
    desc: u32,
    pdo_idx: u16,
    entry_sub: u8,
    dir: SmType,
    dir_bits: usize,
) -> bool {
    &&& e.bit_len == desc & 0xFF
    &&& e.sdo.idx == desc >> 16
    &&& e.sdo.sub_idx == (desc >> 8) & 0xFF
    &&& e.idx == (PdoEntryIdx { idx: pdo_idx, sub_idx: entry_sub })
    &&& e.sm == dir
    &&& e.offset.byte == dir_bits / 8
    &&& e.offset.bit == dir_bits % 8
    &&& 8 * e.offset.byte + e.offset.bit == dir_bits
    &&& forall|e0: SdoEntryInfo|
        spec_entry_found(od, e.sdo, e0) ==> e.data_type == e0.data_type && e.name@
            == e0.description@
    &&& (forall|e0: SdoEntryInfo| !spec_entry_found(od, e.sdo, e0)) ==> e.data_type
        == DataType::Raw && e.name@.len() == 0
}

/// Builds one [`PdoEntryInfo`] from a packed entry descriptor: the
/// descriptor names the dictionary entry and the bit width, the dictionary
/// supplies data type and name (an unresolved reference is retained with
/// `DataType::Raw` and an empty name rather than failing), and the running
/// bit counter of the entry's direction places it in the image.
pub fn entry_from_desc(
    od: &SlaveOd,
    desc: u32,
    pdo_idx: u16,
    entry_sub: u8,
    pos: u8,
    dir: SmType,
    dir_bits: usize,
) -> (e: PdoEntryInfo)
    ensures
        spec_entry_matches_desc(e, od@, desc, pdo_idx, entry_sub, dir, dir_bits),
        e.pos == pos,
{
    let (bit_len, sub_idx, idx) = parse_pdo_desc(desc);
    let sdo = SdoIdx { idx, sub_idx };
    let offset = offset_of_bits(dir_bits);
    let (data_type, name) = match find_entry(od, sdo) {
        Some(entry) => (entry.data_type, entry.description.clone()),
        None => (DataType::Raw, String::new()),
    };
    PdoEntryInfo {
        idx: PdoEntryIdx { idx: pdo_idx, sub_idx: entry_sub },
        pos,
        data_type,
        offset,
        bit_len,
        name,
        sm: dir,
        sdo,
    }
}

/// Whether `name` is the name that an object-index lookup yields: the name
/// of the first object carrying the index, or empty when there is none.
pub open spec fn spec_object_name_matches(od: Seq<SdoObject>, idx: u16, name: Seq<char>) -> bool {
    &&& spec_has_object(od, idx) ==> exists|j: int|
        {
            &&& 0 <= j < od.len()
            &&& (#[trigger] od[j]).info.idx == idx
            &&& (forall|k: int| 0 <= k < j ==> od[k].info.idx != idx)
            &&& name == od[j].info.name@
        }
    &&& !spec_has_object(od, idx) ==> name.len() == 0
}

/// The name of the first dictionary object with this index, or an empty
/// string when the dictionary has none.
pub fn object_name(od: &SlaveOd, idx: u16) -> (r: String)
    ensures
        spec_object_name_matches(od@, idx, r@),
{
    match find_object(od, idx) {
        Some(obj) => obj.info.name.clone(),
        None => String::new(),
    }
}


/// The scan fields of the two states agree.
pub open spec fn spec_same_scan(a: PdoResolver, b: PdoResolver) -> bool {
    &&& b.sm_cnt == a.sm_cnt
    &&& b.cur_sm == a.cur_sm
    &&& b.sm_types@ == a.sm_types@
    &&& b.plan@ == a.plan@
    &&& b.plan_pos == a.plan_pos
}

/// The per-PDO walk fields of the two states agree.
pub open spec fn spec_same_walk(a: PdoResolver, b: PdoResolver) -> bool {
    &&& b.pdo_cnt == a.pdo_cnt
    &&& b.pdo_sub == a.pdo_sub
    &&& b.cur_pdo_idx == a.cur_pdo_idx
    &&& b.entry_cnt == a.entry_cnt
    &&& b.entry_sub == a.entry_sub
}

/// Everything the two states have gathered agrees.
pub open spec fn spec_same_gathered(a: PdoResolver, b: PdoResolver) -> bool {
    &&& b.cur_entries@ == a.cur_entries@
    &&& b.out_bits == a.out_bits
    &&& b.in_bits == a.in_bits
    &&& b.pdos@ == a.pdos@
}

/// The two resolver states agree entirely.
pub open spec fn spec_same_resolver(a: PdoResolver, b: PdoResolver) -> bool {
    &&& spec_same_scan(a, b)
    &&& spec_same_walk(a, b)
    &&& spec_same_gathered(a, b)
    &&& b.phase == a.phase
}

/// `post` is `pre` moved on to the next sync manager of the plan, or
/// finished when there is none.
pub open spec fn spec_advanced_sm(pre: PdoResolver, post: PdoResolver) -> bool {
    &&& spec_same_gathered(pre, post)
    &&& post.sm_cnt == pre.sm_cnt
    &&& post.cur_sm == pre.cur_sm
    &&& post.sm_types@ == pre.sm_types@
    &&& post.plan@ == pre.plan@
    &&& post.plan_pos == pre.plan_pos + 1
    &&& post.phase == (if pre.plan_pos + 1 == pre.plan@.len() {
        Phase::Finished
    } else {
        Phase::PdoCount
    })
    &&& post.pdo_cnt == pre.pdo_cnt
    &&& post.pdo_sub == pre.pdo_sub
    &&& post.cur_pdo_idx == pre.cur_pdo_idx
    &&& post.entry_cnt == pre.entry_cnt
    &&& post.entry_sub == pre.entry_sub
}

/// `post` is `pre` moved on after one PDO of the current sync manager: to
/// the next assigned PDO, or past the sync manager when this was its last.
pub open spec fn spec_advanced_after_pdo(pre: PdoResolver, post: PdoResolver) -> bool {
    if pre.pdo_sub == pre.pdo_cnt {
        spec_advanced_sm(pre, post)
    } else {
        &&& spec_same_gathered(pre, post)
        &&& spec_same_scan(pre, post)
        &&& post.pdo_sub == pre.pdo_sub + 1
        &&& post.pdo_cnt == pre.pdo_cnt
        &&& post.cur_pdo_idx == pre.cur_pdo_idx
        &&& post.entry_cnt == pre.entry_cnt
        &&& post.entry_sub == pre.entry_sub
        &&& post.phase == Phase::PdoIdx
    }
}


/// The packed descriptor held in an entry-descriptor response.
pub open spec fn spec_response_desc(response: Seq<u8>) -> u32 {
    spec_u32_from_le_bytes(response)
}

/// The bit width named by an entry-descriptor response.
pub open spec fn spec_response_bits(response: Seq<u8>) -> usize {
    (spec_response_desc(response) & 0xFF) as usize
}

/// The running bit counter of direction `d`.
pub open spec fn spec_dir_bits(pre: PdoResolver, d: SmType) -> usize {
    if d == SmType::Outputs {
        pre.out_bits
    } else {
        pre.in_bits
    }
}

/// What consuming one entry-descriptor response does: on overflow of the
/// direction's bit counter a typed error and no change; otherwise exactly
/// one entry, built as [`spec_entry_matches_desc`] describes, appended to
/// its direction's layout at the running bit offset — and, when it was the
/// PDO's last entry, the whole PDO wrapped up and retained.
pub open spec fn spec_step_entry_desc_post(
    pre: PdoResolver,
    post: PdoResolver,
    od: Seq<SdoObject>,
    response: Seq<u8>,
    r: Result<(), Error>,
) -> bool {
    if spec_dir_bits(pre, pre.cur_dir()) + spec_response_bits(response) > usize::MAX {
        r == Err::<(), Error>(Error::PdoLayoutOverflow)
    } else {
        &&& r is Ok
        &&& exists|e: PdoEntryInfo|
            {
                &&& #[trigger] spec_entry_matches_desc(
                    e,
                    od,
                    spec_response_desc(response),
                    pre.cur_pdo_idx,
                    pre.entry_sub,
                    pre.cur_dir(),
                    spec_dir_bits(pre, pre.cur_dir()),
                )
                &&& post.dir_with_cur(pre.cur_dir()) == pre.dir_with_cur(pre.cur_dir()).push(e)
            }
        &&& (pre.cur_dir() == SmType::Outputs ==> {
            &&& post.out_bits == pre.out_bits + spec_response_bits(response)
            &&& post.in_bits == pre.in_bits
            &&& post.dir_with_cur(SmType::Inputs) == pre.dir_with_cur(SmType::Inputs)
        })
        &&& (pre.cur_dir() == SmType::Inputs ==> {
            &&& post.in_bits == pre.in_bits + spec_response_bits(response)
            &&& post.out_bits == pre.out_bits
            &&& post.dir_with_cur(SmType::Outputs) == pre.dir_with_cur(SmType::Outputs)
        })
        &&& post.sm_types@ == pre.sm_types@
        &&& post.plan@ == pre.plan@
        &&& post.sm_cnt == pre.sm_cnt
        &&& post.cur_sm == pre.cur_sm
        &&& (if pre.entry_sub == pre.entry_cnt {
            &&& post.pdos@.len() == pre.pdos@.len() + 1
            &&& (forall|i: int| 0 <= i < pre.pdos@.len() ==> post.pdos@[i] == pre.pdos@[i])
            &&& post.pdos@.last().info.idx == pre.cur_pdo_idx
            &&& post.pdos@.last().info.sm == pre.plan@[pre.plan_pos as int].0
            &&& post.pdos@.last().info.entry_count == pre.entry_cnt
            &&& post.pdos@.last().entries@.len() == pre.cur_entries@.len() + 1
            &&& post.pdos@.last().entries@.drop_last() == pre.cur_entries@
            &&& spec_object_name_matches(
                od,
                post.pdos@.last().entries@[0].sdo.idx,
                post.pdos@.last().info.name@,
            )
            &&& post.cur_entries@.len() == 0
            &&& post.pdo_cnt == pre.pdo_cnt
            &&& post.cur_pdo_idx == pre.cur_pdo_idx
            &&& post.plan_pos == (if pre.pdo_sub == pre.pdo_cnt {
                pre.plan_pos + 1
            } else {
                pre.plan_pos as int
            })
            &&& post.pdo_sub == (if pre.pdo_sub == pre.pdo_cnt {
                pre.pdo_sub
            } else {
                (pre.pdo_sub + 1) as u8
            })
            &&& post.phase == (if pre.pdo_sub == pre.pdo_cnt {
                if pre.plan_pos + 1 == pre.plan@.len() {
                    Phase::Finished
                } else {
                    Phase::PdoCount
                }
            } else {
                Phase::PdoIdx
            })
        } else {
            &&& post.pdos@ == pre.pdos@
            &&& post.cur_entries@.len() == pre.cur_entries@.len() + 1
            &&& post.cur_entries@.drop_last() == pre.cur_entries@
            &&& post.entry_sub == pre.entry_sub + 1
            &&& post.phase == Phase::EntryDesc
            &&& post.plan_pos == pre.plan_pos
            &&& post.pdo_sub == pre.pdo_sub
            &&& post.pdo_cnt == pre.pdo_cnt
            &&& post.cur_pdo_idx == pre.cur_pdo_idx
        })
    }
}

/// The PDO-assignment resolver for one slave, written as a step machine.
///
/// [`PdoResolver::next_request`] names the SDO to read next;
/// [`PdoResolver::step`] consumes the bytes that the read returned and
/// decides everything up to the next read.  When the request is
/// [`ResolveRequest::Finished`], [`PdoResolver::finish`] hands out the
/// resolved assignment, which satisfies the layout invariant
/// [`spec_layout_ok`].
///
/// A read failure is the caller's to handle: resolution for the slave is
/// abandoned by dropping the resolver.  The fields are public so that the
/// caller can inspect progress; they are only meant to be advanced through
/// [`PdoResolver::step`].
pub struct PdoResolver {
    pub phase: Phase,
    /// Number of defined sync managers, clamped to 8.
    pub sm_cnt: u8,
    /// Sync manager whose communication type is being scanned.
    pub cur_sm: u8,
    /// Scanned (sync manager, type) pairs, in ascending manager order.
    pub sm_types: Vec<(u8, SmType)>,
    /// Processing order: output managers first, then input managers.
    pub plan: Vec<(u8, SmType)>,
    pub plan_pos: usize,
    /// Number of PDOs assigned to the current sync manager.
    pub pdo_cnt: u8,
    /// 1-based position of the current PDO in the assignment object.
    pub pdo_sub: u8,
    /// Object index of the current PDO.
    pub cur_pdo_idx: u16,
    /// Number of entries of the current PDO.
    pub entry_cnt: u8,
    /// 1-based position of the current entry in the mapping object.
    pub entry_sub: u8,
    /// Entries of the current PDO gathered so far.
    pub cur_entries: Vec<PdoEntryInfo>,
    /// Running position counters for retained entries and PDOs (wrap at
    /// 256, metadata only).
    pub entry_pos: u8,
    pub pdo_pos: u8,
    /// Running bit offsets, one per direction, never reset mid-slave.
    pub out_bits: usize,
    pub in_bits: usize,
    /// Finished mappings, output direction first.
    pub pdos: Vec<PdoMapping>,
}

impl PdoResolver {
    /// The resolver is in one of the phases that walk a sync manager's
    /// assigned PDOs.
    pub open spec fn in_pdo_phase(&self) -> bool {
        ||| self.phase == Phase::PdoCount
        ||| self.phase == Phase::PdoIdx
        ||| self.phase == Phase::EntryCount
        ||| self.phase == Phase::EntryDesc
    }

    /// Direction of the sync manager being walked.
    pub open spec fn cur_dir(&self) -> SmType {
        self.plan@[self.plan_pos as int].1
    }

    /// The gathered entries that belong to direction `d` right now.
    pub open spec fn cur_for(&self, d: SmType) -> Seq<PdoEntryInfo> {
        if self.in_pdo_phase() && self.cur_dir() == d {
            self.cur_entries@
        } else {
            Seq::<PdoEntryInfo>::empty()
        }
    }

    /// All entries of direction `d` resolved so far, finished mappings
    /// first, then the entries of the PDO being walked.
    pub open spec fn dir_with_cur(&self, d: SmType) -> Seq<PdoEntryInfo> {
        spec_dir_entries(self.pdos@, d) + self.cur_for(d)
    }

    /// The step machine's invariant: everything resolved so far is laid out
    /// back to back per direction, and the running bit counters stand at
    /// the end of their direction's layout.
    pub open spec fn inv(&self) -> bool {
        &&& forall|i: int| 0 <= i < self.pdos@.len() ==> spec_mapping_wf(#[trigger] self.pdos@[i])
        &&& spec_contiguous_from(self.dir_with_cur(SmType::Outputs), 0)
        &&& spec_contiguous_from(self.dir_with_cur(SmType::Inputs), 0)
        &&& self.out_bits == spec_total_bits(self.dir_with_cur(SmType::Outputs))
        &&& self.in_bits == spec_total_bits(self.dir_with_cur(SmType::Inputs))
        &&& forall|i: int|
            0 <= i < self.plan@.len() ==> ((#[trigger] self.plan@[i]).1 == SmType::Outputs
                || self.plan@[i].1 == SmType::Inputs)
        &&& self.in_pdo_phase() ==> self.plan_pos < self.plan@.len()
        &&& (self.phase == Phase::PdoCount || self.phase == Phase::PdoIdx || self.phase
            == Phase::EntryCount) ==> self.cur_entries@.len() == 0
        &&& !self.in_pdo_phase() ==> self.cur_entries@.len() == 0
        &&& self.phase == Phase::EntryDesc ==> forall|i: int|
            0 <= i < self.cur_entries@.len() ==> ((#[trigger] self.cur_entries@[i]).sm
                == self.cur_dir() && self.cur_entries@[i].offset.bit < 8)
        &&& spec_sm_pairs_ascending(self.sm_types@)
        &&& self.phase == Phase::SmType ==> (forall|i: int|
            0 <= i < self.sm_types@.len() ==> (#[trigger] self.sm_types@[i]).0 < self.cur_sm)
        &&& self.phase == Phase::SmCount ==> self.sm_types@.len() == 0
        &&& forall|i: int, j: int|
            0 <= i < j < self.plan@.len() && (#[trigger] self.plan@[i]).1 == (
            #[trigger] self.plan@[j]).1 ==> self.plan@[i].0 < self.plan@[j].0
        &&& spec_outputs_first(self.plan@)
        &&& spec_mappings_outputs_first(self.pdos@)
        &&& (self.phase == Phase::SmCount || self.phase == Phase::SmType) ==> self.pdos@.len()
            == 0
        &&& self.in_pdo_phase() ==> (forall|i: int|
            0 <= i < self.pdos@.len() && spec_mapping_dir(#[trigger] self.pdos@[i])
                == SmType::Inputs ==> self.cur_dir() == SmType::Inputs)
        &&& spec_mappings_sm_ascending(self.pdos@)
        &&& self.in_pdo_phase() ==> (forall|i: int|
            0 <= i < self.pdos@.len() && spec_mapping_dir(#[trigger] self.pdos@[i])
                == self.cur_dir() ==> self.pdos@[i].info.sm
                <= self.plan@[self.plan_pos as int].0)
        &&& self.phase == Phase::SmType ==> 2 <= self.cur_sm <= self.sm_cnt <= 8
        &&& (self.phase == Phase::PdoIdx || self.phase == Phase::EntryCount || self.phase
            == Phase::EntryDesc) ==> 1 <= self.pdo_sub <= self.pdo_cnt
        &&& self.phase == Phase::EntryDesc ==> 1 <= self.entry_sub <= self.entry_cnt
    }

    /// Resolution is complete.
    pub open spec fn done(&self) -> bool {
        self.phase == Phase::Finished
    }

    /// The read the resolver is waiting for.
    pub open spec fn spec_request(&self) -> ResolveRequest {
        match self.phase {
            Phase::SmCount => ResolveRequest::Read { idx: 0x1C00, sub: 0, len: 1 },
            Phase::SmType => ResolveRequest::Read {
                idx: 0x1C00,
                sub: (self.cur_sm + 1) as u8,
                len: 1,
            },
            Phase::PdoCount => ResolveRequest::Read {
                idx: (0x1C10 + self.plan@[self.plan_pos as int].0) as u16,
                sub: 0,
                len: 1,
            },
            Phase::PdoIdx => ResolveRequest::Read {
                idx: (0x1C10 + self.plan@[self.plan_pos as int].0) as u16,
                sub: self.pdo_sub,
                len: 2,
            },
            Phase::EntryCount => ResolveRequest::Read { idx: self.cur_pdo_idx, sub: 0, len: 1 },
            Phase::EntryDesc => ResolveRequest::Read {
                idx: self.cur_pdo_idx,
                sub: self.entry_sub,
                len: 4,
            },
            Phase::Finished => ResolveRequest::Finished,
        }
    }

    /// Byte count of the response the resolver is waiting for.
    pub open spec fn spec_response_len(&self) -> usize {
        match self.spec_request() {
            ResolveRequest::Read { len, .. } => len,
            ResolveRequest::Finished => 0,
        }
    }

    /// A fresh resolver; the first request reads the sync-manager count.
    pub fn new() -> (r: PdoResolver)
        ensures
            r.inv(),
            !r.done(),
            r.spec_request() == (ResolveRequest::Read { idx: 0x1C00u16, sub: 0u8, len: 1usize }),
            r.pdos@.len() == 0,
    {
        let r = PdoResolver {
            phase: Phase::SmCount,
            sm_cnt: 0,
            cur_sm: 0,
            sm_types: Vec::new(),
            plan: Vec::new(),
            plan_pos: 0,
            pdo_cnt: 0,
            pdo_sub: 0,
            cur_pdo_idx: 0,
            entry_cnt: 0,
            entry_sub: 0,
            cur_entries: Vec::new(),
            entry_pos: 0,
            pdo_pos: 0,
            out_bits: 0,
            in_bits: 0,
            pdos: Vec::new(),
        };
        proof {
            assert(r.dir_with_cur(SmType::Outputs) =~= Seq::<PdoEntryInfo>::empty());
            assert(r.dir_with_cur(SmType::Inputs) =~= Seq::<PdoEntryInfo>::empty());
            assert(spec_total_bits(Seq::<PdoEntryInfo>::empty()) == 0);
        }
        r
    }

    /// The read to issue next.
    pub fn next_request(&self) -> (r: ResolveRequest)
        requires
            self.inv(),
        ensures
            r == self.spec_request(),
    {
        match self.phase {
            Phase::SmCount => ResolveRequest::Read { idx: 0x1C00, sub: 0, len: 1 },
            Phase::SmType => ResolveRequest::Read { idx: 0x1C00, sub: self.cur_sm + 1, len: 1 },
            Phase::PdoCount => ResolveRequest::Read {
                idx: 0x1C10 + self.plan[self.plan_pos].0 as u16,
                sub: 0,
                len: 1,
            },
            Phase::PdoIdx => ResolveRequest::Read {
                idx: 0x1C10 + self.plan[self.plan_pos].0 as u16,
                sub: self.pdo_sub,
                len: 2,
            },
            Phase::EntryCount => ResolveRequest::Read { idx: self.cur_pdo_idx, sub: 0, len: 1 },
            Phase::EntryDesc => ResolveRequest::Read {
                idx: self.cur_pdo_idx,
                sub: self.entry_sub,
                len: 4,
            },
            Phase::Finished => ResolveRequest::Finished,
        }
    }

    /// Moves on to the next sync manager of the plan, or finishes.
    fn advance_sm(&mut self)
        requires
            old(self).inv(),
            old(self).in_pdo_phase(),
            old(self).cur_entries@.len() == 0,
        ensures
            final(self).inv(),
            spec_advanced_sm(*old(self), *final(self)),
            final(self).cur_entries@.len() == 0,
    {
        let n = self.plan.len();
        self.plan_pos = self.plan_pos + 1;
        if self.plan_pos == n {
            self.phase = Phase::Finished;
        } else {
            self.phase = Phase::PdoCount;
        }
        proof {
            assert(self.dir_with_cur(SmType::Outputs) =~= old(self).dir_with_cur(SmType::Outputs));
            assert(self.dir_with_cur(SmType::Inputs) =~= old(self).dir_with_cur(SmType::Inputs));
            if self.phase == Phase::PdoCount {
                assert forall|i: int|
                    0 <= i < self.pdos@.len() && spec_mapping_dir(#[trigger] self.pdos@[i])
                        == SmType::Inputs implies self.cur_dir() == SmType::Inputs by {
                    assert(old(self).cur_dir() == SmType::Inputs);
                    assert(!(old(self).plan@[old(self).plan_pos as int].1 == SmType::Inputs
                        && self.plan@[self.plan_pos as int].1 == SmType::Outputs));
                }
                assert forall|i: int|
                    0 <= i < self.pdos@.len() && spec_mapping_dir(#[trigger] self.pdos@[i])
                        == self.cur_dir() implies self.pdos@[i].info.sm
                    <= self.plan@[self.plan_pos as int].0 by {
                    if old(self).cur_dir() == self.cur_dir() {
                        assert(self.pdos@[i].info.sm <= old(self).plan@[old(
                            self,
                        ).plan_pos as int].0);
                        assert(old(self).plan@[old(self).plan_pos as int].0 < self.plan@[
                            self.plan_pos as int].0);
                    } else {
                        assert(spec_mapping_dir(self.pdos@[i]) == SmType::Inputs ==> old(
                            self,
                        ).cur_dir() == SmType::Inputs);
                        assert(!(old(self).plan@[old(self).plan_pos as int].1
                            == SmType::Inputs && self.plan@[self.plan_pos as int].1
                            == SmType::Outputs));
                    }
                }
            }
        }
    }

    /// Moves on to the next PDO of the current sync manager, or to the next
    /// sync manager when this was the last one.
    fn advance_after_pdo(&mut self)
        requires
            old(self).inv(),
            old(self).phase == Phase::EntryCount || old(self).phase == Phase::EntryDesc,
            old(self).cur_entries@.len() == 0,
        ensures
            final(self).inv(),
            spec_advanced_after_pdo(*old(self), *final(self)),
            final(self).cur_entries@.len() == 0,
    {
        if self.pdo_sub == self.pdo_cnt {
            self.advance_sm();
        } else {
            self.pdo_sub = self.pdo_sub + 1;
            self.phase = Phase::PdoIdx;
            proof {
                assert(self.dir_with_cur(SmType::Outputs) =~= old(self).dir_with_cur(
                    SmType::Outputs,
                ));
                assert(self.dir_with_cur(SmType::Inputs) =~= old(self).dir_with_cur(
                    SmType::Inputs,
                ));
            }
        }
    }

    /// Consumes the response to the pending read and decides everything up
    /// to the next read.
    ///
    /// An unknown sync-manager type is fatal ([`Error::InvalidSmType`]), as
    /// is a layout outgrowing the addressable image
    /// ([`Error::PdoLayoutOverflow`]); the defensive rules are applied
    /// here: a sync-manager count above 9 is clamped to 8 managers, and a
    /// sync manager 2 reporting the mailbox-read type is skipped as a known
    /// slave bug rather than failing.
    #[verifier::rlimit(100)]
    pub fn step(&mut self, od: &SlaveOd, response: &[u8]) -> (r: Result<(), Error>)
        requires
            old(self).inv(),
            !old(self).done(),
            response@.len() == old(self).spec_response_len(),
        ensures
            r is Ok ==> final(self).inv(),
            r is Err ==> spec_same_resolver(*old(self), *final(self)),
            old(self).phase == Phase::SmCount ==> {
                &&& r is Ok
                &&& spec_same_gathered(*old(self), *final(self))
                &&& spec_same_walk(*old(self), *final(self))
                &&& final(self).sm_types@ == old(self).sm_types@
                &&& final(self).plan@ == old(self).plan@
                &&& final(self).plan_pos == old(self).plan_pos
                &&& (response@[0] <= 2 ==> final(self).phase == Phase::Finished)
                &&& (response@[0] > 2 ==> {
                    &&& final(self).phase == Phase::SmType
                    &&& final(self).cur_sm == 2
                    &&& final(self).sm_cnt == (if response@[0] - 1 > 8 {
                        8u8
                    } else {
                        (response@[0] - 1) as u8
                    })
                })
            },
            old(self).phase == Phase::SmType ==> (match spec_sm_type_from_u8(response@[0]) {
                Option::None => r == Err::<(), Error>(Error::InvalidSmType),
                Option::Some(t) => {
                    let scanned = if old(self).cur_sm == 2 && t == SmType::MbxRd {
                        old(self).sm_types@
                    } else {
                        old(self).sm_types@.push((old(self).cur_sm, t))
                    };
                    &&& r is Ok
                    &&& spec_same_gathered(*old(self), *final(self))
                    &&& spec_same_walk(*old(self), *final(self))
                    &&& final(self).sm_types@ == scanned
                    &&& final(self).sm_cnt == old(self).sm_cnt
                    &&& (if old(self).cur_sm == old(self).sm_cnt {
                        &&& final(self).plan@ == spec_plan_order(scanned)
                        &&& final(self).plan_pos == 0
                        &&& final(self).phase == (if spec_plan_order(scanned).len() == 0 {
                            Phase::Finished
                        } else {
                            Phase::PdoCount
                        })
                    } else {
                        &&& final(self).cur_sm == old(self).cur_sm + 1
                        &&& final(self).plan@ == old(self).plan@
                        &&& final(self).plan_pos == old(self).plan_pos
                        &&& final(self).phase == Phase::SmType
                    })
                },
            }),
            old(self).phase == Phase::PdoCount ==> {
                &&& r is Ok
                &&& (if response@[0] == 0 {
                    spec_advanced_sm(*old(self), *final(self))
                } else {
                    &&& spec_same_gathered(*old(self), *final(self))
                    &&& spec_same_scan(*old(self), *final(self))
                    &&& final(self).pdo_cnt == response@[0]
                    &&& final(self).pdo_sub == 1
                    &&& final(self).cur_pdo_idx == old(self).cur_pdo_idx
                    &&& final(self).phase == Phase::PdoIdx
                })
            },
            old(self).phase == Phase::PdoIdx ==> {
                &&& r is Ok
                &&& spec_same_gathered(*old(self), *final(self))
                &&& spec_same_scan(*old(self), *final(self))
                &&& final(self).cur_pdo_idx == spec_u16_from_le_bytes(response@)
                &&& final(self).pdo_cnt == old(self).pdo_cnt
                &&& final(self).pdo_sub == old(self).pdo_sub
                &&& final(self).phase == Phase::EntryCount
            },
            old(self).phase == Phase::EntryCount ==> {
                &&& r is Ok
                &&& final(self).entry_cnt == response@[0]
                &&& (if response@[0] == 0 {
                    &&& spec_same_gathered(*old(self), *final(self))
                    &&& final(self).sm_cnt == old(self).sm_cnt
                    &&& final(self).cur_sm == old(self).cur_sm
                    &&& final(self).sm_types@ == old(self).sm_types@
                    &&& final(self).plan@ == old(self).plan@
                    &&& final(self).pdo_cnt == old(self).pdo_cnt
                    &&& final(self).cur_pdo_idx == old(self).cur_pdo_idx
                    &&& final(self).plan_pos == (if old(self).pdo_sub == old(self).pdo_cnt {
                        old(self).plan_pos + 1
                    } else {
                        old(self).plan_pos as int
                    })
                    &&& final(self).pdo_sub == (if old(self).pdo_sub == old(self).pdo_cnt {
                        old(self).pdo_sub
                    } else {
                        (old(self).pdo_sub + 1) as u8
                    })
                    &&& final(self).phase == (if old(self).pdo_sub == old(self).pdo_cnt {
                        if old(self).plan_pos + 1 == old(self).plan@.len() {
                            Phase::Finished
                        } else {
                            Phase::PdoCount
                        }
                    } else {
                        Phase::PdoIdx
                    })
                } else {
                    &&& spec_same_gathered(*old(self), *final(self))
                    &&& spec_same_scan(*old(self), *final(self))
                    &&& final(self).pdo_cnt == old(self).pdo_cnt
                    &&& final(self).pdo_sub == old(self).pdo_sub
                    &&& final(self).cur_pdo_idx == old(self).cur_pdo_idx
                    &&& final(self).entry_sub == 1
                    &&& final(self).phase == Phase::EntryDesc
                })
            },
            old(self).phase == Phase::EntryDesc ==> spec_step_entry_desc_post(
                *old(self),
                *final(self),
                od@,
                response@,
                r,
            ),
    {
        match self.phase {
            Phase::SmCount => {
                let obj_cnt = response[0];
                if obj_cnt <= 2 {
                    // fewer than two sync-manager types: nothing to resolve
                    self.phase = Phase::Finished;
                    proof {
                        assert(self.dir_with_cur(SmType::Outputs) =~= old(self).dir_with_cur(
                            SmType::Outputs,
                        ));
                        assert(self.dir_with_cur(SmType::Inputs) =~= old(self).dir_with_cur(
                            SmType::Inputs,
                        ));
                    }
                    return Ok(());
                }
                let defined = obj_cnt - 1;
                self.sm_cnt = if defined > 8 {
                    8
                } else {
                    defined
                };
                self.cur_sm = 2;
                self.phase = Phase::SmType;
                proof {
                    assert(self.dir_with_cur(SmType::Outputs) =~= old(self).dir_with_cur(
                        SmType::Outputs,
                    ));
                    assert(self.dir_with_cur(SmType::Inputs) =~= old(self).dir_with_cur(
                        SmType::Inputs,
                    ));
                }
                Ok(())
            },
            Phase::SmType => {
                let code = response[0];
                let t = match sm_type_from_u8(code) {
                    Some(t) => t,
                    None => {
                        return Err(Error::InvalidSmType);
                    },
                };
                if !(self.cur_sm == 2 && t == SmType::MbxRd) {
                    let sm = self.cur_sm;
                    self.sm_types.push((sm, t));
                }
                if self.cur_sm == self.sm_cnt {
                    self.plan = plan_order(&self.sm_types);
                    self.plan_pos = 0;
                    proof {
                        lemma_dir_plan_elements(self.sm_types@, SmType::Outputs);
                        lemma_dir_plan_elements(self.sm_types@, SmType::Inputs);
                        lemma_plan_order_outputs_first(self.sm_types@);
                        lemma_dir_plan_ascending(self.sm_types@, SmType::Outputs, 256);
                        lemma_dir_plan_ascending(self.sm_types@, SmType::Inputs, 256);
                        assert forall|i: int, j: int|
                            0 <= i < j < self.plan@.len() && (#[trigger] self.plan@[i]).1 == (
                            #[trigger] self.plan@[j]).1 implies self.plan@[i].0
                            < self.plan@[j].0 by {
                            let outs = spec_dir_plan(self.sm_types@, SmType::Outputs);
                            let ins = spec_dir_plan(self.sm_types@, SmType::Inputs);
                            if i >= outs.len() {
                                assert(self.plan@[i] == ins[i - outs.len()]);
                                assert(self.plan@[j] == ins[j - outs.len()]);
                            } else if j >= outs.len() {
                                assert(self.plan@[i] == outs[i]);
                                assert(self.plan@[j] == ins[j - outs.len()]);
                            } else {
                                assert(self.plan@[i] == outs[i]);
                                assert(self.plan@[j] == outs[j]);
                            }
                        }
                    }
                    if self.plan.len() == 0 {
                        self.phase = Phase::Finished;
                    } else {
                        self.phase = Phase::PdoCount;
                    }
                } else {
                    self.cur_sm = self.cur_sm + 1;
                }
                proof {
                    assert(self.dir_with_cur(SmType::Outputs) =~= old(self).dir_with_cur(
                        SmType::Outputs,
                    ));
                    assert(self.dir_with_cur(SmType::Inputs) =~= old(self).dir_with_cur(
                        SmType::Inputs,
                    ));
                }
                Ok(())
            },
            Phase::PdoCount => {
                let cnt = response[0];
                if cnt == 0 {
                    self.advance_sm();
                } else {
                    self.pdo_cnt = cnt;
                    self.pdo_sub = 1;
                    self.phase = Phase::PdoIdx;
                    proof {
                        assert(self.dir_with_cur(SmType::Outputs) =~= old(self).dir_with_cur(
                            SmType::Outputs,
                        ));
                        assert(self.dir_with_cur(SmType::Inputs) =~= old(self).dir_with_cur(
                            SmType::Inputs,
                        ));
                    }
                }
                Ok(())
            },
            Phase::PdoIdx => {
                self.cur_pdo_idx = u16_from_le_bytes(response);
                self.phase = Phase::EntryCount;
                proof {
                    assert(self.dir_with_cur(SmType::Outputs) =~= old(self).dir_with_cur(
                        SmType::Outputs,
                    ));
                    assert(self.dir_with_cur(SmType::Inputs) =~= old(self).dir_with_cur(
                        SmType::Inputs,
                    ));
                }
                Ok(())
            },
            Phase::EntryCount => {
                let cnt = response[0];
                self.entry_cnt = cnt;
                if cnt == 0 {
                    // a PDO with no entries is not retained
                    self.advance_after_pdo();
                } else {
                    self.entry_sub = 1;
                    self.phase = Phase::EntryDesc;
                    proof {
                        assert(self.dir_with_cur(SmType::Outputs) =~= old(self).dir_with_cur(
                            SmType::Outputs,
                        ));
                        assert(self.dir_with_cur(SmType::Inputs) =~= old(self).dir_with_cur(
                            SmType::Inputs,
                        ));
                    }
                }
                Ok(())
            },
            Phase::EntryDesc => { self.step_entry_desc(od, response) },
            Phase::Finished => {
                // unreachable: the caller only steps while a read is pending
                Ok(())
            },
        }
    }


    /// One entry descriptor consumed: the entry is built, placed at the
    /// direction's running bit offset, and retained; when it was the PDO's
    /// last entry the whole PDO is wrapped up.
    #[verifier::spinoff_prover]
    #[verifier::rlimit(100)]
    fn step_entry_desc(&mut self, od: &SlaveOd, response: &[u8]) -> (r: Result<(), Error>)
        requires
            old(self).inv(),
            old(self).phase == Phase::EntryDesc,
            response@.len() == 4,
        ensures
            r is Ok ==> final(self).inv(),
            r is Err ==> spec_same_resolver(*old(self), *final(self)),
            old(self).phase == Phase::EntryDesc ==> spec_step_entry_desc_post(
                *old(self),
                *final(self),
                od@,
                response@,
                r,
            ),
    {
        let desc = u32_from_le_bytes(response);
        let dir = self.plan[self.plan_pos].1;
        let bits = if dir == SmType::Outputs {
            self.out_bits
        } else {
            self.in_bits
        };
        let entry = entry_from_desc(
            od,
            desc,
            self.cur_pdo_idx,
            self.entry_sub,
            self.entry_pos,
            dir,
            bits,
        );
        let ghost entry_g = entry;
        let new_bits = match bits.checked_add(entry.bit_len) {
            Some(b) => b,
            None => {
                return Err(Error::PdoLayoutOverflow);
            },
        };
        proof {
            lemma_contiguous_push(old(self).dir_with_cur(dir), 0, entry);
        }
        self.cur_entries.push(entry);
        if dir == SmType::Outputs {
            self.out_bits = new_bits;
        } else {
            self.in_bits = new_bits;
        }
        proof {
            if dir == SmType::Outputs {
                assert(self.dir_with_cur(SmType::Outputs) =~= old(self).dir_with_cur(
                    SmType::Outputs,
                ).push(entry));
                assert(self.dir_with_cur(SmType::Inputs) =~= old(self).dir_with_cur(
                    SmType::Inputs,
                ));
            } else {
                assert(self.dir_with_cur(SmType::Inputs) =~= old(self).dir_with_cur(
                    SmType::Inputs,
                ).push(entry));
                assert(self.dir_with_cur(SmType::Outputs) =~= old(self).dir_with_cur(
                    SmType::Outputs,
                ));
            }
        }
        self.entry_pos = self.entry_pos.wrapping_add(1);
        if self.entry_sub == self.entry_cnt {
            self.finish_pdo(od);
            proof {
                assert(self.pdos@.last().entries@.drop_last() =~= old(
                    self,
                ).cur_entries@);
            }
        } else {
            self.entry_sub = self.entry_sub + 1;
        }
        proof {
            assert(spec_entry_matches_desc(
                entry_g,
                od@,
                spec_u32_from_le_bytes(response@),
                old(self).cur_pdo_idx,
                old(self).entry_sub,
                dir,
                if dir == SmType::Outputs {
                    old(self).out_bits
                } else {
                    old(self).in_bits
                },
            ));
            assert(self.dir_with_cur(dir) == old(self).dir_with_cur(dir).push(entry_g));
            if old(self).entry_sub != old(self).entry_cnt {
                assert(self.cur_entries@.drop_last() =~= old(self).cur_entries@);
            }
        }
        Ok(())
    }

    /// Wraps up the PDO whose entries were all gathered: looks its name up,
    /// retains the mapping, and moves on.
    fn finish_pdo(&mut self, od: &SlaveOd)
        requires
            old(self).inv(),
            old(self).phase == Phase::EntryDesc,
            old(self).cur_entries@.len() > 0,
        ensures
            final(self).inv(),
            final(self).pdos@.len() == old(self).pdos@.len() + 1,
            forall|i: int|
                0 <= i < old(self).pdos@.len() ==> final(self).pdos@[i] == old(self).pdos@[i],
            final(self).pdos@.last().info.idx == old(self).cur_pdo_idx,
            final(self).pdos@.last().info.sm == old(self).plan@[old(self).plan_pos as int].0,
            final(self).pdos@.last().info.entry_count == old(self).entry_cnt,
            final(self).pdos@.last().entries@ == old(self).cur_entries@,
            spec_object_name_matches(
                od@,
                old(self).cur_entries@[0].sdo.idx,
                final(self).pdos@.last().info.name@,
            ),
            final(self).cur_entries@.len() == 0,
            final(self).out_bits == old(self).out_bits,
            final(self).in_bits == old(self).in_bits,
            final(self).dir_with_cur(SmType::Outputs) == old(self).dir_with_cur(SmType::Outputs),
            final(self).dir_with_cur(SmType::Inputs) == old(self).dir_with_cur(SmType::Inputs),
            final(self).sm_cnt == old(self).sm_cnt,
            final(self).cur_sm == old(self).cur_sm,
            final(self).sm_types@ == old(self).sm_types@,
            final(self).plan@ == old(self).plan@,
            final(self).plan_pos == (if old(self).pdo_sub == old(self).pdo_cnt {
                old(self).plan_pos + 1
            } else {
                old(self).plan_pos as int
            }),
            final(self).pdo_cnt == old(self).pdo_cnt,
            final(self).cur_pdo_idx == old(self).cur_pdo_idx,
            final(self).pdo_sub == (if old(self).pdo_sub == old(self).pdo_cnt {
                old(self).pdo_sub
            } else {
                (old(self).pdo_sub + 1) as u8
            }),
            final(self).phase == (if old(self).pdo_sub == old(self).pdo_cnt {
                if old(self).plan_pos + 1 == old(self).plan@.len() {
                    Phase::Finished
                } else {
                    Phase::PdoCount
                }
            } else {
                Phase::PdoIdx
            }),
    {
        let name = object_name(od, self.cur_entries[0].sdo.idx);
        let info = PdoInfo {
            sm: self.plan[self.plan_pos].0,
            pos: self.pdo_pos,
            idx: self.cur_pdo_idx,
            entry_count: self.entry_cnt,
            name,
        };
        let mut entries: Vec<PdoEntryInfo> = Vec::new();
        core::mem::swap(&mut entries, &mut self.cur_entries);
        let m = PdoMapping { info, entries };
        let ghost dir = old(self).cur_dir();
        proof {
            lemma_dir_entries_push(self.pdos@, m, SmType::Outputs);
            lemma_dir_entries_push(self.pdos@, m, SmType::Inputs);
        }
        self.pdos.push(m);
        proof {
            assert forall|i: int, j: int|
                0 <= i < j < self.pdos@.len() implies !(spec_mapping_dir(
                #[trigger] self.pdos@[i],
            ) == SmType::Inputs && spec_mapping_dir(#[trigger] self.pdos@[j])
                == SmType::Outputs) by {
                if j + 1 == self.pdos@.len() && spec_mapping_dir(self.pdos@[i])
                    == SmType::Inputs {
                    assert(old(self).cur_dir() == SmType::Inputs);
                    assert(spec_mapping_dir(self.pdos@[j]) == old(self).cur_dir());
                }
            }
            assert forall|i: int, j: int|
                0 <= i < j < self.pdos@.len() && spec_mapping_dir(#[trigger] self.pdos@[i])
                    == spec_mapping_dir(#[trigger] self.pdos@[j]) implies self.pdos@[i].info.sm
                <= self.pdos@[j].info.sm by {
                if j + 1 == self.pdos@.len() {
                    assert(spec_mapping_dir(self.pdos@[j]) == old(self).cur_dir());
                    assert(self.pdos@[j].info.sm == old(self).plan@[old(
                        self,
                    ).plan_pos as int].0);
                }
            }
        }
        self.pdo_pos = self.pdo_pos.wrapping_add(1);
        proof {
            if dir == SmType::Outputs {
                assert(spec_dir_entries(self.pdos@, SmType::Outputs) =~= old(self).dir_with_cur(
                    SmType::Outputs,
                ));
                assert(spec_dir_entries(self.pdos@, SmType::Inputs) =~= spec_dir_entries(
                    old(self).pdos@,
                    SmType::Inputs,
                ));
            } else {
                assert(spec_dir_entries(self.pdos@, SmType::Inputs) =~= old(self).dir_with_cur(
                    SmType::Inputs,
                ));
                assert(spec_dir_entries(self.pdos@, SmType::Outputs) =~= spec_dir_entries(
                    old(self).pdos@,
                    SmType::Outputs,
                ));
            }
        }
        self.advance_after_pdo();
        proof {
            assert(self.dir_with_cur(SmType::Outputs) =~= spec_dir_entries(
                self.pdos@,
                SmType::Outputs,
            ));
            assert(self.dir_with_cur(SmType::Inputs) =~= spec_dir_entries(
                self.pdos@,
                SmType::Inputs,
            ));
            assert(old(self).dir_with_cur(SmType::Outputs) =~= spec_dir_entries(
                old(self).pdos@,
                SmType::Outputs,
            ) + (if old(self).cur_dir() == SmType::Outputs {
                old(self).cur_entries@
            } else {
                Seq::<PdoEntryInfo>::empty()
            }));
            assert(old(self).dir_with_cur(SmType::Inputs) =~= spec_dir_entries(
                old(self).pdos@,
                SmType::Inputs,
            ) + (if old(self).cur_dir() == SmType::Inputs {
                old(self).cur_entries@
            } else {
                Seq::<PdoEntryInfo>::empty()
            }));
        }
    }

    /// Hands out the resolved assignment once resolution is finished; it
    /// satisfies the layout invariant.
    pub fn finish(self) -> (r: SlavePdos)
        requires
            self.inv(),
            self.done(),
        ensures
            spec_layout_ok(r@),
            spec_mappings_outputs_first(r@),
            spec_mappings_sm_ascending(r@),
            r@ == self.pdos@,
    {
        proof {
            assert(self.dir_with_cur(SmType::Outputs) =~= spec_dir_entries(
                self.pdos@,
                SmType::Outputs,
            ));
            assert(self.dir_with_cur(SmType::Inputs) =~= spec_dir_entries(
                self.pdos@,
                SmType::Inputs,
            ));
        }
        let PdoResolver { pdos, .. } = self;
        pdos
    }
}

} // verus!
