use ethercat_coe::dict::{build_object, OdObjectRaw, SlaveOd};
use ethercat_coe::error::Error;
use ethercat_coe::pdo::{
    parse_pdo_desc, plan_order, PdoResolver, Phase, ResolveRequest, SlavePdos,
};
use ethercat_coe::types::{DataType, SmType};

#[test]
fn packed_descriptor_fields() {
    let (bit_len, sub_idx, idx) = parse_pdo_desc(0x7001_0320);
    assert_eq!(bit_len, 0x20);
    assert_eq!(sub_idx, 0x03);
    assert_eq!(idx, 0x7001);
    let (bit_len, sub_idx, idx) = parse_pdo_desc(0x8010_0601);
    assert_eq!(bit_len, 1);
    assert_eq!(sub_idx, 6);
    assert_eq!(idx, 0x8010);
}

#[test]
fn outputs_are_planned_before_inputs() {
    let scanned = vec![
        (2u8, SmType::Inputs),
        (3u8, SmType::Outputs),
        (4u8, SmType::MbxWr),
        (5u8, SmType::Outputs),
        (6u8, SmType::Inputs),
    ];
    let plan = plan_order(&scanned);
    assert_eq!(
        plan,
        vec![
            (3u8, SmType::Outputs),
            (5u8, SmType::Outputs),
            (2u8, SmType::Inputs),
            (6u8, SmType::Inputs),
        ]
    );
}

/// The dictionary of the scenario slave: one float output object and one
/// object with two boolean control bits.
fn scenario_od() -> SlaveOd {
    let velocity = OdObjectRaw {
        idx: 0x7001,
        object_code: 7,
        max_sub_idx: 3,
        name: String::from("Outputs"),
        data_types: vec![0x0005, 0x0005, 0x0005, 0x0008],
        bit_lengths: vec![8, 8, 8, 32],
        object_access: vec![7, 7, 7, 0x3F],
        descriptions: vec![
            String::from("count"),
            String::from("pad1"),
            String::from("pad2"),
            String::from("velocity"),
        ],
    };
    let control = OdObjectRaw {
        idx: 0x8010,
        object_code: 7,
        max_sub_idx: 6,
        name: String::from("Control"),
        data_types: vec![0x0005, 0x0005, 0x0001, 0x0005, 0x0005, 0x0005, 0x0001],
        bit_lengths: vec![8, 8, 1, 8, 8, 8, 1],
        object_access: vec![7, 7, 0x3F, 7, 7, 7, 0x3F],
        descriptions: vec![
            String::from("count"),
            String::from("x1"),
            String::from("enable"),
            String::from("x3"),
            String::from("x4"),
            String::from("x5"),
            String::from("trigger"),
        ],
    };
    vec![build_object(0, &velocity), build_object(1, &control)]
}

/// The mailbox responses of the scenario slave: one Outputs sync manager
/// (index 2) carrying PDO 0x1600 with one 32-bit float entry and PDO
/// 0x1601 with two single-bit boolean entries, and one empty Inputs sync
/// manager (index 3).
fn scenario_response(idx: u16, sub: u8) -> Vec<u8> {
    match (idx, sub) {
        (0x1C00, 0) => vec![4],
        (0x1C00, 3) => vec![3],
        (0x1C00, 4) => vec![4],
        (0x1C12, 0) => vec![2],
        (0x1C12, 1) => 0x1600u16.to_le_bytes().to_vec(),
        (0x1C12, 2) => 0x1601u16.to_le_bytes().to_vec(),
        (0x1600, 0) => vec![1],
        (0x1600, 1) => 0x7001_0320u32.to_le_bytes().to_vec(),
        (0x1601, 0) => vec![2],
        (0x1601, 1) => 0x8010_0201u32.to_le_bytes().to_vec(),
        (0x1601, 2) => 0x8010_0601u32.to_le_bytes().to_vec(),
        (0x1C13, 0) => vec![0],
        _ => panic!("unexpected read at {idx:#x}:{sub}"),
    }
}

fn resolve(od: &SlaveOd) -> SlavePdos {
    let mut resolver = PdoResolver::new();
    loop {
        match resolver.next_request() {
            ResolveRequest::Read { idx, sub, len } => {
                let response = scenario_response(idx, sub);
                assert_eq!(response.len(), len);
                resolver.step(od, &response).unwrap();
            }
            ResolveRequest::Finished => return resolver.finish(),
        }
    }
}

#[test]
fn scenario_assignment_is_laid_out_back_to_back() {
    let od = scenario_od();
    let pdos = resolve(&od);
    assert_eq!(pdos.len(), 2);

    assert_eq!(pdos[0].info.idx, 0x1600);
    assert_eq!(pdos[0].info.sm, 2);
    assert_eq!(pdos[0].info.entry_count, 1);
    assert_eq!(pdos[0].info.name, "Outputs");
    assert_eq!(pdos[0].entries.len(), 1);
    let velocity = &pdos[0].entries[0];
    assert_eq!(velocity.sdo.idx, 0x7001);
    assert_eq!(velocity.sdo.sub_idx, 3);
    assert_eq!(velocity.data_type, DataType::F32);
    assert_eq!(velocity.name, "velocity");
    assert_eq!(velocity.bit_len, 32);
    assert_eq!(velocity.offset.byte, 0);
    assert_eq!(velocity.offset.bit, 0);
    assert_eq!(velocity.sm, SmType::Outputs);

    assert_eq!(pdos[1].info.idx, 0x1601);
    assert_eq!(pdos[1].info.name, "Control");
    assert_eq!(pdos[1].entries.len(), 2);
    let enable = &pdos[1].entries[0];
    assert_eq!(enable.sdo.idx, 0x8010);
    assert_eq!(enable.sdo.sub_idx, 2);
    assert_eq!(enable.data_type, DataType::Bool);
    assert_eq!(enable.bit_len, 1);
    assert_eq!(enable.offset.byte, 4);
    assert_eq!(enable.offset.bit, 0);
    let trigger = &pdos[1].entries[1];
    assert_eq!(trigger.sdo.idx, 0x8010);
    assert_eq!(trigger.sdo.sub_idx, 6);
    assert_eq!(trigger.offset.byte, 4);
    assert_eq!(trigger.offset.bit, 1);
}

#[test]
fn unresolved_references_are_retained_as_raw() {
    // same transcript, but an empty dictionary: entries keep their place
    // and width, with no resolved type or name
    let od: SlaveOd = vec![];
    let pdos = resolve(&od);
    assert_eq!(pdos.len(), 2);
    assert_eq!(pdos[0].entries[0].data_type, DataType::Raw);
    assert_eq!(pdos[0].entries[0].name, "");
    assert_eq!(pdos[0].info.name, "");
    assert_eq!(pdos[0].entries[0].offset.byte, 0);
    assert_eq!(pdos[1].entries[1].offset.byte, 4);
    assert_eq!(pdos[1].entries[1].offset.bit, 1);
}

#[test]
fn unknown_sync_manager_type_is_fatal() {
    let od: SlaveOd = vec![];
    let mut resolver = PdoResolver::new();
    resolver.step(&od, &[4]).unwrap();
    // sync manager 2 reports an unknown communication type
    assert_eq!(resolver.step(&od, &[9]), Err(Error::InvalidSmType));
}

#[test]
fn mailbox_read_type_on_sync_manager_two_is_skipped() {
    let od: SlaveOd = vec![];
    let mut resolver = PdoResolver::new();
    resolver.step(&od, &[3]).unwrap();
    // SM2 claims the mailbox-read type: a known slave bug, skipped
    resolver.step(&od, &[2]).unwrap();
    assert_eq!(resolver.next_request(), ResolveRequest::Finished);
    assert!(resolver.finish().is_empty());
}

#[test]
fn fewer_than_two_sync_manager_types_resolves_empty() {
    let od: SlaveOd = vec![];
    let mut resolver = PdoResolver::new();
    resolver.step(&od, &[2]).unwrap();
    assert_eq!(resolver.next_request(), ResolveRequest::Finished);
    assert!(resolver.finish().is_empty());
}

#[test]
fn layout_overflow_is_a_typed_error() {
    let od: SlaveOd = vec![];
    let mut resolver = PdoResolver::new();
    // stage the resolver right before an entry whose width cannot be added
    // to the running bit counter any more
    resolver.phase = Phase::EntryDesc;
    resolver.plan = vec![(2, SmType::Outputs)];
    resolver.plan_pos = 0;
    resolver.pdo_cnt = 1;
    resolver.pdo_sub = 1;
    resolver.cur_pdo_idx = 0x1600;
    resolver.entry_cnt = 1;
    resolver.entry_sub = 1;
    resolver.out_bits = usize::MAX;
    let desc = 0x7001_03FFu32.to_le_bytes();
    assert_eq!(resolver.step(&od, &desc), Err(Error::PdoLayoutOverflow));
}
