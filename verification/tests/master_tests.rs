use ethercat_coe::dict::{build_object, OdObjectRaw, SlaveOd};
use ethercat_coe::error::Error;
use ethercat_coe::master::{
    check_group_index, check_state_result, config_init_error, expected_wkc, pdo_entry_values,
    region_byte_len, slave_al_state, write_state_result, Master,
};
use ethercat_coe::master::decode_complete;
use ethercat_coe::pdo::PdoEntryInfo;
use ethercat_coe::types::{Offset, SmType};
use ethercat_coe::al_status::AlStatus;
use ethercat_coe::pdo::{PdoResolver, ResolveRequest, SlavePdos};
use ethercat_coe::types::{AlState, DataType, PdoEntryIdx, SdoIdx, Value};

fn scenario_od() -> SlaveOd {
    let velocity = OdObjectRaw {
        idx: 0x7001,
        object_code: 7,
        max_sub_idx: 3,
        name: String::from("Outputs"),
        data_types: vec![0x0005, 0x0005, 0x0005, 0x0008],
        bit_lengths: vec![8, 8, 8, 32],
        object_access: vec![7, 7, 7, 0x3F],
        descriptions: vec![
            String::from("count"),
            String::from("pad1"),
            String::from("pad2"),
            String::from("velocity"),
        ],
    };
    let control = OdObjectRaw {
        idx: 0x8010,
        object_code: 7,
        max_sub_idx: 6,
        name: String::from("Control"),
        data_types: vec![0x0005, 0x0005, 0x0001, 0x0005, 0x0005, 0x0005, 0x0001],
        bit_lengths: vec![8, 8, 1, 8, 8, 8, 1],
        object_access: vec![7, 7, 0x3F, 7, 7, 7, 0x3F],
        descriptions: vec![
            String::from("count"),
            String::from("x1"),
            String::from("enable"),
            String::from("x3"),
            String::from("x4"),
            String::from("x5"),
            String::from("trigger"),
        ],
    };
    let mystery = OdObjectRaw {
        idx: 0x9000,
        object_code: 7,
        max_sub_idx: 1,
        name: String::from("Vendor"),
        // subindex 1 reports an unknown data-type code: retained, not
        // decodable
        data_types: vec![0x0005, 0x0099],
        bit_lengths: vec![8, 16],
        object_access: vec![7, 7],
        descriptions: vec![String::from("count"), String::from("odd")],
    };
    let times = OdObjectRaw {
        idx: 0x9001,
        object_code: 7,
        max_sub_idx: 1,
        name: String::from("Times"),
        // a known code the codec has no decoding for
        data_types: vec![0x0005, 0x000C],
        bit_lengths: vec![8, 48],
        object_access: vec![7, 7],
        descriptions: vec![String::from("count"), String::from("tod")],
    };
    vec![
        build_object(0, &velocity),
        build_object(1, &control),
        build_object(2, &mystery),
        build_object(3, &times),
    ]
}

fn scenario_response(idx: u16, sub: u8) -> Vec<u8> {
    match (idx, sub) {
        (0x1C00, 0) => vec![4],
        (0x1C00, 3) => vec![3],
        (0x1C00, 4) => vec![4],
        (0x1C12, 0) => vec![2],
        (0x1C12, 1) => 0x1600u16.to_le_bytes().to_vec(),
        (0x1C12, 2) => 0x1601u16.to_le_bytes().to_vec(),
        (0x1600, 0) => vec![1],
        (0x1600, 1) => 0x7001_0320u32.to_le_bytes().to_vec(),
        (0x1601, 0) => vec![2],
        (0x1601, 1) => 0x8010_0201u32.to_le_bytes().to_vec(),
        (0x1601, 2) => 0x8010_0601u32.to_le_bytes().to_vec(),
        (0x1C13, 0) => vec![0],
        _ => panic!("unexpected read at {idx:#x}:{sub}"),
    }
}

fn resolve(od: &SlaveOd) -> SlavePdos {
    let mut resolver = PdoResolver::new();
    loop {
        match resolver.next_request() {
            ResolveRequest::Read { idx, sub, .. } => {
                resolver.step(od, &scenario_response(idx, sub)).unwrap();
            }
            ResolveRequest::Finished => return resolver.finish(),
        }
    }
}

/// The scenario master: one slave with 5 output bytes and no inputs.
fn scenario_master() -> Master {
    let od = scenario_od();
    let pdos = resolve(&od);
    let mut master = Master::new();
    master.push_slave(od, pdos, 5, 0);
    master
}

#[test]
fn scenario_values_decode_in_assignment_order() {
    let mut master = scenario_master();
    let mut outputs = 7.7f32.to_le_bytes().to_vec();
    outputs.push(0b0000_0010);
    master.load_outputs(0, outputs).unwrap();

    let values = master.pdo_values();
    assert_eq!(values.len(), 1);
    assert_eq!(
        values[0],
        vec![
            (0x1600, vec![Value::F32(7.7f32.to_bits())]),
            (0x1601, vec![Value::Bool(false), Value::Bool(true)]),
        ]
    );
}

#[test]
fn bool_write_touches_exactly_one_bit() {
    let mut master = scenario_master();
    // trigger lives at byte 4, bit 1
    let trigger = PdoEntryIdx::new(0x1601, 2);
    master.set_pdo_value(0, trigger, Value::Bool(true)).unwrap();
    assert_eq!(master.output_image(0).unwrap()[4], 0b0000_0010);
    master.set_pdo_value(0, trigger, Value::Bool(false)).unwrap();
    assert_eq!(master.output_image(0).unwrap()[4], 0b0000_0000);

    // pre-set an unrelated bit: it must survive both writes
    master
        .load_outputs(0, vec![0, 0, 0, 0, 0b0000_0001])
        .unwrap();
    master.set_pdo_value(0, trigger, Value::Bool(true)).unwrap();
    assert_eq!(master.output_image(0).unwrap()[4], 0b0000_0011);
    master.set_pdo_value(0, trigger, Value::Bool(false)).unwrap();
    assert_eq!(master.output_image(0).unwrap()[4], 0b0000_0001);
}

#[test]
fn scalar_write_replaces_exactly_its_span() {
    let mut master = scenario_master();
    master
        .load_outputs(0, vec![0xAA, 0xAA, 0xAA, 0xAA, 0xAA])
        .unwrap();
    let velocity = PdoEntryIdx::new(0x1600, 1);
    master
        .set_pdo_value(0, velocity, Value::F32(1.5f32.to_bits()))
        .unwrap();
    let mut expected = 1.5f32.to_le_bytes().to_vec();
    expected.push(0xAA);
    assert_eq!(master.output_image(0).unwrap(), &expected);
}

#[test]
fn cyclic_write_errors_are_typed() {
    let mut master = scenario_master();
    assert_eq!(
        master.set_pdo_value(9, PdoEntryIdx::new(0x1600, 1), Value::Bool(true)),
        Err(Error::SlaveNotFound(9))
    );
    let absent = PdoEntryIdx::new(0x1700, 1);
    assert_eq!(
        master.set_pdo_value(0, absent, Value::Bool(true)),
        Err(Error::PdoEntryNotFound(absent))
    );
    // a value whose encoding does not fill the entry's span is refused
    assert_eq!(
        master.set_pdo_value(0, PdoEntryIdx::new(0x1600, 1), Value::U16(1)),
        Err(Error::DataSizeMismatch(PdoEntryIdx::new(0x1600, 1)))
    );
    // a value the codec cannot encode is refused holding the value
    assert_eq!(
        master.set_pdo_value(0, PdoEntryIdx::new(0x1600, 1), Value::Bit1(true)),
        Err(Error::UnsuportedValue(Value::Bit1(true)))
    );
}

#[test]
fn dictionary_lookup_misses_are_typed() {
    let master = scenario_master();
    let absent = SdoIdx::new(0x6000, 1);
    assert_eq!(
        master.decode_sdo_value(0, absent, &[0]),
        Err(Error::SubIdxNotFound(0, absent))
    );
    assert_eq!(
        master.sdo_entry_byte_count(0, absent),
        Err(Error::SubIdxNotFound(0, absent))
    );
    assert_eq!(
        master.decode_sdo_value(3, SdoIdx::new(0x7001, 3), &[0; 4]),
        Err(Error::SubIdxNotFound(3, SdoIdx::new(0x7001, 3)))
    );
    assert!(matches!(
        master.complete_entry_layout(0, 0x6000),
        Err(Error::IdxNotFound(0, 0x6000))
    ));
}

#[test]
fn retained_undecodable_entries_fail_cleanly() {
    let master = scenario_master();
    // unknown data-type code at discovery: retained with no resolvable
    // type, so a decode attempt cannot name a type to decode with
    let mystery = SdoIdx::new(0x9000, 1);
    assert!(master.cached_sdo_entry(0, mystery).is_none());
    assert_eq!(
        master.decode_sdo_value(0, mystery, &[0, 0]),
        Err(Error::SubIdxNotFound(0, mystery))
    );
    // a known code without a codec decodes to a typed refusal
    let tod = SdoIdx::new(0x9001, 1);
    assert!(master.cached_sdo_entry(0, tod).is_some());
    assert_eq!(
        master.decode_sdo_value(0, tod, &[0; 6]),
        Err(Error::UnsuportedDataType(DataType::TimeOfDay))
    );
}

#[test]
fn sdo_reads_decode_with_the_discovered_type() {
    let master = scenario_master();
    let velocity = SdoIdx::new(0x7001, 3);
    assert_eq!(master.sdo_entry_byte_count(0, velocity), Ok(4));
    assert_eq!(
        master.decode_sdo_value(0, velocity, &2.25f32.to_le_bytes()),
        Ok(Value::F32(2.25f32.to_bits()))
    );
}

#[test]
fn complete_layout_mirrors_the_object() {
    let master = scenario_master();
    let layout = master.complete_entry_layout(0, 0x8010).unwrap();
    assert_eq!(
        layout,
        vec![
            Some((1, DataType::U8)),
            Some((1, DataType::U8)),
            Some((1, DataType::Bool)),
            Some((1, DataType::U8)),
            Some((1, DataType::U8)),
            Some((1, DataType::U8)),
            Some((1, DataType::Bool)),
        ]
    );
}

#[test]
fn engine_result_decisions() {
    assert_eq!(config_init_error(-1), Error::NoFrame);
    assert_eq!(config_init_error(-2), Error::OtherFrame);
    assert_eq!(config_init_error(0), Error::NoSlaves);

    assert_eq!(expected_wkc(3, 2), Some(8));
    assert_eq!(expected_wkc(usize::MAX, 0), None);

    assert_eq!(write_state_result(-1), Err(Error::NoFrame));
    assert_eq!(write_state_result(0), Err(Error::SetState));
    assert_eq!(write_state_result(1), Ok(()));

    assert_eq!(check_state_result(0), Err(Error::CheckState));
    assert_eq!(check_state_result(8), Ok(AlState::Op));
    assert_eq!(check_state_result(5), Err(Error::CheckState));

    assert_eq!(slave_al_state(4, 0), Ok(AlState::SafeOp));
    assert_eq!(
        slave_al_state(5, 0x0011),
        Err(Error::AlState(AlStatus::InvalidRequestedStateChange))
    );

    assert_eq!(check_group_index(0, 2, 2), Ok(()));
    assert_eq!(check_group_index(2, 2, 2), Err(Error::GroupId));
    assert_eq!(check_group_index(1, 2, 1), Err(Error::GroupId));

    assert_eq!(region_byte_len(0, 3), 1);
    assert_eq!(region_byte_len(0, 0), 0);
    assert_eq!(region_byte_len(4, 35), 4);
}

fn entry(byte: usize, bit: u8, bit_len: usize, dt: DataType, sm: SmType) -> PdoEntryInfo {
    PdoEntryInfo {
        idx: PdoEntryIdx::new(0x1600, 1),
        pos: 0,
        data_type: dt,
        offset: Offset { byte, bit },
        bit_len,
        name: String::new(),
        sm,
        sdo: SdoIdx::new(0x7000, 1),
    }
}

#[test]
fn undecodable_entries_are_skipped_not_fatal() {
    let entries = vec![
        entry(0, 0, 8, DataType::U8, SmType::Outputs),
        // a type without a codec: skipped, the rest still decodes
        entry(1, 0, 48, DataType::TimeOfDay, SmType::Outputs),
        // a span beyond the region: skipped as well
        entry(90, 0, 8, DataType::U8, SmType::Outputs),
        entry(7, 0, 8, DataType::U8, SmType::Inputs),
    ];
    let outputs = vec![0xAB; 8];
    let inputs = vec![0xCD; 8];
    let values = pdo_entry_values(&entries, &outputs, &inputs);
    assert_eq!(values, vec![Value::U8(0xAB), Value::U8(0xCD)]);
}

#[test]
fn complete_decode_propagates_codec_errors() {
    let layout: Vec<Option<(usize, DataType)>> = vec![
        Some((1, DataType::U8)),
        Some((2, DataType::U16Array)),
    ];
    assert_eq!(
        decode_complete(&layout, &[1, 2, 3]),
        Err(Error::UnsuportedDataType(DataType::U16Array))
    );
}

#[test]
fn images_are_per_slave() {
    let mut master = scenario_master();
    assert_eq!(master.slave_count(), 1);
    assert_eq!(master.output_image(0).unwrap().len(), 5);
    assert_eq!(master.input_image(0).unwrap().len(), 0);
    assert!(master.output_image(1).is_none());
    assert_eq!(
        master.load_inputs(1, vec![1]),
        Err(Error::SlaveNotFound(1))
    );
    master.load_inputs(0, vec![9]).unwrap();
    assert_eq!(master.input_image(0).unwrap(), &vec![9u8]);
}
