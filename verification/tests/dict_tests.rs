use ethercat_coe::dict::{
    access_from_u16, build_object, entry_from_raw, find_entry, find_object, Access, OdObjectRaw,
    SdoEntryAccess,
};
use ethercat_coe::error::Error;
use ethercat_coe::master::decode_complete;
use ethercat_coe::types::{DataType, SdoIdx, Value};

#[test]
fn get_access_type_from_u8() {
    assert_eq!(
        access_from_u16(0),
        SdoEntryAccess {
            pre_op: Access::Unknown,
            safe_op: Access::Unknown,
            op: Access::Unknown,
        }
    );
    assert_eq!(
        access_from_u16(0b_0000_0001),
        SdoEntryAccess {
            pre_op: Access::ReadOnly,
            safe_op: Access::Unknown,
            op: Access::Unknown,
        }
    );
    assert_eq!(
        access_from_u16(0b_0000_1001),
        SdoEntryAccess {
            pre_op: Access::ReadWrite,
            safe_op: Access::Unknown,
            op: Access::Unknown,
        }
    );
    assert_eq!(
        access_from_u16(0b_0001_1101),
        SdoEntryAccess {
            pre_op: Access::ReadWrite,
            safe_op: Access::WriteOnly,
            op: Access::ReadOnly,
        }
    );
}

fn sample_object() -> OdObjectRaw {
    OdObjectRaw {
        idx: 0x7001,
        object_code: 7,
        max_sub_idx: 3,
        name: String::from("Drive outputs"),
        // slot 0: the meta count (U8), slot 1: unknown type code, slot 2:
        // zero bit length, slot 3: a real float entry
        data_types: vec![0x0005, 0x0099, 0x0005, 0x0008],
        bit_lengths: vec![8, 16, 0, 32],
        object_access: vec![0x0007, 0x003F, 0x0007, 0x003F],
        descriptions: vec![
            String::from("count"),
            String::from("mystery"),
            String::from("hole"),
            String::from("velocity"),
        ],
    }
}

#[test]
fn entry_from_raw_retains_only_decodable_entries() {
    let e = entry_from_raw(0x0008, 32, 0x0007, String::from("velocity")).unwrap();
    assert_eq!(e.data_type, DataType::F32);
    assert_eq!(e.bit_len, 32);
    assert_eq!(e.description, "velocity");
    // unknown data-type code: retained as empty, never guessed
    assert!(entry_from_raw(0x0099, 16, 0, String::new()).is_none());
    // zero bit length marks a placeholder entry
    assert!(entry_from_raw(0x0005, 0, 0, String::new()).is_none());
}

#[test]
fn build_object_keeps_one_slot_per_subindex() {
    let obj = build_object(4, &sample_object());
    assert_eq!(obj.info.idx, 0x7001);
    assert_eq!(obj.info.pos, 4);
    assert_eq!(obj.info.max_sub_idx, 3);
    assert_eq!(obj.info.object_code, Some(7));
    assert_eq!(obj.info.name, "Drive outputs");
    assert_eq!(obj.entries.len(), 4);
    assert!(obj.entries[0].is_some());
    assert!(obj.entries[1].is_none());
    assert!(obj.entries[2].is_none());
    let e = obj.entries[3].as_ref().unwrap();
    assert_eq!(e.data_type, DataType::F32);
    assert_eq!(e.bit_len, 32);
}

#[test]
fn lookups_find_the_first_match_only() {
    let od = vec![build_object(0, &sample_object())];
    assert!(find_object(&od, 0x7001).is_some());
    assert!(find_object(&od, 0x7002).is_none());
    let e = find_entry(&od, SdoIdx::new(0x7001, 3)).unwrap();
    assert_eq!(e.data_type, DataType::F32);
    // retained-but-not-decodable slots and absent subindices yield nothing
    assert!(find_entry(&od, SdoIdx::new(0x7001, 1)).is_none());
    assert!(find_entry(&od, SdoIdx::new(0x7001, 9)).is_none());
    assert!(find_entry(&od, SdoIdx::new(0x6000, 0)).is_none());
}

#[test]
fn decode_complete_walks_the_layout() {
    let layout: Vec<Option<(usize, DataType)>> = vec![
        Some((1, DataType::U8)),
        None,
        Some((2, DataType::U16)),
        Some((1, DataType::Bool)),
    ];
    let raw: Vec<u8> = vec![3, 0x34, 0x12, 1];
    let values = decode_complete(&layout, &raw).unwrap();
    assert_eq!(
        values,
        vec![
            Some(Value::U8(3)),
            None,
            Some(Value::U16(0x1234)),
            Some(Value::Bool(true)),
        ]
    );
}

#[test]
fn decode_complete_rejects_a_short_buffer() {
    let layout: Vec<Option<(usize, DataType)>> = vec![Some((4, DataType::U32))];
    assert_eq!(
        decode_complete(&layout, &[1, 2, 3]),
        Err(Error::ValueConversion)
    );
}
