use ethercat_coe::al_status::AlStatus;
use ethercat_coe::context::{err_type_from_u32, EcError, ErrType};
use ethercat_coe::types::{
    al_state_from_u8, al_state_to_u8, data_type_from_u16, sm_type_from_u8, AlState, SmType,
};
use num_traits::FromPrimitive;
use std::convert::TryFrom;

#[test]
fn data_type_codes_match_the_published_table() {
    // hold the whole table against the published CoE type codes
    for code in 0u16..=0xFFFF {
        let ours = data_type_from_u16(code);
        let published = ethercat_types::DataType::from_u16(code);
        match (ours, published) {
            (Some(a), Some(b)) => assert_eq!(
                format!("{a:?}"),
                format!("{b:?}"),
                "type code {code:#06x} decodes differently"
            ),
            (None, None) => {}
            (a, b) => panic!("type code {code:#06x}: {a:?} vs {b:?}"),
        }
    }
}

#[test]
fn sm_type_codes_match_the_published_table() {
    for code in 0u8..=255 {
        let ours = sm_type_from_u8(code);
        let published = ethercat_types::SmType::try_from(code).ok();
        match (ours, published) {
            (Some(a), Some(b)) => assert_eq!(format!("{a:?}"), format!("{b:?}")),
            (None, None) => {}
            (a, b) => panic!("sm type code {code}: {a:?} vs {b:?}"),
        }
    }
}

#[test]
fn al_state_codes_match_the_published_table() {
    for code in 0u8..=255 {
        let ours = al_state_from_u8(code);
        let published = ethercat_types::AlState::try_from(code).ok();
        match (ours, published) {
            (Some(a), Some(b)) => assert_eq!(format!("{a:?}"), format!("{b:?}")),
            (None, None) => {}
            (a, b) => panic!("al state code {code}: {a:?} vs {b:?}"),
        }
    }
}

#[test]
fn al_state_round_trips_through_its_code() {
    for s in [
        AlState::Boot,
        AlState::Init,
        AlState::PreOp,
        AlState::SafeOp,
        AlState::Op,
    ] {
        assert_eq!(al_state_from_u8(al_state_to_u8(s)), Some(s));
    }
}

#[test]
fn sm_type_decoding() {
    assert_eq!(sm_type_from_u8(0), Some(SmType::Unused));
    assert_eq!(sm_type_from_u8(1), Some(SmType::MbxWr));
    assert_eq!(sm_type_from_u8(2), Some(SmType::MbxRd));
    assert_eq!(sm_type_from_u8(3), Some(SmType::Outputs));
    assert_eq!(sm_type_from_u8(4), Some(SmType::Inputs));
    assert_eq!(sm_type_from_u8(5), None);
}

#[test]
fn al_status_codes() {
    assert_eq!(AlStatus::from_u16(0x0000), AlStatus::NoError);
    assert_eq!(AlStatus::from_u16(0x0011), AlStatus::InvalidRequestedStateChange);
    assert_eq!(AlStatus::from_u16(0x001B), AlStatus::SyncManagerWatchdog);
    assert_eq!(AlStatus::from_u16(0x0050), AlStatus::EepromNoAccess);
    assert_eq!(AlStatus::from_u16(0x1234), AlStatus::Unknown);
}

#[test]
fn engine_error_records() {
    let e = EcError::new(3, 3, String::from("data container too small for type"));
    assert_eq!(e.e_type, ErrType::Packet);
    assert_eq!(e.code, 3);
    assert_eq!(err_type_from_u32(9), ErrType::Mbx);
    assert_eq!(err_type_from_u32(0), ErrType::Sdo);
    assert_eq!(ErrType::Unknown(77), ErrType::Unknown(77));
}
