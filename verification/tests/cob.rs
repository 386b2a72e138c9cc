use hex_motor::canopen::cob::{
    is_reserved_extended_cob_id, is_reserved_standard_cob_id, parse_cob_id, CommunicationObject,
};
use hex_motor::Error;

#[test]
fn cob_id_tpdo1_node10() {
    assert_eq!(CommunicationObject::Tpdo1.cob_id(0x10).unwrap(), 0x190);
}

#[test]
fn cob_id_heartbeat_node1() {
    assert_eq!(CommunicationObject::Heartbeat.cob_id(0x01).unwrap(), 0x701);
}

#[test]
fn cob_id_rsdo_node127() {
    assert_eq!(CommunicationObject::Rsdo.cob_id(0x7F).unwrap(), 0x67F);
}

#[test]
fn cob_id_nmt_ignores_node() {
    assert_eq!(CommunicationObject::Nmt.cob_id(0).unwrap(), 0x000);
}

#[test]
fn cob_id_rejects_zero_node() {
    assert!(matches!(
        CommunicationObject::Tpdo1.cob_id(0),
        Err(Error::InvalidNodeId(0))
    ));
}

#[test]
fn cob_id_rejects_node_over_127() {
    assert!(matches!(
        CommunicationObject::Tpdo1.cob_id(128),
        Err(Error::InvalidNodeId(128))
    ));
}

#[test]
fn parse_heartbeat() {
    assert_eq!(parse_cob_id(0x710), Some((CommunicationObject::Heartbeat, 0x10)));
}

#[test]
fn parse_tpdo1() {
    assert_eq!(parse_cob_id(0x190), Some((CommunicationObject::Tpdo1, 0x10)));
}

#[test]
fn parse_sync() {
    assert_eq!(parse_cob_id(0x080), Some((CommunicationObject::Sync, 0)));
}

#[test]
fn parse_emergency() {
    assert_eq!(parse_cob_id(0x081), Some((CommunicationObject::Emergency, 1)));
}

#[test]
fn parse_invalid() {
    assert_eq!(parse_cob_id(0x150), None);
}

#[test]
fn reserved_standard_covers_all_canopen_objects() {
    assert!(is_reserved_standard_cob_id(0x701));
    assert!(is_reserved_standard_cob_id(0x77F));
    assert!(is_reserved_standard_cob_id(0x181));
    assert!(is_reserved_standard_cob_id(0x1FF));
    assert!(is_reserved_standard_cob_id(0x581));
    assert!(is_reserved_standard_cob_id(0x67F));
    assert!(is_reserved_standard_cob_id(0x000));
    assert!(is_reserved_standard_cob_id(0x080));
    assert!(is_reserved_standard_cob_id(0x100));
    assert!(is_reserved_standard_cob_id(0x7E5));
}

#[test]
fn reserved_standard_allows_safe_ids() {
    assert!(!is_reserved_standard_cob_id(0x101));
    assert!(!is_reserved_standard_cob_id(0x17F));
    assert!(!is_reserved_standard_cob_id(0x180));
    assert!(!is_reserved_standard_cob_id(0x200));
    assert!(!is_reserved_standard_cob_id(0x280));
    assert!(!is_reserved_standard_cob_id(0x300));
    assert!(!is_reserved_standard_cob_id(0x380));
    assert!(!is_reserved_standard_cob_id(0x400));
    assert!(!is_reserved_standard_cob_id(0x480));
    assert!(!is_reserved_standard_cob_id(0x500));
    assert!(!is_reserved_standard_cob_id(0x580));
    assert!(!is_reserved_standard_cob_id(0x600));
    assert!(!is_reserved_standard_cob_id(0x700));
}

#[test]
fn reserved_standard_includes_lss_range() {
    assert!(is_reserved_standard_cob_id(0x680));
    assert!(is_reserved_standard_cob_id(0x6FF));
    assert!(is_reserved_standard_cob_id(0x780));
    assert!(is_reserved_standard_cob_id(0x7FF));
}

#[test]
fn reserved_extended_known() {
    assert!(is_reserved_extended_cob_id(0x09));
    assert!(is_reserved_extended_cob_id(0xA9));
    assert!(is_reserved_extended_cob_id(0xAA));
    assert!(is_reserved_extended_cob_id(0xFE00));
    assert!(is_reserved_extended_cob_id(0xFEFF));
    assert!(!is_reserved_extended_cob_id(0xAB));
    assert!(!is_reserved_extended_cob_id(0xFDFF));
}

#[test]
fn every_object_has_its_function_code() {
    let codes = [
        (CommunicationObject::Nmt, 0x000),
        (CommunicationObject::Sync, 0x080),
        (CommunicationObject::Emergency, 0x080),
        (CommunicationObject::Time, 0x100),
        (CommunicationObject::Tpdo1, 0x180),
        (CommunicationObject::Rpdo1, 0x200),
        (CommunicationObject::Tpdo2, 0x280),
        (CommunicationObject::Rpdo2, 0x300),
        (CommunicationObject::Tpdo3, 0x380),
        (CommunicationObject::Rpdo3, 0x400),
        (CommunicationObject::Tpdo4, 0x480),
        (CommunicationObject::Rpdo4, 0x500),
        (CommunicationObject::Tsdo, 0x580),
        (CommunicationObject::Rsdo, 0x600),
        (CommunicationObject::Heartbeat, 0x700),
    ];
    for (object, code) in codes {
        assert_eq!(object.function_code(), code);
    }
}

#[test]
fn eleven_bit_ids_survive_parsing_and_encoding() {
    for cob_id in 0..0x800u16 {
        if let Some((object, nid)) = parse_cob_id(cob_id) {
            assert_eq!(object.cob_id(nid).unwrap(), cob_id);
            assert!(is_reserved_standard_cob_id(cob_id));
        }
    }
}

#[test]
fn higher_bits_are_ignored_except_for_objects_without_a_node() {
    assert_eq!(parse_cob_id(0x800 + 0x190), Some((CommunicationObject::Tpdo1, 0x10)));
    assert_eq!(parse_cob_id(0x880), None);
    assert_eq!(parse_cob_id(0x800), None);
    assert!(!is_reserved_standard_cob_id(0x800 + 0x190));
}
