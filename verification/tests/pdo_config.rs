use hex_motor::canopen::rpdo_config::{build_rpdo_config_writes, RpdoRecipe};
use hex_motor::canopen::tpdo_config::{
    build_tpdo_config_writes, SdoWrite, TpdoCommParams, TpdoEntry, TpdoRecipe,
};
use hex_motor::number::Real32;
use hex_motor::Error;

fn entry(index: u16, subindex: u8, bit_len: u8) -> TpdoEntry {
    TpdoEntry { index, subindex, bit_len }
}

fn comm(inhibit_time_x100us: u16, event_timer_ms: u16) -> TpdoCommParams {
    TpdoCommParams { transmission_type: 255, inhibit_time_x100us, event_timer_ms }
}

fn recipe(tpdo_index: u8, cob_id: u16, entries: Vec<TpdoEntry>) -> TpdoRecipe {
    TpdoRecipe { tpdo_index, cob_id, entries, comm: comm(0, 0) }
}

fn vel_then_maxtorque() -> Vec<TpdoEntry> {
    vec![entry(0x60FF, 0, 32), entry(0x6072, 0, 16)]
}

fn rpdo(rpdo_index: u8, cob_id: u16) -> RpdoRecipe {
    RpdoRecipe { rpdo_index, cob_id, entries: vel_then_maxtorque(), transmission_type: 255 }
}

#[test]
fn packed_status_word() {
    assert_eq!(entry(0x6041, 0, 16).packed(), 0x6041_0010);
}

#[test]
fn packed_actual_position() {
    assert_eq!(entry(0x6064, 0, 32).packed(), 0x6064_0020);
}

#[test]
fn packed_subindex() {
    assert_eq!(entry(0x2204, 0x02, 16).packed(), 0x2204_0210);
}

#[test]
fn tpdo_config_total_bytes_round_up() {
    let r = TpdoRecipe {
        tpdo_index: 0,
        cob_id: 0x190,
        entries: vec![entry(0x6041, 0, 16), entry(0x6061, 0, 8)],
        comm: comm(5, 20),
    };
    assert_eq!(r.total_bytes(), 3);
}

#[test]
fn tpdo_config_build_writes_full_sequence() {
    let r = TpdoRecipe {
        tpdo_index: 0,
        cob_id: 0x190,
        entries: vec![entry(0x6041, 0, 16), entry(0x6064, 0, 32)],
        comm: comm(5, 20),
    };
    let w = build_tpdo_config_writes(&r).unwrap();
    assert_eq!(w.len(), 9);
    assert_eq!(w[0], SdoWrite::u32(0x1800, 1, 0xC000_0190));
    assert_eq!(w[1], SdoWrite::u8(0x1A00, 0, 0));
    assert_eq!(w[2], SdoWrite::u32(0x1A00, 1, 0x6041_0010));
    assert_eq!(w[3], SdoWrite::u32(0x1A00, 2, 0x6064_0020));
    assert_eq!(w[4], SdoWrite::u8(0x1A00, 0, 2));
    assert_eq!(w[5], SdoWrite::u8(0x1800, 2, 255));
    assert_eq!(w[6], SdoWrite::u16(0x1800, 3, 5));
    assert_eq!(w[7], SdoWrite::u16(0x1800, 5, 20));
    assert_eq!(w[8], SdoWrite::u32(0x1800, 1, 0x4000_0190));
}

#[test]
fn build_writes_tpdo2() {
    let r = TpdoRecipe {
        tpdo_index: 1,
        cob_id: 0x290,
        entries: vec![entry(0x6041, 0, 16)],
        comm: comm(190, 20),
    };
    let w = build_tpdo_config_writes(&r).unwrap();
    assert_eq!(w.len(), 8);
    assert_eq!(w[0].index, 0x1801);
    assert_eq!(w[1].index, 0x1A01);
}

#[test]
fn validate_empty_entries() {
    assert!(recipe(0, 0x190, vec![]).validate().is_err());
}

#[test]
fn validate_bad_tpdo_index() {
    assert!(recipe(4, 0x190, vec![entry(0x6041, 0, 16)]).validate().is_err());
}

#[test]
fn validate_oversize_payload() {
    assert!(recipe(0, 0x190, vec![entry(0x6041, 0, 64); 9]).validate().is_err());
}

#[test]
fn tpdo_config_validate_bad_cob_id() {
    let r = recipe(0, 0x800, vec![entry(0x6041, 0, 16)]);
    assert!(matches!(r.validate(), Err(Error::InvalidCobId { .. })));
}

#[test]
fn rpdo_config_build_writes_full_sequence() {
    let w = build_rpdo_config_writes(&rpdo(0, 0x210)).unwrap();
    assert_eq!(w.len(), 7);
    assert_eq!(w[0], SdoWrite::u32(0x1400, 1, 0x8000_0210));
    assert_eq!(w[1], SdoWrite::u8(0x1400, 2, 255));
    assert_eq!(w[2], SdoWrite::u8(0x1600, 0, 0));
    assert_eq!(w[3], SdoWrite::u32(0x1600, 1, 0x60FF_0020));
    assert_eq!(w[4], SdoWrite::u32(0x1600, 2, 0x6072_0010));
    assert_eq!(w[5], SdoWrite::u8(0x1600, 0, 2));
    assert_eq!(w[6], SdoWrite::u32(0x1400, 1, 0x0000_0210));
}

#[test]
fn rpdo_config_total_bytes_round_up() {
    assert_eq!(rpdo(0, 0x210).total_bytes(), 6);
}

#[test]
fn validate_bad_rpdo_index() {
    assert!(rpdo(4, 0x210).validate().is_err());
}

#[test]
fn rpdo_config_validate_bad_cob_id() {
    assert!(matches!(rpdo(0, 0x800).validate(), Err(Error::InvalidCobId { .. })));
}

#[test]
fn refusals_say_what_is_wrong() {
    let one = || vec![entry(0x6041, 0, 16)];
    assert_eq!(
        recipe(4, 0x190, vec![]).validate(),
        Err(Error::Internal("invalid tpdo_index 4, must be 0..=3".to_string()))
    );
    assert_eq!(
        recipe(0, 0x800, vec![]).validate(),
        Err(Error::Internal("TpdoRecipe has no entries".to_string()))
    );
    assert_eq!(
        recipe(0, 0x190, vec![entry(0x6041, 0, 1); 65]).validate(),
        Err(Error::Internal("too many entries: 65, max 64".to_string()))
    );
    assert_eq!(
        recipe(0, 0x190, vec![entry(0x6041, 0, 64); 9]).validate(),
        Err(Error::Internal(
            "TpdoRecipe total 576 bits > 512 (CAN-FD max payload)".to_string()
        ))
    );
    assert_eq!(
        recipe(0, 0x800, one()).validate(),
        Err(Error::InvalidCobId { cob_id: 0x800, reason: "exceeds 11-bit range" })
    );
    assert_eq!(recipe(3, 0x7FF, one()).validate(), Ok(()));
    assert_eq!(
        rpdo(7, 0x210).validate(),
        Err(Error::Internal("invalid rpdo_index 7, must be 0..=3".to_string()))
    );
    let empty = RpdoRecipe { rpdo_index: 0, cob_id: 1, entries: vec![], transmission_type: 0 };
    assert_eq!(
        empty.validate(),
        Err(Error::Internal("RpdoRecipe has no entries".to_string()))
    );
    let wide = RpdoRecipe {
        rpdo_index: 0,
        cob_id: 1,
        entries: vec![entry(0x6041, 0, 255); 3],
        transmission_type: 0,
    };
    assert_eq!(
        wide.validate(),
        Err(Error::Internal(
            "RpdoRecipe total 765 bits > 512 (CAN-FD max payload)".to_string()
        ))
    );
    assert!(build_rpdo_config_writes(&wide).is_err());
    assert!(build_tpdo_config_writes(&recipe(4, 0, one())).is_err());
}

#[test]
fn numbers_are_written_little_endian() {
    assert_eq!(SdoWrite::u8(1, 2, 0xAB).data, vec![0xAB]);
    assert_eq!(SdoWrite::u16(1, 2, 0x1234).data, vec![0x34, 0x12]);
    assert_eq!(SdoWrite::u32(1, 2, 0x1234_5678).data, vec![0x78, 0x56, 0x34, 0x12]);
    assert_eq!(SdoWrite::i8(1, 2, -2).data, vec![0xFE]);
    assert_eq!(SdoWrite::i16(1, 2, -2).data, (-2i16).to_le_bytes().to_vec());
    assert_eq!(SdoWrite::i16(1, 2, i16::MIN).data, i16::MIN.to_le_bytes().to_vec());
    assert_eq!(SdoWrite::i32(1, 2, -123_456).data, (-123_456i32).to_le_bytes().to_vec());
    let w = SdoWrite::real32(0x60FF, 0, Real32::from_bits(1.5f32.to_bits()));
    assert_eq!(w.data, 1.5f32.to_le_bytes().to_vec());
    assert_eq!((w.index, w.subindex), (0x60FF, 0));
    assert_eq!(w.clone(), w);
}

#[test]
fn the_pdo_stays_off_until_the_last_write() {
    let r = recipe(2, 0x3A1, vec![entry(0x6041, 0, 16), entry(0x6064, 0, 32)]);
    let w = build_tpdo_config_writes(&r).unwrap();
    let switches: Vec<u32> = w
        .iter()
        .filter(|w| w.index == 0x1802 && w.subindex == 1)
        .map(|w| u32::from_le_bytes([w.data[0], w.data[1], w.data[2], w.data[3]]))
        .collect();
    assert_eq!(switches, vec![0xC000_03A1, 0x4000_03A1]);
    assert_eq!(w[0].index, 0x1802);
    assert_eq!(w[w.len() - 1].subindex, 1);
}
