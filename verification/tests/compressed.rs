use hex_motor::canopen::tpdo_config::SdoWrite;
use hex_motor::cia402::compressed_mit::{
    configure, pack_shared_frame, placeholder, rpdo_entries, CompressedMitMapping,
    CompressedMitTarget, FixedMitTarget, DEFAULT_SHARED_COB_ID, OD_MIT_COMPRESSED, SUB_LOWER,
    SUB_UPPER,
};
use hex_motor::number::Real32;
use hex_motor::Error;

fn fixed(x: Real32, min: Real32, max: Real32, bits: u32) -> u32 {
    let f = |r: Real32| f32::from_bits(r.bits);
    let x = f(x).clamp(f(min), f(max));
    let span = f(max) - f(min);
    let scale = ((1u32 << bits) - 1) as f32;
    ((x - f(min)) * scale / span) as u32
}

fn quantize(t: &CompressedMitTarget, m: &CompressedMitMapping) -> FixedMitTarget {
    FixedMitTarget {
        position: fixed(t.position, m.position_min, m.position_max, 16),
        velocity: fixed(t.velocity, m.velocity_min, m.velocity_max, 12),
        torque: fixed(t.torque, m.torque_min, m.torque_max, 12),
        kp: fixed(t.kp, m.kp_min, m.kp_max, 12),
        kd: fixed(t.kd, m.kd_min, m.kd_max, 12),
    }
}

fn zero() -> FixedMitTarget {
    quantize(&CompressedMitTarget::zero(), &CompressedMitMapping::default())
}

#[test]
fn pack_matches_reference_layout() {
    let t = FixedMitTarget { position: 0x1234, velocity: 0x567, torque: 0xEF0, kp: 0x89A, kd: 0xBCD };
    let (lower, upper) = t.words();
    assert_eq!(lower, 0x9ABC_DEF0);
    assert_eq!(upper, 0x1234_5678);
}

#[test]
fn packed_bytes_of_the_layout() {
    let t = FixedMitTarget { position: 0x1234, velocity: 0x567, torque: 0xEF0, kp: 0x89A, kd: 0xBCD };
    assert_eq!(t.to_le_bytes(), vec![0xF0, 0xDE, 0xBC, 0x9A, 0x78, 0x56, 0x34, 0x12]);
}

#[test]
fn zero_target_is_near_zero() {
    let b = zero().to_le_bytes();
    assert_eq!(b.len(), 8);
    let upper = u32::from_le_bytes([b[4], b[5], b[6], b[7]]);
    assert_eq!(upper & 0xF, 0, "kp high nibble should be 0 for kp=0");
}

#[test]
fn shared_frame_len() {
    assert_eq!(pack_shared_frame(&vec![zero(); 6]).len(), 48);
}

#[test]
fn rpdo_entries_layout() {
    let e = rpdo_entries(2, 6);
    assert_eq!(e.len(), 12);
    assert_eq!(e[4].index, OD_MIT_COMPRESSED);
    assert_eq!(e[4].subindex, SUB_LOWER);
    assert_eq!(e[5].subindex, SUB_UPPER);
    assert_eq!(e[0], placeholder());
}

#[test]
fn each_slot_holds_its_target() {
    let targets: Vec<FixedMitTarget> = (0..8)
        .map(|i| FixedMitTarget {
            position: 0x1000 + i,
            velocity: 0x100 + i,
            torque: 0x200 + i,
            kp: 0x300 + i,
            kd: 0x400 + i,
        })
        .collect();
    let data = pack_shared_frame(&targets);
    assert_eq!(data.len(), 64);
    for (i, t) in targets.iter().enumerate() {
        assert_eq!(data[8 * i..8 * i + 8].to_vec(), t.to_le_bytes());
        let lower = u32::from_le_bytes([data[8 * i], data[8 * i + 1], data[8 * i + 2], data[8 * i + 3]]);
        assert_eq!(lower & 0xFFF, t.torque);
        assert_eq!(lower >> 12 & 0xFFF, t.kd);
    }
    assert!(pack_shared_frame(&Vec::new()).is_empty());
}

#[test]
fn configuration_in_order() {
    let m = CompressedMitMapping::default();
    let plan = configure(0, 1, DEFAULT_SHARED_COB_ID, &m, &zero(), 500, 300);
    assert_eq!(plan.refusal, None);
    let (lower, upper) = zero().words();
    let r32 = |i: u8, v: f32| SdoWrite {
        index: 0x2004,
        subindex: i,
        data: v.to_le_bytes().to_vec(),
    };
    assert_eq!(
        plan.writes,
        vec![
            SdoWrite::u16(0x6072, 0, 500),
            SdoWrite::u16(0x2004, 0x0E, 300),
            r32(0x04, -0.5),
            r32(0x05, 0.5),
            r32(0x06, -10.0),
            r32(0x07, 10.0),
            r32(0x08, 0.0),
            r32(0x09, 100.0),
            r32(0x0A, 0.0),
            r32(0x0B, 20.0),
            r32(0x0C, -10.0),
            r32(0x0D, 10.0),
            SdoWrite::u32(0x2004, 2, lower),
            SdoWrite::u32(0x2004, 3, upper),
            SdoWrite::u8(0x2004, 1, 1),
            SdoWrite::u8(0x2040, 0, 1),
            SdoWrite::u32(0x1400, 1, 0x8000_0190),
            SdoWrite::u8(0x1400, 2, 255),
            SdoWrite::u8(0x1600, 0, 0),
            SdoWrite::u32(0x1600, 1, 0x2004_0220),
            SdoWrite::u32(0x1600, 2, 0x2004_0320),
            SdoWrite::u8(0x1600, 0, 2),
            SdoWrite::u32(0x1400, 1, 0x190),
            SdoWrite::i8(0x6060, 0, 5),
            SdoWrite::u16(0x6040, 0, 0x0006),
            SdoWrite::u16(0x6040, 0, 0x0007),
            SdoWrite::u16(0x6040, 0, 0x000F),
        ]
    );
}

#[test]
fn too_many_motors_are_refused_after_the_ranges() {
    let m = CompressedMitMapping::default();
    for (total, text) in [
        (0, "RpdoRecipe has no entries".to_string()),
        (9, "RpdoRecipe total 576 bits > 512 (CAN-FD max payload)".to_string()),
        (33, "too many entries: 66, max 64".to_string()),
    ] {
        let plan = configure(0, total, 0x190, &m, &zero(), 0, 0);
        assert_eq!(plan.writes.len(), 16);
        assert_eq!(plan.refusal, Some(Error::Internal(text)));
    }
    let plan = configure(7, 8, 0x800, &m, &zero(), 0, 0);
    assert_eq!(
        plan.refusal,
        Some(Error::InvalidCobId { cob_id: 0x800, reason: "exceeds 11-bit range" })
    );
    assert_eq!(configure(7, 8, 0x7FF, &m, &zero(), 0, 0).refusal, None);
}
