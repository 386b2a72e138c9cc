use hex_motor::canopen::tpdo_config::SdoWrite;
use hex_motor::cia402::sequences::{
    build_change_node_id_writes, build_clear_error_writes, build_disable_writes,
    build_max_torque_writes, build_position_preset_writes, build_set_mode_writes,
    build_set_target_writes, download_steps, DownloadStep, ScaledTarget, SetTargetContext,
    CW_ENABLE_OPERATION, CW_FAULT_RESET, CW_SHUTDOWN, CW_SWITCH_ON, OD_CONTROL_WORD,
    OD_MODE_OF_OPERATION, OD_TARGET_POSITION, OD_TARGET_TORQUE, OD_TARGET_VELOCITY,
};
use hex_motor::cia402::types::Logic;
use hex_motor::number::Real32;
use hex_motor::time::Duration;
use hex_motor::types::{MotorErrorKind, MotorMode, MotorTarget};
use hex_motor::{Error, Result};

fn r32(x: f32) -> Real32 {
    Real32::from_bits(x.to_bits())
}

fn word(w: &SdoWrite) -> u16 {
    u16::from_le_bytes([w.data[0], w.data[1]])
}

fn float(w: &SdoWrite) -> f32 {
    f32::from_le_bytes([w.data[0], w.data[1], w.data[2], w.data[3]])
}

fn cw_writes_only(writes: &[SdoWrite]) -> Vec<u16> {
    writes.iter().filter(|w| w.index == OD_CONTROL_WORD).map(word).collect()
}

fn ctx(mode: Option<MotorMode>, peak: Option<f32>, factor: Option<f32>) -> SetTargetContext {
    SetTargetContext {
        current_mode: mode,
        peak_torque_nm: peak.map(r32),
        mit_kp_kd_factor: factor.map(r32),
    }
}

/// Forms the quotients in floating point, as a caller does.
fn target_writes(target: MotorTarget, ctx: SetTargetContext) -> Result<Vec<SdoWrite>> {
    let f = |r: Real32| f32::from_bits(r.bits);
    let mut scaled = ScaledTarget { permille: 0, kp: 0, kd: 0 };
    let mut text = String::new();
    match target {
        MotorTarget::Torque { nm } => {
            if let Some(peak) = ctx.peak_torque_nm {
                scaled.permille = (f(nm) / f(peak) * 1000.0).round() as i32;
                text = format!("{}", f(peak));
            }
        }
        MotorTarget::Mit { kp, kd, .. } => {
            if let Some(factor) = ctx.mit_kp_kd_factor {
                scaled.kp = (f(kp) / f(factor)).round() as i32;
                scaled.kd = (f(kd) / f(factor)).round() as i32;
                text = format!("{}", f(factor));
            }
        }
        _ => {}
    }
    build_set_target_writes(&target, ctx, scaled, &text)
}

fn mit(kp: f32, kd: f32) -> MotorTarget {
    MotorTarget::Mit { pos: r32(0.1), vel: r32(0.2), tor: r32(0.3), kp: r32(kp), kd: r32(kd) }
}

#[test]
fn set_mode_default_ramp_no_fault_reset() {
    let w = build_set_mode_writes(MotorMode::ProfileVelocity, None);
    assert_eq!(w.len(), 5);
    assert_eq!(
        cw_writes_only(&w),
        vec![CW_SHUTDOWN, CW_SHUTDOWN, CW_SWITCH_ON, CW_ENABLE_OPERATION]
    );
    let mode_w = &w[1];
    assert_eq!(mode_w.index, OD_MODE_OF_OPERATION);
    assert_eq!(mode_w.data, vec![3u8]);
}

#[test]
fn set_mode_prepends_fault_reset_when_in_error() {
    let logic = Logic::Error { kind: MotorErrorKind::OverCurrent, raw_code: 0x2310 };
    let w = build_set_mode_writes(MotorMode::Mit, Some(&logic));
    assert_eq!(w.len(), 6);
    assert_eq!(word(&w[0]), CW_FAULT_RESET);
    assert_eq!(w[2].index, OD_MODE_OF_OPERATION);
    assert_eq!(w[2].data, vec![5u8]);
}

#[test]
fn set_mode_for_each_mode_writes_correct_code() {
    for (m, code) in [
        (MotorMode::ProfilePosition, 1u8),
        (MotorMode::ProfileVelocity, 3),
        (MotorMode::Torque, 4),
        (MotorMode::Mit, 5),
    ] {
        let w = build_set_mode_writes(m, None);
        let mode_w = w.iter().find(|w| w.index == OD_MODE_OF_OPERATION).unwrap();
        assert_eq!(mode_w.data[0], code, "mode {m:?}");
    }
}

#[test]
fn set_mode_in_other_states_needs_no_reset() {
    for logic in [Logic::Disabled, Logic::Enabled(MotorMode::Torque)] {
        assert_eq!(build_set_mode_writes(MotorMode::Mit, Some(&logic)).len(), 5);
    }
}

#[test]
fn disable_is_single_shutdown() {
    let w = build_disable_writes();
    assert_eq!(w.len(), 1);
    assert_eq!(w[0].index, OD_CONTROL_WORD);
    assert_eq!(word(&w[0]), CW_SHUTDOWN);
}

#[test]
fn clear_error_is_single_fault_reset() {
    let w = build_clear_error_writes();
    assert_eq!(w.len(), 1);
    assert_eq!(word(&w[0]), CW_FAULT_RESET);
}

#[test]
fn target_disable_works_in_any_mode() {
    assert!(target_writes(MotorTarget::Disable, SetTargetContext::default()).is_ok());
    let pv = ctx(Some(MotorMode::ProfileVelocity), None, None);
    assert!(target_writes(MotorTarget::Disable, pv).is_ok());
}

#[test]
fn target_velocity_in_pv_mode_writes_60ff_f32() {
    let pv = ctx(Some(MotorMode::ProfileVelocity), None, None);
    let w = target_writes(MotorTarget::Velocity { rev_per_s: r32(1.5) }, pv).unwrap();
    assert_eq!(w.len(), 1);
    assert_eq!(w[0].index, OD_TARGET_VELOCITY);
    assert_eq!(w[0].subindex, 0);
    assert_eq!(w[0].data.len(), 4);
    assert!((float(&w[0]) - 1.5).abs() < f32::EPSILON);
}

#[test]
fn target_velocity_without_known_mode_errs() {
    let r = target_writes(
        MotorTarget::Velocity { rev_per_s: r32(1.0) },
        SetTargetContext::default(),
    );
    assert!(matches!(r, Err(Error::Internal(_))));
}

#[test]
fn target_velocity_in_wrong_mode_errs() {
    let r = target_writes(
        MotorTarget::Velocity { rev_per_s: r32(1.0) },
        ctx(Some(MotorMode::Torque), None, None),
    );
    assert!(matches!(r, Err(Error::TargetModeMismatch { .. })));
}

#[test]
fn target_position_in_pp_mode_emits_csi_handshake() {
    let w = target_writes(
        MotorTarget::Position { rev: r32(0.25) },
        ctx(Some(MotorMode::ProfilePosition), None, None),
    )
    .unwrap();
    assert_eq!(w.len(), 3);
    assert_eq!(w[0].index, OD_CONTROL_WORD);
    assert_eq!(word(&w[0]), 0x002F);
    assert_eq!(w[1].index, OD_TARGET_POSITION);
    assert!((float(&w[1]) - 0.25).abs() < f32::EPSILON);
    assert_eq!(w[2].index, OD_CONTROL_WORD);
    assert_eq!(word(&w[2]), 0x003F);
}

#[test]
fn target_position_in_wrong_mode_errs() {
    let r = target_writes(
        MotorTarget::Position { rev: r32(0.5) },
        ctx(Some(MotorMode::ProfileVelocity), None, None),
    );
    assert!(matches!(r, Err(Error::TargetModeMismatch { .. })));
}

#[test]
fn target_torque_converts_nm_to_permille_of_peak() {
    let w = target_writes(
        MotorTarget::Torque { nm: r32(1.0) },
        ctx(Some(MotorMode::Torque), Some(4.0), None),
    )
    .unwrap();
    assert_eq!(w.len(), 1);
    assert_eq!(w[0].index, OD_TARGET_TORQUE);
    assert_eq!(word(&w[0]) as i16, 250);
}

#[test]
fn target_torque_clamps_to_plus_minus_1000_permille() {
    let c = ctx(Some(MotorMode::Torque), Some(4.0), None);
    let w = target_writes(MotorTarget::Torque { nm: r32(99.0) }, c).unwrap();
    assert_eq!(word(&w[0]) as i16, 1000);

    let w = target_writes(MotorTarget::Torque { nm: r32(-99.0) }, c).unwrap();
    assert_eq!(word(&w[0]) as i16, -1000);
}

#[test]
fn target_torque_without_peak_cached_errs() {
    let r = target_writes(
        MotorTarget::Torque { nm: r32(1.0) },
        ctx(Some(MotorMode::Torque), None, None),
    );
    assert!(matches!(r, Err(Error::Internal(_))));
}

#[test]
fn target_mit_emits_five_writes_with_kp_kd_converted() {
    let w = target_writes(mit(5.0, 0.5), ctx(Some(MotorMode::Mit), None, Some(0.01))).unwrap();
    assert_eq!(w.len(), 5);
    assert_eq!(w[0].index, 0x2003);
    assert_eq!(w[0].subindex, 0x01);
    assert!((float(&w[0]) - 0.1).abs() < 1e-6);
    assert_eq!(w[3].subindex, 0x04);
    assert_eq!(word(&w[3]), 500);
    assert_eq!(w[4].subindex, 0x05);
    assert_eq!(word(&w[4]), 50);
}

#[test]
fn target_mit_clamps_kp_to_10000() {
    let w = target_writes(mit(1e6, 0.0), ctx(Some(MotorMode::Mit), None, Some(0.01))).unwrap();
    assert_eq!(word(&w[3]), 10_000);
}

#[test]
fn target_mit_without_factor_cached_errs() {
    let r = target_writes(mit(1.0, 0.0), ctx(Some(MotorMode::Mit), None, None));
    assert!(matches!(r, Err(Error::Internal(_))));
}

#[test]
fn target_mit_negative_gains_count_as_zero() {
    let w = target_writes(mit(-5.0, -1.0), ctx(Some(MotorMode::Mit), None, Some(0.01))).unwrap();
    assert_eq!((word(&w[3]), word(&w[4])), (0, 0));
}

#[test]
fn target_refusals_in_full() {
    let internal = |t: &str| Err(Error::Internal(t.to_string()));
    let torque = MotorTarget::Torque { nm: r32(1.0) };
    assert_eq!(
        target_writes(torque, SetTargetContext::default()),
        internal("set_target: motor mode unknown (call set_mode first)")
    );
    assert_eq!(
        target_writes(torque, ctx(Some(MotorMode::Mit), None, None)),
        Err(Error::TargetModeMismatch { expected: "Mit".to_string(), given: "Torque" })
    );
    assert_eq!(
        target_writes(torque, ctx(Some(MotorMode::Torque), None, None)),
        internal(
            "set_target(Torque): peak_torque not cached. initialize() must read 0x6076 first; \
             this motor may not expose it."
        )
    );
    assert_eq!(
        target_writes(torque, ctx(Some(MotorMode::Torque), Some(0.0), None)),
        internal("set_target(Torque): cached peak_torque is 0 Nm; cannot convert")
    );
    assert_eq!(
        target_writes(mit(1.0, 1.0), ctx(Some(MotorMode::Mit), None, None)),
        internal(
            "set_target(Mit): mit_kp_kd_factor not cached. initialize() must read 0x2003:07 \
             first; this motor may not expose it."
        )
    );
    assert_eq!(
        target_writes(mit(1.0, 1.0), ctx(Some(MotorMode::Mit), None, Some(f32::INFINITY))),
        internal("set_target(Mit): cached mit_kp_kd_factor is inf; cannot convert")
    );
}

#[test]
fn node_id_is_changed_and_saved() {
    assert_eq!(
        build_change_node_id_writes(0x21),
        Ok(vec![
            SdoWrite::u8(0x2001, 1, 0x21),
            SdoWrite { index: 0x1010, subindex: 1, data: b"save".to_vec() },
        ])
    );
    assert!(build_change_node_id_writes(1).is_ok());
    assert!(build_change_node_id_writes(127).is_ok());
    assert_eq!(
        build_change_node_id_writes(0),
        Err(Error::Internal("new node id must be 1..=127, got 0".to_string()))
    );
    assert_eq!(
        build_change_node_id_writes(200),
        Err(Error::Internal("new node id must be 1..=127, got 200".to_string()))
    );
}

#[test]
fn position_is_preset_with_voltage_off() {
    assert_eq!(
        build_position_preset_writes(r32(0.75)),
        vec![
            SdoWrite::u16(0x6040, 0, 0x0000),
            SdoWrite { index: 0x3001, subindex: 1, data: 0.5f32.to_le_bytes().to_vec() },
            SdoWrite { index: 0x3001, subindex: 2, data: b"pres".to_vec() },
        ]
    );
    assert_eq!(float(&build_position_preset_writes(r32(-0.125))[1]), -0.125);
}

#[test]
fn torque_limit_is_at_most_the_peak() {
    assert_eq!(build_max_torque_writes(300), vec![SdoWrite::u16(0x6072, 0, 300)]);
    assert_eq!(build_max_torque_writes(1001), vec![SdoWrite::u16(0x6072, 0, 1000)]);
}

#[test]
fn writes_are_paced() {
    assert!(download_steps(&Vec::new()).is_empty());
    let one = download_steps(&build_disable_writes());
    assert_eq!(one.len(), 1);
    let writes = build_set_mode_writes(MotorMode::Mit, None);
    let steps = download_steps(&writes);
    assert_eq!(steps.len(), 9);
    for (i, step) in steps.iter().enumerate() {
        match step {
            DownloadStep::Write(w) => assert_eq!(w, &writes[i / 2]),
            DownloadStep::Pause(d) => {
                assert_eq!(i % 2, 1);
                assert_eq!(*d, Duration::from_millis(10));
            }
        }
    }
}
