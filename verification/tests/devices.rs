use hex_motor::cia402::known_devices::{human_friendly_name, known_devices, lookup_known_device};
use hex_motor::cia402::types::{MotorInfo, MotorLifecycle, ReinitReason};
use hex_motor::types::MotorIdentity;

fn identity(vendor: u32, product: u32, name: Option<&str>) -> MotorIdentity {
    MotorIdentity {
        node_id: 0x10,
        vendor_id: vendor,
        product_code: product,
        revision_number: 0,
        serial_number: 0,
        product_name: name.map(|s| s.to_string()),
    }
}

fn motor_info(
    nid: u8,
    identity: Option<MotorIdentity>,
    lifecycle: MotorLifecycle,
    online: bool,
) -> MotorInfo {
    MotorInfo {
        node_id: nid,
        identity,
        lifecycle,
        online,
        logic: None,
        nmt_state: None,
        peak_torque_nm: None,
    }
}

#[test]
fn lookup_hexmeow_wildcard_matches_any_product() {
    let d = lookup_known_device(0x0068_6578, 0x1234_5678).unwrap();
    assert_eq!(d.name, "HexMeow Motor");
    assert_eq!(d.product_code, None);
}

#[test]
fn lookup_hex_series_exact_products() {
    let d = lookup_known_device(0x4859_444C, 0xAAAA_0001).unwrap();
    assert_eq!(d.name, "CiA402 HEX-4310");
    assert_eq!(d.product_code, Some(0xAAAA_0001));

    let d = lookup_known_device(0x4859_444C, 0xAAAA_0002).unwrap();
    assert_eq!(d.name, "CiA402 HEX-4342P");

    let d = lookup_known_device(0x4859_444C, 0xAAAA_0005).unwrap();
    assert_eq!(d.name, "CiA402 HEX-4360P");
}

#[test]
fn lookup_hex_series_falls_back_to_vendor_wildcard() {
    let d = lookup_known_device(0x4859_444C, 0xDEAD_BEEF).unwrap();
    assert_eq!(d.name, "CiA402 HEX Motor (未知型号)");
    assert_eq!(d.product_code, None);
}

#[test]
fn lookup_unknown_vendor_returns_none() {
    assert!(lookup_known_device(0xDEAD_BEEF, 0).is_none());
}

#[test]
fn name_prefers_0x1008_when_present() {
    let id = identity(0x0068_6578, 0xAAAA_0002, Some("Custom Label"));
    assert_eq!(human_friendly_name(&id), "Custom Label");
}

#[test]
fn name_uses_table_when_no_0x1008() {
    let id = identity(0x0068_6578, 0xAAAA_0002, None);
    assert_eq!(human_friendly_name(&id), "HexMeow Motor");
}

#[test]
fn name_ignores_empty_0x1008() {
    let id = identity(0x0068_6578, 0xAAAA_0002, Some(""));
    assert_eq!(human_friendly_name(&id), "HexMeow Motor");
}

#[test]
fn name_ignores_whitespace_only_0x1008() {
    let id = identity(0x0068_6578, 0x9999_9999, Some("   \t\n"));
    assert_eq!(human_friendly_name(&id), "HexMeow Motor");
}

#[test]
fn name_falls_back_to_generic() {
    let id = identity(0xDEAD_BEEF, 0xCAFEBABE, None);
    let n = human_friendly_name(&id);
    assert!(n.contains("Unknown CiA402"));
    assert!(n.contains("0xDEADBEEF"));
    assert!(n.contains("0xCAFEBABE"));
}

#[test]
fn generic_name_in_full() {
    assert_eq!(
        human_friendly_name(&identity(0x12, 0xABC, Some(" "))),
        "Unknown CiA402 device (vendor 0x00000012, product 0x00000ABC)"
    );
}

#[test]
fn own_name_is_trimmed_as_std_does() {
    for name in ["  a b ", "\u{a0}x\u{3000}", "\u{2003}\u{200b}y\u{85}", "\u{1680}", "z"] {
        let id = identity(0xDEAD_BEEF, 1, Some(name));
        let shown = human_friendly_name(&id);
        if name.trim().is_empty() {
            assert!(shown.starts_with("Unknown"));
        } else {
            assert_eq!(shown, name.trim());
        }
    }
}

#[test]
fn table_has_five_lines() {
    assert_eq!(known_devices().len(), 5);
    assert_eq!(MotorIdentity::HEXMEOW_VENDOR_ID, known_devices()[0].vendor_id);
}

#[test]
fn lifecycle_is_ready_only_initialized() {
    assert!(MotorLifecycle::Initialized.is_ready());
    assert!(!MotorLifecycle::Unknown.is_ready());
    assert!(!MotorLifecycle::Identified.is_ready());
    assert!(!MotorLifecycle::Initializing.is_ready());
    assert!(!MotorLifecycle::NeedsReinit { reason: ReinitReason::LeftOperational }.is_ready());
}

#[test]
fn motor_info_is_ready_requires_both() {
    let id = Some(identity(0, 0, None));
    assert!(motor_info(0x10, id.clone(), MotorLifecycle::Initialized, true).is_ready());
    assert!(!motor_info(0x10, id.clone(), MotorLifecycle::Initialized, false).is_ready());
    assert!(!motor_info(0x10, id.clone(), MotorLifecycle::Identified, true).is_ready());
    assert!(!motor_info(0x10, None, MotorLifecycle::Unknown, true).is_ready());
}

#[test]
fn friendly_name_falls_back_when_no_identity() {
    let m = motor_info(0x42, None, MotorLifecycle::Unknown, true);
    assert_eq!(m.friendly_name(), "Node 0x42");
}

#[test]
fn friendly_name_uses_known_devices_table() {
    let id = identity(0x0068_6578, 0xAAAA_0002, None);
    let m = motor_info(0x10, Some(id), MotorLifecycle::Identified, true);
    assert_eq!(m.friendly_name(), "HexMeow Motor");
}

#[test]
fn lifecycle_names_are_their_debug_texts() {
    for l in [
        MotorLifecycle::Unknown,
        MotorLifecycle::Identified,
        MotorLifecycle::Initializing,
        MotorLifecycle::Initialized,
        MotorLifecycle::NeedsReinit { reason: ReinitReason::LeftOperational },
    ] {
        assert_eq!(l.name(), format!("{l:?}"));
    }
}
