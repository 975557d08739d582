use podctl::caps::{Capabilities, Model};

#[test]
fn known_product_codes_resolve_to_their_model() {
    assert_eq!(Model::from_code(0x2002), Model::Gen1);
    assert_eq!(Model::from_code(0x200F), Model::Gen2);
    assert_eq!(Model::from_code(0x2013), Model::Gen3);
    assert_eq!(Model::from_code(0x200E), Model::Pro);
    assert_eq!(Model::from_code(0x2014), Model::Pro2);
    assert_eq!(Model::from_code(0x2024), Model::Pro2UsbC);
    assert_eq!(Model::from_code(0x2027), Model::Pro3);
    assert_eq!(Model::from_code(0x201B), Model::Gen4Anc);
    assert_eq!(Model::from_code(0x200A), Model::Max);
    assert_eq!(Model::from_code(0x201F), Model::MaxUsbC);
    assert_eq!(Model::from_code(0x202D), Model::Max2);
}

#[test]
fn beats_pids_are_not_misread_as_airpods() {
    assert_eq!(Model::from_code(0x2025), Model::Unknown);
    assert_eq!(Model::from_code(0x2026), Model::Unknown);
}

#[test]
fn pro3_inherits_pro2_capabilities() {
    let caps = Model::Pro3.capabilities();
    assert!(caps.has_anc);
    assert!(caps.has_adaptive);
    assert!(caps.has_conv_awareness);
    assert!(caps.has_loud_sound_reduction);
}

#[test]
fn max2_uses_max_capabilities() {
    let caps = Model::Max2.capabilities();
    assert!(caps.has_anc);
    assert!(!caps.has_case_battery);
    assert!(!caps.has_in_ear_detection);
}

#[test]
fn unknown_model_gets_the_conservative_matrix() {
    let c = Capabilities::default();
    assert_eq!(c.model, Model::Unknown);
    assert!(c.has_case_battery);
    assert!(c.has_rename);
    assert!(!c.has_anc);
    assert!(!c.has_transparency);
    assert_eq!(Capabilities::conservative(Model::Gen2).model, Model::Gen2);
}

#[test]
fn model_labels() {
    assert_eq!(Model::Pro2UsbC.label(), "AirPods Pro (2nd gen, USB-C)");
    assert_eq!(Model::Unknown.label(), "AirPods (unknown model)");
}
