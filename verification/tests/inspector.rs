use usb_inspector::{
    dec_string, locate, render_device_info, should_try_open, wants_string_reads, Descriptor,
    DeviceProbe, DeviceReads, InfoError,
};

const VID: u16 = 0x0bda;
const PID: u16 = 0x2838;

fn probe(vendor_id: u16, product_id: u16, opens: bool) -> DeviceProbe {
    DeviceProbe {
        descriptor: Some(Descriptor {
            vendor_id,
            product_id,
        }),
        opens,
    }
}

fn unreadable_probe() -> DeviceProbe {
    DeviceProbe {
        descriptor: None,
        opens: true,
    }
}

#[test]
fn locate_empty_list_returns_none() {
    let probes: Vec<DeviceProbe> = Vec::new();
    assert_eq!(locate(&probes, VID, PID), None);
}

#[test]
fn locate_no_match_returns_none() {
    let probes = vec![
        probe(0x1111, 0x2222, true),
        unreadable_probe(),
        probe(VID, 0x9999, true),
        probe(0x9999, PID, true),
        probe(VID, PID, false),
    ];
    assert_eq!(locate(&probes, VID, PID), None);
}

#[test]
fn locate_single_match_returns_it() {
    let probes = vec![
        probe(0x1111, 0x2222, true),
        probe(VID, PID, true),
        probe(0x3333, 0x4444, true),
    ];
    assert_eq!(locate(&probes, VID, PID), Some(1));
}

#[test]
fn locate_skips_failed_open_and_continues() {
    let probes = vec![
        probe(VID, PID, false),
        probe(0x1111, 0x2222, true),
        probe(VID, PID, true),
    ];
    assert_eq!(locate(&probes, VID, PID), Some(2));
}

#[test]
fn locate_first_match_wins() {
    let probes = vec![probe(VID, PID, true), probe(VID, PID, true)];
    assert_eq!(locate(&probes, VID, PID), Some(0));
}

#[test]
fn locate_skips_failed_descriptor_read() {
    let probes = vec![unreadable_probe(), probe(VID, PID, true)];
    assert_eq!(locate(&probes, VID, PID), Some(1));
}

#[test]
fn locate_failed_enumeration_is_not_found() {
    assert_eq!(
        usb_inspector::locate_from_enumeration(&None, VID, PID),
        None
    );
    let probes = vec![probe(VID, PID, true)];
    assert_eq!(
        usb_inspector::locate_from_enumeration(&Some(probes), VID, PID),
        Some(0)
    );
}

#[test]
fn should_try_open_on_matching_descriptor() {
    let d = Some(Descriptor {
        vendor_id: VID,
        product_id: PID,
    });
    assert!(should_try_open(&d, VID, PID));
    assert!(!should_try_open(&d, VID, 0x9999));
    assert!(!should_try_open(&d, 0x9999, PID));
    assert!(!should_try_open(&None, VID, PID));
}

#[test]
fn dec_string_exact_values() {
    assert_eq!(dec_string(0), "0");
    assert_eq!(dec_string(7), "7");
    assert_eq!(dec_string(10), "10");
    assert_eq!(dec_string(255), "255");
    assert_eq!(dec_string(1033), "1033");
    assert_eq!(dec_string(65535), "65535");
    assert_eq!(dec_string(4294967295), "4294967295");
}

fn reads(
    descriptor_ok: bool,
    languages: Option<Vec<u16>>,
    active_config: Option<u8>,
    manufacturer: Option<&str>,
    product: Option<&str>,
    serial: Option<&str>,
) -> DeviceReads {
    DeviceReads {
        descriptor: if descriptor_ok {
            Some(Descriptor {
                vendor_id: VID,
                product_id: PID,
            })
        } else {
            None
        },
        languages,
        active_config,
        manufacturer: manufacturer.map(|s| s.to_string()),
        product: product.map(|s| s.to_string()),
        serial: serial.map(|s| s.to_string()),
    }
}

#[test]
fn render_empty_languages_prints_config_only() {
    let r = reads(true, Some(vec![]), Some(1), None, None, None);
    let lines = render_device_info(&r).unwrap();
    assert_eq!(lines, vec!["Active configuration: 1".to_string()]);
}

#[test]
fn render_failed_manufacturer_is_masked_independently() {
    let r = reads(
        true,
        Some(vec![0x0409]),
        Some(2),
        None,
        Some("Widget"),
        None,
    );
    let lines = render_device_info(&r).unwrap();
    assert_eq!(lines.len(), 5);
    assert_eq!(lines[2], "Manufacturer: Not Found");
    assert_eq!(lines[3], "Product: Widget");
    assert_eq!(lines[4], "Serial Number: Not Found");
}

#[test]
fn render_failed_config_aborts_without_output() {
    let r = reads(true, Some(vec![0x0409]), None, Some("Acme"), None, None);
    assert_eq!(render_device_info(&r), Err(InfoError::ConfigRead));
}

#[test]
fn render_failed_descriptor_aborts() {
    let r = reads(false, Some(vec![0x0409]), Some(1), None, None, None);
    assert_eq!(render_device_info(&r), Err(InfoError::DescriptorRead));
}

#[test]
fn render_failed_languages_aborts() {
    let r = reads(true, None, Some(1), None, None, None);
    assert_eq!(render_device_info(&r), Err(InfoError::LanguageRead));
}

#[test]
fn render_failure_order_descriptor_first() {
    let r = reads(false, None, None, None, None, None);
    assert_eq!(render_device_info(&r), Err(InfoError::DescriptorRead));
    let r = reads(true, None, None, None, None, None);
    assert_eq!(render_device_info(&r), Err(InfoError::LanguageRead));
}

#[test]
fn wants_string_reads_iff_languages_nonempty() {
    assert!(!wants_string_reads(&vec![]));
    assert!(wants_string_reads(&vec![0x0409]));
}

#[test]
fn mock_device_full_output() {
    let probes = vec![probe(VID, PID, true)];
    let found = locate(&probes, VID, PID);
    assert_eq!(found, Some(0));
    let r = reads(
        true,
        Some(vec![0x0409]),
        Some(1),
        Some("Acme"),
        Some("Widget"),
        None,
    );
    let lines = render_device_info(&r).unwrap();
    assert_eq!(
        lines,
        vec![
            "Active configuration: 1".to_string(),
            "Language: Language { raw: 1033 }".to_string(),
            "Manufacturer: Acme".to_string(),
            "Product: Widget".to_string(),
            "Serial Number: Not Found".to_string(),
        ]
    );
}
