use libri::device::kobo::{KOBO_VENDOR_ID, LIBRA_2_PRODUCT_ID};
use libri::device::mounts::MountEntry;
use libri::device::registry::{DeviceRecord, PropertySet, collect_records, make_record};
use libri::device::usb::UsbDevice;
use libri::device::{MountedDevice, available_devices, correlate, device_node_path, filter};

fn kobo_record() -> DeviceRecord {
    DeviceRecord {
        device_node_name: "disk2s1".to_string(),
        vendor_id: 0x2237,
        vendor_name: "Kobo".to_string(),
        product_id: 0x4234,
        product_name: "Libra 2".to_string(),
    }
}

fn kobo_mounts() -> Vec<MountEntry> {
    vec![MountEntry {
        device_path: "/dev/disk2s1".to_string(),
        mount_point: "/Volumes/KOBOeReader".to_string(),
    }]
}

#[test]
fn filter_devices() {
    let devices = vec![
        MountedDevice {
            mount_point: "/path/to/libra2".to_string(),
            manufacturer: "Kobo".to_string(),
            name: "Libra 2".to_string(),
            vendor_id: KOBO_VENDOR_ID,
            product_id: LIBRA_2_PRODUCT_ID,
        },
        MountedDevice {
            mount_point: "/path/to/other".to_string(),
            manufacturer: "Unknown".to_string(),
            name: "Name".to_string(),
            vendor_id: 1,
            product_id: 2,
        },
    ];
    let available_devices = filter(devices);
    assert_eq!(available_devices.len(), 1);

    let device = &available_devices[0];
    assert_eq!(device.usb_info.vendor_id(), KOBO_VENDOR_ID);
    assert_eq!(device.usb_info.product_id(), LIBRA_2_PRODUCT_ID);
}

#[test]
fn correlate_mounted_record() {
    let mounted = correlate(&vec![kobo_record()], &kobo_mounts());
    assert_eq!(mounted.len(), 1);
    assert_eq!(mounted[0].mount_point, "/Volumes/KOBOeReader");
    assert_eq!(mounted[0].manufacturer, "Kobo");
    assert_eq!(mounted[0].name, "Libra 2");
    assert_eq!(mounted[0].vendor_id, 0x2237);
    assert_eq!(mounted[0].product_id, 0x4234);

    let devices = filter(mounted);
    assert_eq!(devices.len(), 1);
    assert_eq!(devices[0].name(), "Libra 2");
    assert_eq!(devices[0].manufacturer(), "Kobo");
}

#[test]
fn correlate_unknown_vendor_still_mounted() {
    let mut record = kobo_record();
    record.vendor_id = 0x9999;
    let mounted = correlate(&vec![record], &kobo_mounts());
    assert_eq!(mounted.len(), 1);
    assert_eq!(mounted[0].mount_point, "/Volumes/KOBOeReader");
    assert_eq!(mounted[0].vendor_id, 0x9999);

    let devices = filter(mounted);
    assert!(devices.is_empty());
}

#[test]
fn correlate_unmounted_record_dropped() {
    let mounts = vec![MountEntry {
        device_path: "/dev/disk9s9".to_string(),
        mount_point: "/Volumes/Other".to_string(),
    }];
    let mounted = correlate(&vec![kobo_record()], &mounts);
    assert!(mounted.is_empty());

    let devices = filter(mounted);
    assert!(devices.is_empty());
}

#[test]
fn available_devices_full_pipeline() {
    let devices = available_devices(&vec![kobo_record()], &kobo_mounts());
    assert_eq!(devices.len(), 1);
    assert_eq!(devices[0].display_uid(), 0x2237 ^ 0x4234);
}

#[test]
fn device_node_path_prefixes_device_directory() {
    assert_eq!(device_node_path("disk2s1"), "/dev/disk2s1");
}

fn full_property_set() -> PropertySet {
    PropertySet {
        device_node_name: Some("disk2s1".to_string()),
        vendor_id: Some(0x2237),
        vendor_name: Some("Kobo".to_string()),
        product_id: Some(0x4234),
        product_name: Some("Libra 2".to_string()),
    }
}

#[test]
fn make_record_complete_candidate() {
    let record = make_record(&full_property_set()).expect("complete candidate must be emitted");
    assert_eq!(record.device_node_name, "disk2s1");
    assert_eq!(record.vendor_id, 0x2237);
    assert_eq!(record.vendor_name, "Kobo");
    assert_eq!(record.product_id, 0x4234);
    assert_eq!(record.product_name, "Libra 2");
}

#[test]
fn make_record_missing_property_dropped() {
    let mut p = full_property_set();
    p.device_node_name = None;
    assert!(make_record(&p).is_none());

    let mut p = full_property_set();
    p.vendor_id = None;
    assert!(make_record(&p).is_none());

    let mut p = full_property_set();
    p.vendor_name = None;
    assert!(make_record(&p).is_none());

    let mut p = full_property_set();
    p.product_id = None;
    assert!(make_record(&p).is_none());

    let mut p = full_property_set();
    p.product_name = None;
    assert!(make_record(&p).is_none());
}

#[test]
fn make_record_id_out_of_range_dropped() {
    let mut p = full_property_set();
    p.vendor_id = Some(-1);
    assert!(make_record(&p).is_none());

    let mut p = full_property_set();
    p.product_id = Some(0x1_0000);
    assert!(make_record(&p).is_none());
}

#[test]
fn correlate_empty_inputs() {
    assert!(correlate(&Vec::new(), &kobo_mounts()).is_empty());
    assert!(correlate(&vec![kobo_record()], &Vec::new()).is_empty());
    assert!(filter(Vec::new()).is_empty());
}

#[test]
fn collect_records_drops_partial_candidates() {
    let mut partial = full_property_set();
    partial.product_name = None;
    let records = collect_records(vec![partial, full_property_set()]);
    assert_eq!(records.len(), 1);
    assert_eq!(records[0].device_node_name, "disk2s1");
}
