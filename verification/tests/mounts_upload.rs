use libri::Ebook;
use libri::device::TransferError;
use libri::device::kobo::Libra2;
use libri::device::mounts::{
    RawMountEntry, RefillDecision, buffer_capacity, decode_entry, interpret_count,
    interpret_mounts, lookup_mount, plan_refill,
};
use libri::device::usb::UsbDevice;
use libri::device::DiscoveryError;

fn raw_entry(device: &[u8], mount: &[u8]) -> RawMountEntry {
    RawMountEntry { device_bytes: device.to_vec(), mount_bytes: mount.to_vec() }
}

#[test]
fn decode_entry_truncates_at_nul() {
    let entry = raw_entry(b"/dev/disk2s1\0\0\0\0", b"/Volumes/KOBOeReader\0junk");
    let decoded = decode_entry(&entry).expect("valid text must decode");
    assert_eq!(decoded.device_path, "/dev/disk2s1");
    assert_eq!(decoded.mount_point, "/Volumes/KOBOeReader");
}

#[test]
fn decode_entry_invalid_text_skipped() {
    let entry = raw_entry(b"\xff\xfe\0", b"/Volumes/x\0");
    assert!(decode_entry(&entry).is_none());
}

#[test]
fn interpret_mounts_reads_only_filled_entries() {
    let entries = vec![
        raw_entry(b"/dev/disk1\0", b"/\0"),
        raw_entry(b"/dev/disk2s1\0", b"/Volumes/KOBOeReader\0"),
        raw_entry(b"/dev/stale\0", b"/Volumes/Stale\0"),
    ];
    let mounts = interpret_mounts(&entries, 2);
    assert_eq!(mounts.len(), 2);
    assert_eq!(mounts[0].device_path, "/dev/disk1");
    assert_eq!(mounts[1].device_path, "/dev/disk2s1");
}

#[test]
fn interpret_mounts_skips_undecodable_entries() {
    let entries = vec![raw_entry(b"\xff\0", b"/\0"), raw_entry(b"/dev/disk1\0", b"/\0")];
    let mounts = interpret_mounts(&entries, 2);
    assert_eq!(mounts.len(), 1);
    assert_eq!(mounts[0].device_path, "/dev/disk1");
}

#[test]
fn interpret_count_reports_failure_status() {
    match interpret_count(-7) {
        Err(DiscoveryError::MountQueryFailure(status)) => assert_eq!(status, -7),
        _ => panic!("a negative status must fail"),
    }
    assert_eq!(interpret_count(3).unwrap(), 3);
}

#[test]
fn plan_refill_accepts_count_that_fits() {
    assert_eq!(plan_refill(10, 7), RefillDecision::Take(7));
    assert_eq!(plan_refill(10, 10), RefillDecision::Take(10));
}

#[test]
fn plan_refill_retries_when_table_outgrew_buffer() {
    match plan_refill(10, 12) {
        RefillDecision::Retry(capacity) => assert!(capacity >= 12),
        RefillDecision::Take(_) => panic!("an overfull report must retry"),
    }
}

#[test]
fn buffer_capacity_adds_margin() {
    assert!(buffer_capacity(0) >= 1);
    assert_eq!(buffer_capacity(10), 18);
}

#[test]
fn lookup_mount_finds_first_match() {
    let mounts = interpret_mounts(
        &vec![
            raw_entry(b"/dev/disk1\0", b"/\0"),
            raw_entry(b"/dev/disk2s1\0", b"/Volumes/KOBOeReader\0"),
        ],
        2,
    );
    let hit = lookup_mount(&mounts, &"/dev/disk2s1".to_string());
    assert_eq!(hit.unwrap(), "/Volumes/KOBOeReader");
    assert!(lookup_mount(&mounts, &"/dev/disk3".to_string()).is_none());
}

#[test]
fn lookup_mount_first_entry_decides_equal_keys() {
    let mounts = interpret_mounts(
        &vec![
            raw_entry(b"/dev/disk1\0", b"/Volumes/First\0"),
            raw_entry(b"/dev/disk1\0", b"/Volumes/Second\0"),
        ],
        2,
    );
    assert_eq!(lookup_mount(&mounts, &"/dev/disk1".to_string()).unwrap(), "/Volumes/First");
}

#[test]
fn interpret_mounts_empty_fill() {
    let entries = vec![raw_entry(b"/dev/disk1\0", b"/\0")];
    assert!(interpret_mounts(&entries, 0).is_empty());
}

fn sample_ebook() -> Ebook {
    Ebook::new(
        "id-1".to_string(),
        "Title".to_string(),
        "Author".to_string(),
        "/library/Author/Title/Title.epub",
    )
}

#[test]
fn upload_dry_run_plans_no_copy() {
    let device = Libra2::new("/Volumes/KOBOeReader".to_string());
    let r = device.upload_ebook(&sample_ebook(), "/library", false, true);
    assert!(matches!(r, Ok(None)));
}

#[test]
fn upload_plans_copy_preserving_library_layout() {
    let device = Libra2::new("/Volumes/KOBOeReader".to_string());
    let job = device
        .upload_ebook(&sample_ebook(), "/library", false, false)
        .expect("a fresh upload must plan a copy")
        .expect("a real run returns a job");
    assert_eq!(job.from, "/library/Author/Title/Title.epub");
    assert_eq!(job.to, "/Volumes/KOBOeReader/Author/Title/Title.epub");
}

#[test]
fn upload_twice_reports_already_present() {
    let device = Libra2::new("/Volumes/KOBOeReader".to_string());
    let ebook = sample_ebook();
    let first = device.upload_ebook(&ebook, "/library", false, false);
    assert!(matches!(first, Ok(Some(_))));
    // After the first copy completes the destination exists.
    let second = device.upload_ebook(&ebook, "/library", true, false);
    match second {
        Err(TransferError::AlreadyPresent) => {},
        _ => panic!("the second upload must fail with AlreadyPresent"),
    }
}

#[test]
fn error_messages_name_the_failure() {
    assert_eq!(TransferError::AlreadyPresent.message(), "already on device");
    assert_eq!(
        DiscoveryError::Unsupported.message(),
        "device recognition is not implemented for this platform"
    );
}
