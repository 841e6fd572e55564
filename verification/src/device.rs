//! Device discovery: walking the platform's hardware registry, correlating
//! its records with the mount table, and classifying the result against the
//! table of supported reader profiles.

pub mod kobo;
pub mod mounts;
pub mod registry;
pub mod usb;

use vstd::prelude::*;

use crate::Ebook;
use crate::device::kobo::{KOBO_VENDOR_ID, LIBRA_2_PRODUCT_ID, Libra2, Libra2View};
use crate::device::mounts::{MountEntry, MountEntryView, lookup_mount, mount_point_for};
use crate::device::registry::{DeviceRecord, DeviceRecordView};
use crate::device::usb::{CopyJob, UsbDevice};

verus! {

/// A failure that aborts a whole discovery call: no partial device list is
/// ever returned.
#[derive(Debug, Clone)]
pub enum DiscoveryError {
    /// The registry query for matching services could not be started.
    MatchFailure,
    /// A mount-table sizing call reported failure, with the OS status code.
    MountQueryFailure(i32),
    /// This platform has no enumeration implementation; an explicit failure,
    /// never a silent empty list.
    Unsupported,
}

impl DiscoveryError {
    /// A short description of the failure, for display.
    pub fn message(&self) -> (r: &'static str)
        ensures
            self is MatchFailure ==> r@ == "failed to query the device registry"@,
            self is MountQueryFailure ==> r@ == "failed to query mounted filesystems"@,
            self is Unsupported ==> r@ == "device recognition is not implemented for this platform"@,
    {
        match self {
            DiscoveryError::MatchFailure => "failed to query the device registry",
            DiscoveryError::MountQueryFailure(_) => "failed to query mounted filesystems",
            DiscoveryError::Unsupported => "device recognition is not implemented for this platform",
        }
    }
}

/// A failure of one upload of one ebook to one device; the caller reports it
/// and proceeds with the next pair.
#[derive(Debug, Clone)]
pub enum TransferError {
    /// The destination already exists on the device; nothing is overwritten.
    AlreadyPresent,
    /// Reading the source or writing the destination failed.
    IoFailure,
    /// The device's transfer scheme is not supported on this platform.
    PlatformUnsupported,
}

impl TransferError {
    /// A short description of the failure, for display.
    pub fn message(&self) -> (r: &'static str)
        ensures
            self is AlreadyPresent ==> r@ == "already on device"@,
            self is IoFailure ==> r@ == "failed to copy the ebook"@,
            self is PlatformUnsupported ==> r@ == "uploads are not supported on this platform"@,
    {
        match self {
            TransferError::AlreadyPresent => "already on device",
            TransferError::IoFailure => "failed to copy the ebook",
            TransferError::PlatformUnsupported => "uploads are not supported on this platform",
        }
    }
}

/// The device-file path of a device-node name: the platform's device
/// directory prefix followed by the short node name.
pub open spec fn device_path_of(device_node_name: Seq<char>) -> Seq<char> {
    "/dev/"@ + device_node_name
}

/// Returns the device-file path of a device-node name.
pub fn device_node_path(device_node_name: &str) -> (r: String)
    ensures
        r@ == device_path_of(device_node_name@),
{
    let mut path = String::from_str("/dev/");
    path.append(device_node_name);
    path
}

/// Low-level information about a mounted USB device. Other modules should
/// use the specific device struct which implements the [`UsbDevice`] trait to
/// interact with eReaders.
///
/// One exists only for a device record whose device-file path is a key of
/// the mount snapshot it was correlated against.
#[derive(Debug, Clone)]
pub struct MountedDevice {
    pub mount_point: String,
    pub manufacturer: String,
    pub name: String,
    pub vendor_id: u16,
    pub product_id: u16,
}

/// Mathematical model of a [`MountedDevice`].
pub ghost struct MountedDeviceView {
    pub mount_point: Seq<char>,
    pub manufacturer: Seq<char>,
    pub name: Seq<char>,
    pub vendor_id: u16,
    pub product_id: u16,
}

impl View for MountedDevice {
    type V = MountedDeviceView;

    open spec fn view(&self) -> MountedDeviceView {
        MountedDeviceView {
            mount_point: self.mount_point@,
            manufacturer: self.manufacturer@,
            name: self.name@,
            vendor_id: self.vendor_id,
            product_id: self.product_id,
        }
    }
}

impl DeepView for MountedDevice {
    type V = MountedDeviceView;

    open spec fn deep_view(&self) -> MountedDeviceView {
        self@
    }
}

/// The mounted device a record yields when the snapshot maps its device-file
/// path to `mount_point`: the record's identity fields joined with that
/// mount point.
pub open spec fn mounted_from(r: DeviceRecordView, mount_point: Seq<char>) -> MountedDeviceView {
    MountedDeviceView {
        mount_point: mount_point,
        manufacturer: r.vendor_name,
        name: r.product_name,
        vendor_id: r.vendor_id,
        product_id: r.product_id,
    }
}

/// The correlation of enumerated records with a mount snapshot: each record
/// whose device-file path the snapshot maps yields one mounted device, in
/// record order; records of unmounted devices are dropped without error.
pub open spec fn correlated(
    records: Seq<DeviceRecordView>,
    mounts: Seq<MountEntryView>,
) -> Seq<MountedDeviceView>
    decreases records.len(),
{
    if records.len() == 0 {
        Seq::empty()
    } else {
        correlated(records.drop_last(), mounts) + match mount_point_for(
            mounts,
            device_path_of(records.last().device_node_name),
        ) {
            Some(mp) => seq![mounted_from(records.last(), mp)],
            None => Seq::empty(),
        }
    }
}

/// Joins enumerated device records with a mount-table snapshot, keeping
/// exactly the devices that are both enumerated and currently mounted.
#[verifier::loop_isolation(false)]
pub fn correlate(records: &Vec<DeviceRecord>, mounts: &Vec<MountEntry>) -> (r: Vec<MountedDevice>)
    ensures
        r.deep_view() == correlated(records.deep_view(), mounts.deep_view()),
{
    let mut out: Vec<MountedDevice> = Vec::new();
    proof {
        assert(out.deep_view() =~= correlated(records.deep_view().take(0), mounts.deep_view()));
    }
    let n = records.len();
    for i in 0..n
        invariant
            out.deep_view() == correlated(records.deep_view().take(i as int), mounts.deep_view()),
    {
        let ghost prev = out.deep_view();
        let record = &records[i];
        let path = device_node_path(record.device_node_name.as_str());
        match lookup_mount(mounts, &path) {
            Some(mount_point) => {
                let device = MountedDevice {
                    mount_point,
                    manufacturer: record.vendor_name.clone(),
                    name: record.product_name.clone(),
                    vendor_id: record.vendor_id,
                    product_id: record.product_id,
                };
                let ghost dv = device@;
                out.push(device);
                proof {
                    assert(out.deep_view() =~= prev.push(dv));
                }
            },
            None => {},
        }
        proof {
            assert(records.deep_view().take(i + 1).drop_last() =~= records.deep_view().take(
                i as int,
            ));
            assert(records.deep_view().take(i + 1).last() == records@[i as int]@);
            assert(out.deep_view() =~= correlated(
                records.deep_view().take(i + 1),
                mounts.deep_view(),
            ));
        }
    }
    proof {
        assert(records.deep_view().take(n as int) =~= records.deep_view());
    }
    out
}

/// The USB capability bound into a classified device: one variant per
/// supported reader profile.
#[derive(Debug, Clone)]
pub enum UsbInfo {
    Libra2(Libra2),
}

/// Mathematical model of a [`UsbInfo`].
pub ghost enum UsbInfoView {
    Libra2(Libra2View),
}

impl View for UsbInfo {
    type V = UsbInfoView;

    open spec fn view(&self) -> UsbInfoView {
        match self {
            UsbInfo::Libra2(d) => UsbInfoView::Libra2(d@),
        }
    }
}

impl DeepView for UsbInfo {
    type V = UsbInfoView;

    open spec fn deep_view(&self) -> UsbInfoView {
        self@
    }
}

impl UsbDevice for UsbInfo {
    open spec fn spec_mount_dir(&self) -> Seq<char> {
        match self {
            UsbInfo::Libra2(d) => d.spec_mount_dir(),
        }
    }

    open spec fn spec_vendor_id(&self) -> u16 {
        match self {
            UsbInfo::Libra2(d) => d.spec_vendor_id(),
        }
    }

    open spec fn spec_product_id(&self) -> u16 {
        match self {
            UsbInfo::Libra2(d) => d.spec_product_id(),
        }
    }

    fn mount_dir(&self) -> (r: &str) {
        match self {
            UsbInfo::Libra2(d) => d.mount_dir(),
        }
    }

    fn vendor_id(&self) -> (r: u16) {
        match self {
            UsbInfo::Libra2(d) => d.vendor_id(),
        }
    }

    fn product_id(&self) -> (r: u16) {
        match self {
            UsbInfo::Libra2(d) => d.product_id(),
        }
    }

    fn upload_ebook(
        &self,
        ebook: &Ebook,
        library: &str,
        destination_exists: bool,
        dry_run: bool,
    ) -> (r: Result<Option<CopyJob>, TransferError>) {
        match self {
            UsbInfo::Libra2(d) => d.upload_ebook(ebook, library, destination_exists, dry_run),
        }
    }
}

/// A supported, mounted eReader: display identity bound to the capability
/// object of its profile.
#[derive(Debug, Clone)]
pub struct Device {
    pub name: String,
    pub manufacturer: String,
    pub usb_info: UsbInfo,
}

/// Mathematical model of a [`Device`].
pub ghost struct DeviceView {
    pub name: Seq<char>,
    pub manufacturer: Seq<char>,
    pub usb_info: UsbInfoView,
}

impl View for Device {
    type V = DeviceView;

    open spec fn view(&self) -> DeviceView {
        DeviceView { name: self.name@, manufacturer: self.manufacturer@, usb_info: self.usb_info@ }
    }
}

impl DeepView for Device {
    type V = DeviceView;

    open spec fn deep_view(&self) -> DeviceView {
        self@
    }
}

impl Device {
    pub fn new(name: String, manufacturer: String, usb_info: UsbInfo) -> (r: Device)
        ensures
            r@.name == name@,
            r@.manufacturer == manufacturer@,
            r@.usb_info == usb_info@,
    {
        Device { name, manufacturer, usb_info }
    }

    /// Returns the display name of the device.
    pub fn name(&self) -> (r: &str)
        ensures
            r@ == self@.name,
    {
        self.name.as_str()
    }

    /// Returns the manufacturer of the device.
    pub fn manufacturer(&self) -> (r: &str)
        ensures
            r@ == self@.manufacturer,
    {
        self.manufacturer.as_str()
    }

    /// A human-facing identifier for device listings: the exclusive or of the
    /// vendor and product identifiers. A display convenience only — it is
    /// neither stable nor collision-free, and nothing may rely on it as an
    /// identity.
    pub fn display_uid(&self) -> (r: u16)
        ensures
            r == self.usb_info.spec_vendor_id() ^ self.usb_info.spec_product_id(),
    {
        self.usb_info.vendor_id() ^ self.usb_info.product_id()
    }

    /// Plans the upload of `ebook` onto this device; see
    /// [`UsbDevice::upload_ebook`].
    pub fn upload_ebook(
        &self,
        ebook: &Ebook,
        library: &str,
        destination_exists: bool,
        dry_run: bool,
    ) -> (r: Result<Option<CopyJob>, TransferError>)
        requires
            library@.is_prefix_of(ebook.path@),
        ensures
            crate::device::usb::upload_result_matches(
                crate::device::usb::upload_plan(
                    self.usb_info.spec_mount_dir(),
                    library@,
                    ebook.path@,
                    destination_exists,
                    dry_run,
                ),
                r,
            ),
    {
        self.usb_info.upload_ebook(ebook, library, destination_exists, dry_run)
    }
}

/// Whether the static profile table holds an entry for this exact vendor and
/// product pair — exact match only, no vendor-only or wildcard matching.
pub open spec fn profile_supported(vendor_id: u16, product_id: u16) -> bool {
    vendor_id == KOBO_VENDOR_ID && product_id == LIBRA_2_PRODUCT_ID
}

/// The device a mounted device classifies to: the profile's capability bound
/// to the device's mount point, carrying its display identity.
pub open spec fn classified_one(d: MountedDeviceView) -> DeviceView {
    DeviceView {
        name: d.name,
        manufacturer: d.manufacturer,
        usb_info: UsbInfoView::Libra2(Libra2View { mount_dir: d.mount_point }),
    }
}

/// The classification of mounted devices against the profile table: exactly
/// the devices whose vendor and product pair has a profile, in input order;
/// unsupported hardware is excluded silently.
pub open spec fn classified(devices: Seq<MountedDeviceView>) -> Seq<DeviceView>
    decreases devices.len(),
{
    if devices.len() == 0 {
        Seq::empty()
    } else {
        classified(devices.drop_last()) + if profile_supported(
            devices.last().vendor_id,
            devices.last().product_id,
        ) {
            seq![classified_one(devices.last())]
        } else {
            Seq::empty()
        }
    }
}

/// Filters the list of mounted devices and returns a list of supported
/// eReaders, each bound to its profile's capability.
#[verifier::loop_isolation(false)]
pub fn filter(devices: Vec<MountedDevice>) -> (r: Vec<Device>)
    ensures
        r.deep_view() == classified(devices.deep_view()),
{
    let mut available_devices: Vec<Device> = Vec::new();
    proof {
        assert(available_devices.deep_view() =~= classified(devices.deep_view().take(0)));
    }
    let n = devices.len();
    for i in 0..n
        invariant
            available_devices.deep_view() == classified(devices.deep_view().take(i as int)),
    {
        let ghost prev = available_devices.deep_view();
        let device = &devices[i];
        match (device.vendor_id, device.product_id) {
            (KOBO_VENDOR_ID, LIBRA_2_PRODUCT_ID) => {
                let classified_device = Device::new(
                    device.name.clone(),
                    device.manufacturer.clone(),
                    UsbInfo::Libra2(Libra2::new(device.mount_point.clone())),
                );
                let ghost dv = classified_device@;
                available_devices.push(classified_device);
                proof {
                    assert(available_devices.deep_view() =~= prev.push(dv));
                }
            },
            _ => {},
        }
        proof {
            assert(devices.deep_view().take(i + 1).drop_last() =~= devices.deep_view().take(
                i as int,
            ));
            assert(devices.deep_view().take(i + 1).last() == devices@[i as int]@);
            assert(available_devices.deep_view() =~= classified(devices.deep_view().take(i + 1)));
        }
    }
    proof {
        assert(devices.deep_view().take(n as int) =~= devices.deep_view());
    }
    available_devices
}

/// Correlates an enumeration snapshot with a mount snapshot and classifies
/// the result: the supported eReaders that are attached and mounted, as of
/// these two snapshots.
pub fn available_devices(records: &Vec<DeviceRecord>, mounts: &Vec<MountEntry>) -> (r: Vec<Device>)
    ensures
        r.deep_view() == classified(correlated(records.deep_view(), mounts.deep_view())),
{
    let mounted = correlate(records, mounts);
    filter(mounted)
}

/// Correlating one record against a mount snapshot yields a mounted device
/// exactly when the snapshot maps the record's device-file path; the device
/// carries the record's identity fields and the mapped mount point, and an
/// unmounted record yields nothing.
pub proof fn lemma_correlate_single(r: DeviceRecordView, mounts: Seq<MountEntryView>)
    ensures
        mount_point_for(mounts, device_path_of(r.device_node_name)) matches Some(mp) ==> correlated(
            seq![r],
            mounts,
        ) =~= seq![mounted_from(r, mp)],
        mount_point_for(mounts, device_path_of(r.device_node_name)) is None ==> correlated(
            seq![r],
            mounts,
        ) =~= Seq::<MountedDeviceView>::empty(),
{
    assert(seq![r].drop_last() =~= Seq::<DeviceRecordView>::empty());
    assert(seq![r].last() == r);
    assert(correlated(Seq::<DeviceRecordView>::empty(), mounts) =~= Seq::<
        MountedDeviceView,
    >::empty());
    assert(correlated(seq![r], mounts) == correlated(Seq::<DeviceRecordView>::empty(), mounts)
        + match mount_point_for(mounts, device_path_of(r.device_node_name)) {
        Some(mp) => seq![mounted_from(r, mp)],
        None => Seq::<MountedDeviceView>::empty(),
    });
}

/// Classifying one mounted device yields a device exactly when its vendor
/// and product pair matches a profile entry; no device is produced for any
/// other pairing.
pub proof fn lemma_classify_single(d: MountedDeviceView)
    ensures
        profile_supported(d.vendor_id, d.product_id) ==> classified(seq![d]) =~= seq![
            classified_one(d),
        ],
        !profile_supported(d.vendor_id, d.product_id) ==> classified(seq![d]) =~= Seq::<
            DeviceView,
        >::empty(),
{
    assert(seq![d].drop_last() =~= Seq::<MountedDeviceView>::empty());
    assert(seq![d].last() == d);
    assert(classified(Seq::<MountedDeviceView>::empty()) =~= Seq::<DeviceView>::empty());
    assert(classified(seq![d]) == classified(Seq::<MountedDeviceView>::empty()) + if
        profile_supported(d.vendor_id, d.product_id) {
        seq![classified_one(d)]
    } else {
        Seq::<DeviceView>::empty()
    });
}

} // verus!
