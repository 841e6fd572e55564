//! The Kobo reader profile: the one concrete device model the profile table
//! currently supports.

use vstd::prelude::*;

use crate::Ebook;
use crate::device::TransferError;
use crate::device::usb::{CopyJob, UsbDevice, strip_library_prefix};

verus! {

/// The USB vendor identifier of Kobo hardware.
pub const KOBO_VENDOR_ID: u16 = 0x2237;

/// The USB product identifier of the Libra 2 reader.
pub const LIBRA_2_PRODUCT_ID: u16 = 0x4234;

/// A Kobo Libra 2 eReader, bound to the directory it is mounted on.
#[derive(Debug, Clone)]
pub struct Libra2 {
    pub mount_dir: String,
}

/// Mathematical model of a [`Libra2`].
pub ghost struct Libra2View {
    pub mount_dir: Seq<char>,
}

impl View for Libra2 {
    type V = Libra2View;

    open spec fn view(&self) -> Libra2View {
        Libra2View { mount_dir: self.mount_dir@ }
    }
}

impl DeepView for Libra2 {
    type V = Libra2View;

    open spec fn deep_view(&self) -> Libra2View {
        self@
    }
}

impl Libra2 {
    pub fn new(mount_dir: String) -> (r: Libra2)
        ensures
            r@.mount_dir == mount_dir@,
    {
        Libra2 { mount_dir }
    }
}

impl UsbDevice for Libra2 {
    open spec fn spec_mount_dir(&self) -> Seq<char> {
        self@.mount_dir
    }

    open spec fn spec_vendor_id(&self) -> u16 {
        KOBO_VENDOR_ID
    }

    open spec fn spec_product_id(&self) -> u16 {
        LIBRA_2_PRODUCT_ID
    }

    fn mount_dir(&self) -> (r: &str) {
        self.mount_dir.as_str()
    }

    fn vendor_id(&self) -> (r: u16) {
        KOBO_VENDOR_ID
    }

    fn product_id(&self) -> (r: u16) {
        LIBRA_2_PRODUCT_ID
    }

    fn upload_ebook(
        &self,
        ebook: &Ebook,
        library: &str,
        destination_exists: bool,
        dry_run: bool,
    ) -> (r: Result<Option<CopyJob>, TransferError>) {
        if destination_exists {
            return Err(TransferError::AlreadyPresent);
        }
        if dry_run {
            return Ok(None);
        }
        let rel = strip_library_prefix(ebook.path.as_str(), library);
        let mut to = self.mount_dir.clone();
        to.append("/");
        to.append(rel.as_str());
        Ok(Some(CopyJob { from: ebook.path.clone(), to }))
    }
}

} // verus!
