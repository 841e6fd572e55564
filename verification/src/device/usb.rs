//! The capability interface of supported eReader hardware, and the planning
//! of idempotent uploads.
//!
//! An upload never decides and writes in one step: the library computes the
//! destination and decides between failing, stopping (dry run) and copying,
//! and hands the caller a [`CopyJob`] to perform. The caller reports whether
//! the destination already exists before the plan is made, and performs the
//! returned copy afterwards; every other outcome mutates nothing.

use vstd::prelude::*;

use crate::Ebook;
use crate::device::TransferError;

verus! {

/// A copy for the caller to perform: the source bytes of `from` written to
/// `to`, creating parent directories as needed.
#[derive(Debug, Clone)]
pub struct CopyJob {
    pub from: String,
    pub to: String,
}

/// Mathematical model of a [`CopyJob`].
pub ghost struct CopyJobView {
    pub from: Seq<char>,
    pub to: Seq<char>,
}

impl View for CopyJob {
    type V = CopyJobView;

    open spec fn view(&self) -> CopyJobView {
        CopyJobView { from: self.from@, to: self.to@ }
    }
}

impl DeepView for CopyJob {
    type V = CopyJobView;

    open spec fn deep_view(&self) -> CopyJobView {
        self@
    }
}

/// The part of an ebook's path below the library root: the root prefix is
/// removed, and one separator left over at the cut is dropped.
pub open spec fn rel_path(library: Seq<char>, path: Seq<char>) -> Seq<char> {
    let rest = path.skip(library.len() as int);
    if rest.len() > 0 && rest[0] == '/' {
        rest.skip(1)
    } else {
        rest
    }
}

/// The destination of an ebook on a device: the mount directory, a
/// separator, and the ebook's path relative to the library root, preserved
/// verbatim.
pub open spec fn dest_path(mount_dir: Seq<char>, library: Seq<char>, path: Seq<char>) -> Seq<
    char,
> {
    mount_dir + "/"@ + rel_path(library, path)
}

/// The decision an upload comes down to, before any filesystem mutation.
pub ghost enum UploadPlanView {
    /// The destination already exists: fail, never overwrite.
    AlreadyPresent,
    /// A dry run: the traversal succeeded and nothing is written.
    DryRun,
    /// Copy the source to the destination.
    Copy { from: Seq<char>, to: Seq<char> },
}

/// How one upload of one ebook must proceed. The destination-existence check
/// comes before everything, a dry run stops after it, and only otherwise is
/// anything copied.
pub open spec fn upload_plan(
    mount_dir: Seq<char>,
    library: Seq<char>,
    path: Seq<char>,
    destination_exists: bool,
    dry_run: bool,
) -> UploadPlanView {
    if destination_exists {
        UploadPlanView::AlreadyPresent
    } else if dry_run {
        UploadPlanView::DryRun
    } else {
        UploadPlanView::Copy { from: path, to: dest_path(mount_dir, library, path) }
    }
}

/// Whether an upload's result carries out the plan: `AlreadyPresent` is the
/// only failure, a dry run returns no job, and a real run returns exactly the
/// planned copy.
pub open spec fn upload_result_matches(
    plan: UploadPlanView,
    r: Result<Option<CopyJob>, TransferError>,
) -> bool {
    match plan {
        UploadPlanView::AlreadyPresent => r matches Err(e) && e is AlreadyPresent,
        UploadPlanView::DryRun => r matches Ok(job) && job is None,
        UploadPlanView::Copy { from, to } => r matches Ok(job) && job matches Some(j) && j.from@
            == from && j.to@ == to,
    }
}

/// Physical USB eReader hardware connected to the computer, as one of the
/// supported profiles sees it.
pub trait UsbDevice: Sized {
    /// The directory where the device is mounted.
    spec fn spec_mount_dir(&self) -> Seq<char>;

    /// The USB vendor identifier of the device's profile.
    spec fn spec_vendor_id(&self) -> u16;

    /// The USB product identifier of the device's profile.
    spec fn spec_product_id(&self) -> u16;

    /// Returns the directory where the device is mounted.
    fn mount_dir(&self) -> (r: &str)
        ensures
            r@ == self.spec_mount_dir(),
    ;

    /// Returns the vendor ID of the USB device.
    fn vendor_id(&self) -> (r: u16)
        ensures
            r == self.spec_vendor_id(),
    ;

    /// Returns the product ID of the USB device.
    fn product_id(&self) -> (r: u16)
        ensures
            r == self.spec_product_id(),
    ;

    /// Plans the upload of `ebook` onto the device, at the spot below the
    /// mount directory that mirrors the ebook's place below the library
    /// root. `destination_exists` reports whether that spot is already
    /// taken; when it is, the upload fails before any mutation, and a dry
    /// run stops right after that check.
    fn upload_ebook(
        &self,
        ebook: &Ebook,
        library: &str,
        destination_exists: bool,
        dry_run: bool,
    ) -> (r: Result<Option<CopyJob>, TransferError>)
        requires
            library@.is_prefix_of(ebook.path@),
        ensures
            upload_result_matches(
                upload_plan(
                    self.spec_mount_dir(),
                    library@,
                    ebook.path@,
                    destination_exists,
                    dry_run,
                ),
                r,
            ),
    ;
}

/// Removes the library-root prefix from an ebook path, dropping the
/// separator left at the cut.
pub fn strip_library_prefix(path: &str, library: &str) -> (r: String)
    requires
        library@.is_prefix_of(path@),
    ensures
        r@ == rel_path(library@, path@),
{
    let plen = library.unicode_len();
    let n = path.unicode_len();
    let start = if plen < n && path.get_char(plen) == '/' {
        plen + 1
    } else {
        plen
    };
    let rest = path.substring_char(start, n);
    proof {
        assert(path@.subrange(plen as int, n as int) =~= path@.skip(plen as int));
        if start != plen {
            assert(path@.subrange(start as int, n as int) =~= path@.skip(plen as int).skip(1));
        }
    }
    rest.to_owned()
}

/// A dry run never plans a copy, whatever the device, ebook and existence
/// check: the plan is `AlreadyPresent` or `DryRun`, and the caller, who
/// mutates the filesystem only to perform a returned copy, mutates nothing.
pub proof fn lemma_dry_run_never_copies(
    mount_dir: Seq<char>,
    library: Seq<char>,
    path: Seq<char>,
    destination_exists: bool,
)
    ensures
        !(upload_plan(mount_dir, library, path, destination_exists, true) is Copy),
{
}

/// Once an upload's destination exists — as it does after a completed upload
/// of the same ebook — every further upload of that ebook plans
/// `AlreadyPresent`: the second of two calls fails and writes nothing.
pub proof fn lemma_second_upload_already_present(
    mount_dir: Seq<char>,
    library: Seq<char>,
    path: Seq<char>,
    dry_run: bool,
)
    ensures
        upload_plan(mount_dir, library, path, true, dry_run) is AlreadyPresent,
{
}

} // verus!
