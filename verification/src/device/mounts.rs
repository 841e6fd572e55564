//! The mount-table side of device discovery.
//!
//! The OS reports mounted filesystems through a two-call sizing protocol:
//! one call reports how many entries exist, a second call fills a buffer and
//! reports how many entries it actually wrote. Only that many entries may be
//! interpreted, and if the table grew past the buffer between the two calls
//! the fill must be retried with more room. The raw syscall stays outside the
//! library; everything it reports is decided and decoded here.

use vstd::prelude::*;

use crate::common::bytes_to_string;
use crate::device::DiscoveryError;

verus! {

/// Extra entries allocated beyond the reported count, so that a mount table
/// that grows between the sizing call and the fill call still fits.
pub const MOUNT_BUFFER_MARGIN: usize = 8;

/// One decoded mount-table entry: the device-node path and the directory the
/// device is mounted on.
#[derive(Debug, Clone)]
pub struct MountEntry {
    pub device_path: String,
    pub mount_point: String,
}

/// Mathematical model of a [`MountEntry`].
pub ghost struct MountEntryView {
    pub device_path: Seq<char>,
    pub mount_point: Seq<char>,
}

impl View for MountEntry {
    type V = MountEntryView;

    open spec fn view(&self) -> MountEntryView {
        MountEntryView { device_path: self.device_path@, mount_point: self.mount_point@ }
    }
}

impl DeepView for MountEntry {
    type V = MountEntryView;

    open spec fn deep_view(&self) -> MountEntryView {
        self@
    }
}

/// One raw mount-table entry as the OS fills it: two fixed-width byte fields
/// holding NUL-terminated text.
#[derive(Debug, Clone)]
pub struct RawMountEntry {
    pub device_bytes: Vec<u8>,
    pub mount_bytes: Vec<u8>,
}

/// Mathematical model of a [`RawMountEntry`].
pub ghost struct RawMountEntryView {
    pub device_bytes: Seq<u8>,
    pub mount_bytes: Seq<u8>,
}

impl View for RawMountEntry {
    type V = RawMountEntryView;

    open spec fn view(&self) -> RawMountEntryView {
        RawMountEntryView { device_bytes: self.device_bytes@, mount_bytes: self.mount_bytes@ }
    }
}

impl DeepView for RawMountEntry {
    type V = RawMountEntryView;

    open spec fn deep_view(&self) -> RawMountEntryView {
        self@
    }
}

/// The bytes of a fixed-width text field up to (and not including) its first
/// NUL byte; the whole field when no NUL occurs.
pub open spec fn nul_prefix(b: Seq<u8>) -> Seq<u8>
    decreases b.len(),
{
    if b.len() == 0 {
        b
    } else if b.first() == 0u8 {
        Seq::empty()
    } else {
        seq![b.first()] + nul_prefix(b.drop_first())
    }
}

/// A fixed-width text field decoded to characters: the bytes before the first
/// NUL, when they are valid UTF-8.
pub open spec fn decoded_field(b: Seq<u8>) -> Option<Seq<char>> {
    if vstd::utf8::valid_utf8(nul_prefix(b)) {
        Some(vstd::utf8::decode_utf8(nul_prefix(b)))
    } else {
        None
    }
}

/// A raw entry decoded to a mount entry; `None` when either field fails to
/// decode as text.
pub open spec fn decoded_entry(e: RawMountEntryView) -> Option<MountEntryView> {
    match (decoded_field(e.device_bytes), decoded_field(e.mount_bytes)) {
        (Some(d), Some(m)) => Some(MountEntryView { device_path: d, mount_point: m }),
        _ => None,
    }
}

/// The mount entries decoded from a sequence of raw entries, in order;
/// entries that fail to decode are skipped.
pub open spec fn decoded_mounts(raw: Seq<RawMountEntryView>) -> Seq<MountEntryView>
    decreases raw.len(),
{
    if raw.len() == 0 {
        Seq::empty()
    } else {
        decoded_mounts(raw.drop_last()) + match decoded_entry(raw.last()) {
            Some(e) => seq![e],
            None => Seq::empty(),
        }
    }
}

/// Returns the bytes of `b` before its first NUL byte.
#[verifier::loop_isolation(false)]
fn truncate_at_nul(b: &Vec<u8>) -> (r: Vec<u8>)
    ensures
        r@ == nul_prefix(b@),
{
    let mut out: Vec<u8> = Vec::new();
    let n = b.len();
    for i in 0..n
        invariant
            out@ == nul_prefix(b@.take(i as int)),
            forall|j: int| 0 <= j < i ==> b@[j] != 0u8,
    {
        if b[i] == 0u8 {
            proof {
                lemma_nul_prefix_stops(b@, i as int);
            }
            return out;
        }
        out.push(b[i]);
        proof {
            lemma_nul_prefix_step(b@, i as int);
        }
    }
    proof {
        assert(b@.take(n as int) =~= b@);
    }
    out
}

/// Extending a NUL-free prefix by one non-NUL byte extends its `nul_prefix`.
proof fn lemma_nul_prefix_step(b: Seq<u8>, i: int)
    requires
        0 <= i < b.len(),
        b[i] != 0u8,
        forall|j: int| 0 <= j < i ==> b[j] != 0u8,
    ensures
        nul_prefix(b.take(i + 1)) == nul_prefix(b.take(i)).push(b[i]),
    decreases i,
{
    if i == 0 {
        assert(b.take(1) =~= seq![b[0]]);
        assert(b.take(1).drop_first() =~= Seq::<u8>::empty());
        assert(nul_prefix(b.take(0)) =~= Seq::<u8>::empty());
        assert(nul_prefix(b.take(1)) =~= seq![b[0]]);
        assert(nul_prefix(b.take(0)).push(b[0]) =~= seq![b[0]]);
    } else {
        lemma_nul_prefix_step(b.drop_first(), i - 1);
        assert(b.take(i + 1).drop_first() =~= b.drop_first().take(i));
        assert(b.take(i).drop_first() =~= b.drop_first().take(i - 1));
        assert(b.take(i + 1).first() == b[0]);
        assert(nul_prefix(b.take(i + 1)) == seq![b[0]] + nul_prefix(b.drop_first().take(i)));
        assert(nul_prefix(b.take(i)) == seq![b[0]] + nul_prefix(b.drop_first().take(i - 1)));
        assert(nul_prefix(b.take(i + 1)) =~= nul_prefix(b.take(i)).push(b[i]));
    }
}

/// A NUL byte after a NUL-free prefix ends the `nul_prefix` there.
proof fn lemma_nul_prefix_stops(b: Seq<u8>, i: int)
    requires
        0 <= i < b.len(),
        b[i] == 0u8,
        forall|j: int| 0 <= j < i ==> b[j] != 0u8,
    ensures
        nul_prefix(b) == nul_prefix(b.take(i)),
    decreases i,
{
    if i == 0 {
        assert(nul_prefix(b) =~= Seq::<u8>::empty());
        assert(nul_prefix(b.take(0)) =~= Seq::<u8>::empty());
    } else {
        lemma_nul_prefix_stops(b.drop_first(), i - 1);
        assert(b.take(i).drop_first() =~= b.drop_first().take(i - 1));
        assert(nul_prefix(b) == seq![b[0]] + nul_prefix(b.drop_first()));
        assert(nul_prefix(b.take(i)) == seq![b[0]] + nul_prefix(b.drop_first().take(i - 1)));
        assert(nul_prefix(b) =~= nul_prefix(b.take(i)));
    }
}

/// Decodes one fixed-width text field: the bytes before the first NUL,
/// as a string when they are valid UTF-8.
fn decode_field(b: &Vec<u8>) -> (r: Option<String>)
    ensures
        r is Some <==> decoded_field(b@) is Some,
        r matches Some(s) ==> decoded_field(b@) == Some(s@),
{
    let prefix = truncate_at_nul(b);
    bytes_to_string(prefix)
}

/// Decodes one raw entry; `None` when either field is not valid text.
pub fn decode_entry(e: &RawMountEntry) -> (r: Option<MountEntry>)
    ensures
        r.deep_view() == decoded_entry(e@),
{
    let device_path = match decode_field(&e.device_bytes) {
        Some(d) => d,
        None => {
            return None;
        },
    };
    let mount_point = match decode_field(&e.mount_bytes) {
        Some(m) => m,
        None => {
            return None;
        },
    };
    Some(MountEntry { device_path, mount_point })
}

/// Interprets the filled part of the buffer the OS wrote: exactly the first
/// `filled` raw entries are decoded; the remainder of the buffer is never
/// read.
#[verifier::loop_isolation(false)]
pub fn interpret_mounts(entries: &Vec<RawMountEntry>, filled: usize) -> (r: Vec<MountEntry>)
    requires
        filled <= entries.len(),
    ensures
        r.deep_view() == decoded_mounts(entries.deep_view().take(filled as int)),
{
    let mut out: Vec<MountEntry> = Vec::new();
    proof {
        assert(out.deep_view() =~= decoded_mounts(entries.deep_view().take(0)));
    }
    for i in 0..filled
        invariant
            out.deep_view() == decoded_mounts(entries.deep_view().take(i as int)),
    {
        let ghost prev = out.deep_view();
        match decode_entry(&entries[i]) {
            Some(entry) => {
                let ghost ev = entry@;
                out.push(entry);
                proof {
                    assert(out.deep_view() =~= prev.push(ev));
                }
            },
            None => {},
        }
        proof {
            assert(entries.deep_view().take(i + 1).drop_last() =~= entries.deep_view().take(
                i as int,
            ));
            assert(entries.deep_view().take(i + 1).last() == entries@[i as int]@);
            assert(out.deep_view() =~= decoded_mounts(entries.deep_view().take(i + 1)));
        }
    }
    out
}

/// The number of entries reported by a sizing call: a negative status is the
/// call's failure and aborts discovery with [`DiscoveryError::MountQueryFailure`].
pub fn interpret_count(status: i32) -> (r: Result<usize, DiscoveryError>)
    ensures
        status < 0 ==> r == Result::<usize, DiscoveryError>::Err(
            DiscoveryError::MountQueryFailure(status),
        ),
        status >= 0 ==> r == Result::<usize, DiscoveryError>::Ok(status as usize),
{
    if status < 0 {
        Err(DiscoveryError::MountQueryFailure(status))
    } else {
        Ok(status as usize)
    }
}

/// The capacity to allocate for a reported entry count: the count plus a
/// safety margin, since the table may grow between the two calls.
pub fn buffer_capacity(count: usize) -> (r: usize)
    ensures
        r >= count,
        count <= usize::MAX - MOUNT_BUFFER_MARGIN ==> r == count + MOUNT_BUFFER_MARGIN,
{
    if count <= usize::MAX - MOUNT_BUFFER_MARGIN {
        count + MOUNT_BUFFER_MARGIN
    } else {
        usize::MAX
    }
}

/// What to do after a fill call: trust the reported count when it fits the
/// buffer, otherwise retry the whole two-call sequence with a larger buffer.
#[derive(Debug, PartialEq, Eq, Structural)]
pub enum RefillDecision {
    /// The fill is complete: interpret exactly this many entries.
    Take(usize),
    /// The table outgrew the buffer: repeat the sequence with this capacity.
    Retry(usize),
}

/// Decides whether a fill call's reported count can be trusted.
///
/// The buffer held `capacity` entries and the call reported `reported`
/// filled; only a count that fits the buffer is accepted, and a larger one
/// forces a retry with room for at least the newly reported count.
pub fn plan_refill(capacity: usize, reported: usize) -> (r: RefillDecision)
    ensures
        reported <= capacity ==> r == RefillDecision::Take(reported),
        reported > capacity ==> (r matches RefillDecision::Retry(c) && c >= reported && c
            > capacity),
{
    if reported <= capacity {
        RefillDecision::Take(reported)
    } else {
        RefillDecision::Retry(buffer_capacity(reported))
    }
}

/// The mount point mapped to a device-node path, when the snapshot holds one:
/// the first entry with that device path decides.
pub open spec fn mount_point_for(mounts: Seq<MountEntryView>, device_path: Seq<char>) -> Option<
    Seq<char>,
>
    decreases mounts.len(),
{
    if mounts.len() == 0 {
        None
    } else if mounts.first().device_path == device_path {
        Some(mounts.first().mount_point)
    } else {
        mount_point_for(mounts.drop_first(), device_path)
    }
}

/// Looks a device-node path up in the mount snapshot.
#[verifier::loop_isolation(false)]
pub fn lookup_mount(mounts: &Vec<MountEntry>, device_path: &String) -> (r: Option<String>)
    ensures
        r.deep_view() == mount_point_for(mounts.deep_view(), device_path@),
{
    let n = mounts.len();
    proof {
        assert(mounts.deep_view().skip(0) =~= mounts.deep_view());
    }
    for i in 0..n
        invariant
            mount_point_for(mounts.deep_view(), device_path@) == mount_point_for(
                mounts.deep_view().skip(i as int),
                device_path@,
            ),
    {
        proof {
            assert(mounts.deep_view().skip(i as int).first() == mounts@[i as int]@);
        }
        if mounts[i].device_path == *device_path {
            return Some(mounts[i].mount_point.clone());
        }
        proof {
            assert(mounts.deep_view().skip(i as int).drop_first() =~= mounts.deep_view().skip(
                i + 1,
            ));
        }
    }
    proof {
        assert(mounts.deep_view().skip(n as int) =~= Seq::<MountEntryView>::empty());
    }
    None
}

/// Only the entries a fill call reports as filled are ever interpreted: the
/// decoded snapshot depends on the first `filled` raw entries alone, so two
/// buffers that agree on those decode identically whatever the remainder of
/// either holds.
pub proof fn lemma_only_filled_entries_interpreted(
    b1: Seq<RawMountEntryView>,
    b2: Seq<RawMountEntryView>,
    filled: int,
)
    requires
        0 <= filled <= b1.len(),
        filled <= b2.len(),
        b1.take(filled) == b2.take(filled),
    ensures
        decoded_mounts(b1.take(filled)) == decoded_mounts(b2.take(filled)),
{
}

} // verus!
