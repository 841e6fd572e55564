//! The registry side of device discovery: turning the raw per-device
//! property fetches of the hardware-registry walk into device records.
//!
//! The walk itself crosses into a platform-owned object graph and stays
//! outside the library; for each matched service it hands back the five
//! properties it searched for, each possibly absent. A record is emitted
//! only when all five resolved and the numeric identifiers fit their types;
//! a partial candidate is dropped silently, never surfaced.

use vstd::prelude::*;

verus! {

/// The properties fetched for one matched registry service, each `None` when
/// the subtree search did not resolve it.
#[derive(Debug, Clone)]
pub struct PropertySet {
    pub device_node_name: Option<String>,
    pub vendor_id: Option<i32>,
    pub vendor_name: Option<String>,
    pub product_id: Option<i32>,
    pub product_name: Option<String>,
}

/// Mathematical model of a [`PropertySet`].
pub ghost struct PropertySetView {
    pub device_node_name: Option<Seq<char>>,
    pub vendor_id: Option<i32>,
    pub vendor_name: Option<Seq<char>>,
    pub product_id: Option<i32>,
    pub product_name: Option<Seq<char>>,
}

impl View for PropertySet {
    type V = PropertySetView;

    open spec fn view(&self) -> PropertySetView {
        PropertySetView {
            device_node_name: self.device_node_name.deep_view(),
            vendor_id: self.vendor_id,
            vendor_name: self.vendor_name.deep_view(),
            product_id: self.product_id,
            product_name: self.product_name.deep_view(),
        }
    }
}

impl DeepView for PropertySet {
    type V = PropertySetView;

    open spec fn deep_view(&self) -> PropertySetView {
        self@
    }
}

/// One enumerated device: the identity of a storage-class USB device as the
/// registry reports it. Ephemeral; produced fresh on every enumeration.
#[derive(Debug, Clone)]
pub struct DeviceRecord {
    pub device_node_name: String,
    pub vendor_id: u16,
    pub vendor_name: String,
    pub product_id: u16,
    pub product_name: String,
}

/// Mathematical model of a [`DeviceRecord`].
pub ghost struct DeviceRecordView {
    pub device_node_name: Seq<char>,
    pub vendor_id: u16,
    pub vendor_name: Seq<char>,
    pub product_id: u16,
    pub product_name: Seq<char>,
}

impl View for DeviceRecord {
    type V = DeviceRecordView;

    open spec fn view(&self) -> DeviceRecordView {
        DeviceRecordView {
            device_node_name: self.device_node_name@,
            vendor_id: self.vendor_id,
            vendor_name: self.vendor_name@,
            product_id: self.product_id,
            product_name: self.product_name@,
        }
    }
}

impl DeepView for DeviceRecord {
    type V = DeviceRecordView;

    open spec fn deep_view(&self) -> DeviceRecordView {
        self@
    }
}

/// Whether all five required properties of a candidate resolved.
pub open spec fn candidate_complete(p: PropertySetView) -> bool {
    &&& p.device_node_name is Some
    &&& p.vendor_id is Some
    &&& p.vendor_name is Some
    &&& p.product_id is Some
    &&& p.product_name is Some
}

/// Whether the candidate's numeric identifiers convert to their record types.
pub open spec fn candidate_ids_fit(p: PropertySetView) -> bool {
    &&& p.vendor_id matches Some(v) && 0 <= v <= u16::MAX
    &&& p.product_id matches Some(v) && 0 <= v <= u16::MAX
}

/// The record a candidate yields: one exactly when all five properties
/// resolved and both identifiers fit, nothing otherwise.
pub open spec fn record_of(p: PropertySetView) -> Option<DeviceRecordView> {
    if candidate_complete(p) && candidate_ids_fit(p) {
        Some(
            DeviceRecordView {
                device_node_name: p.device_node_name->Some_0,
                vendor_id: p.vendor_id->Some_0 as u16,
                vendor_name: p.vendor_name->Some_0,
                product_id: p.product_id->Some_0 as u16,
                product_name: p.product_name->Some_0,
            },
        )
    } else {
        None
    }
}

/// The records an enumeration emits for a sequence of candidates, in walk
/// order; incomplete candidates contribute nothing.
pub open spec fn records_of(candidates: Seq<PropertySetView>) -> Seq<DeviceRecordView>
    decreases candidates.len(),
{
    if candidates.len() == 0 {
        Seq::empty()
    } else {
        records_of(candidates.drop_last()) + match record_of(candidates.last()) {
            Some(r) => seq![r],
            None => Seq::empty(),
        }
    }
}

/// Builds the record of one candidate; `None` exactly when a property is
/// missing or an identifier does not fit.
pub fn make_record(p: &PropertySet) -> (r: Option<DeviceRecord>)
    ensures
        r.deep_view() == record_of(p@),
{
    match (&p.device_node_name, p.vendor_id, &p.vendor_name, p.product_id, &p.product_name) {
        (Some(node), Some(vid), Some(vname), Some(pid), Some(pname)) => {
            if 0 <= vid && vid <= u16::MAX as i32 && 0 <= pid && pid <= u16::MAX as i32 {
                Some(
                    DeviceRecord {
                        device_node_name: node.clone(),
                        vendor_id: vid as u16,
                        vendor_name: vname.clone(),
                        product_id: pid as u16,
                        product_name: pname.clone(),
                    },
                )
            } else {
                None
            }
        },
        _ => None,
    }
}

/// The records of a whole walk: each candidate's properties decided in walk
/// order, partial candidates dropped.
#[verifier::loop_isolation(false)]
pub fn collect_records(candidates: Vec<PropertySet>) -> (r: Vec<DeviceRecord>)
    ensures
        r.deep_view() == records_of(candidates.deep_view()),
{
    let mut out: Vec<DeviceRecord> = Vec::new();
    proof {
        assert(out.deep_view() =~= records_of(candidates.deep_view().take(0)));
    }
    let n = candidates.len();
    for i in 0..n
        invariant
            out.deep_view() == records_of(candidates.deep_view().take(i as int)),
    {
        let ghost prev = out.deep_view();
        match make_record(&candidates[i]) {
            Some(record) => {
                let ghost rv = record@;
                out.push(record);
                proof {
                    assert(out.deep_view() =~= prev.push(rv));
                }
            },
            None => {},
        }
        proof {
            assert(candidates.deep_view().take(i + 1).drop_last() =~= candidates.deep_view().take(
                i as int,
            ));
            assert(candidates.deep_view().take(i + 1).last() == candidates@[i as int]@);
            assert(out.deep_view() =~= records_of(candidates.deep_view().take(i + 1)));
        }
    }
    proof {
        assert(candidates.deep_view().take(n as int) =~= candidates.deep_view());
    }
    out
}

/// A candidate missing any of its five required properties never appears in
/// an enumeration's output: appended to any walk, it leaves the emitted
/// records unchanged.
pub proof fn lemma_partial_candidate_never_emitted(
    walk: Seq<PropertySetView>,
    p: PropertySetView,
)
    requires
        !candidate_complete(p),
    ensures
        record_of(p) is None,
        records_of(walk.push(p)) == records_of(walk),
{
    assert(walk.push(p).drop_last() =~= walk);
    assert(records_of(walk.push(p)) =~= records_of(walk));
}

/// Every emitted record is the record of some candidate whose five
/// properties all resolved: nothing in an enumeration's output comes from a
/// partial candidate.
pub proof fn lemma_every_record_from_complete_candidate(walk: Seq<PropertySetView>, k: int)
    requires
        0 <= k < records_of(walk).len(),
    ensures
        exists|j: int|
            0 <= j < walk.len() && candidate_complete(#[trigger] walk[j]) && record_of(walk[j])
                == Some(records_of(walk)[k]),
    decreases walk.len(),
{
    let prefix = records_of(walk.drop_last());
    if k < prefix.len() {
        lemma_every_record_from_complete_candidate(walk.drop_last(), k);
        let j = choose|j: int|
            0 <= j < walk.drop_last().len() && candidate_complete(#[trigger] walk.drop_last()[j])
                && record_of(walk.drop_last()[j]) == Some(records_of(walk.drop_last())[k]);
        assert(walk[j] == walk.drop_last()[j]);
        assert(records_of(walk)[k] == prefix[k]);
    } else {
        assert(record_of(walk.last()) is Some);
        let j = walk.len() - 1;
        assert(walk[j] == walk.last());
        assert(records_of(walk)[k] == record_of(walk.last())->Some_0);
    }
}

} // verus!
