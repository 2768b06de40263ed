use crate::video_format::{
    same_formats, sorted_has_no_duplicates, sorted_unique_formats, sorted_unique_is_canonical,
    strictly_sorted, VideoFormat,
};
use vstd::prelude::*;

verus! {

/// One capture device as callers see it: its identity, its names, and its
/// formats, each once and in order.
#[derive(Clone, Debug, PartialEq, Eq, Hash)]
pub struct VideoDevice {
    /// Identity of the device; the key under which its session is kept.
    pub index: u64,
    pub unique_id: String,
    pub model_id: String,
    pub name: String,
    pub formats: Vec<VideoFormat>,
}

/// What the backend reported of one device. `formats` is `None` where the
/// device could not be opened or did not tell its formats.
#[derive(Clone, Debug, PartialEq, Eq, Hash)]
pub struct DiscoveredDevice {
    pub index: u64,
    pub description: String,
    pub misc: String,
    pub human_name: String,
    pub formats: Option<Vec<VideoFormat>>,
}

/// The unique identifier of a device: the one the platform assigned, or the
/// description where it assigned none.
pub open spec fn unique_id_of(d: DiscoveredDevice) -> Seq<char> {
    if d.misc@.len() == 0 {
        d.description@
    } else {
        d.misc@
    }
}

/// `v` is the device descriptor made of the report `d`.
pub open spec fn describes(v: VideoDevice, d: DiscoveredDevice) -> bool {
    &&& d.formats is Some
    &&& v.index == d.index
    &&& v.model_id@ == d.description@
    &&& v.unique_id@ == unique_id_of(d)
    &&& v.name@ == d.human_name@
    &&& strictly_sorted(v.formats@)
    &&& same_formats(v.formats@, d.formats->0@)
}

/// The reports that lead to a descriptor: those with formats, in the order
/// reported.
pub open spec fn responsive(found: Seq<DiscoveredDevice>) -> Seq<DiscoveredDevice>
    decreases found.len(),
{
    if found.len() == 0 {
        Seq::empty()
    } else if found.last().formats is Some {
        responsive(found.drop_last()).push(found.last())
    } else {
        responsive(found.drop_last())
    }
}

/// `devices` is the list made of the reports `found`: one descriptor for each
/// report that has formats, in the same order.
pub open spec fn lists(devices: Seq<VideoDevice>, found: Seq<DiscoveredDevice>) -> bool {
    &&& devices.len() == responsive(found).len()
    &&& forall|k: int|
        0 <= k < devices.len() ==> describes(#[trigger] devices[k], responsive(found)[k])
}

/// Every device of the list has its formats sorted, each once.
pub open spec fn devices_well_formed(devices: Seq<VideoDevice>) -> bool {
    forall|k: int| 0 <= k < devices.len() ==> strictly_sorted((#[trigger] devices[k]).formats@)
}

/// Makes the descriptor of one reported device, or `None` where the report
/// has no formats.
pub fn describe_device(d: &DiscoveredDevice) -> (r: Option<VideoDevice>)
    ensures
        match r {
            Some(v) => describes(v, *d),
            None => d.formats is None,
        },
{
    match &d.formats {
        None => None,
        Some(found) => {
            let formats = sorted_unique_formats(found);
            let model_id = d.description.clone();
            let unique_id = if d.misc.as_str().is_empty() {
                d.description.clone()
            } else {
                d.misc.clone()
            };
            let name = d.human_name.clone();
            Some(VideoDevice { index: d.index, unique_id, model_id, name, formats })
        },
    }
}

/// Two descriptors made of reports with the same formats list the same
/// formats in the same order, however often and in whatever order the formats
/// were reported.
pub proof fn described_formats_agree(
    v1: VideoDevice,
    d1: DiscoveredDevice,
    v2: VideoDevice,
    d2: DiscoveredDevice,
)
    requires
        describes(v1, d1),
        describes(v2, d2),
        same_formats(d1.formats->0@, d2.formats->0@),
    ensures
        v1.formats@ == v2.formats@,
        v1.formats@.no_duplicates(),
{
    sorted_unique_is_canonical(v1.formats@, v2.formats@);
    sorted_has_no_duplicates(v1.formats@);
}

/// The two reports tell the same of a device's formats: both have formats or
/// neither has, and where they have, they have the same ones.
pub open spec fn same_report(a: DiscoveredDevice, b: DiscoveredDevice) -> bool {
    &&& (a.formats is Some) == (b.formats is Some)
    &&& a.formats is Some ==> same_formats(a.formats->0@, b.formats->0@)
}

/// The two runs of reports tell the same of each device's formats.
pub open spec fn same_reports(a: Seq<DiscoveredDevice>, b: Seq<DiscoveredDevice>) -> bool {
    &&& a.len() == b.len()
    &&& forall|k: int| 0 <= k < a.len() ==> same_report(#[trigger] a[k], b[k])
}

/// Of two runs of reports that tell the same, the reports that lead to a
/// descriptor stand at the same places and tell the same.
pub proof fn responsive_reports_agree(a: Seq<DiscoveredDevice>, b: Seq<DiscoveredDevice>)
    requires
        same_reports(a, b),
    ensures
        same_reports(responsive(a), responsive(b)),
    decreases a.len(),
{
    if a.len() > 0 {
        assert(same_report(a[a.len() - 1], b[a.len() - 1]));
        assert(same_reports(a.drop_last(), b.drop_last())) by {
            assert forall|k: int| 0 <= k < a.drop_last().len() implies same_report(
                #[trigger] a.drop_last()[k],
                b.drop_last()[k],
            ) by {
                assert(same_report(a[k], b[k]));
            }
        }
        responsive_reports_agree(a.drop_last(), b.drop_last());
    }
}

/// Listing twice while the devices stay as they are gives the same formats
/// for each device, in the same order and each once, whatever the order and
/// number in which the backend reported them.
pub proof fn listing_is_repeatable(
    first: Seq<DiscoveredDevice>,
    second: Seq<DiscoveredDevice>,
    devices1: Seq<VideoDevice>,
    devices2: Seq<VideoDevice>,
)
    requires
        same_reports(first, second),
        lists(devices1, first),
        lists(devices2, second),
    ensures
        devices1.len() == devices2.len(),
        forall|k: int|
            0 <= k < devices1.len() ==> (#[trigger] devices1[k]).formats@ == devices2[k].formats@,
        forall|k: int| 0 <= k < devices1.len() ==> (#[trigger] devices1[k]).formats@.no_duplicates(),
{
    responsive_reports_agree(first, second);
    let r1 = responsive(first);
    let r2 = responsive(second);
    assert forall|k: int| 0 <= k < devices1.len() implies (#[trigger] devices1[k]).formats@
        == devices2[k].formats@ && devices1[k].formats@.no_duplicates() by {
        assert(same_report(r1[k], r2[k]));
        assert(describes(devices1[k], r1[k]));
        assert(describes(devices2[k], r2[k]));
        described_formats_agree(devices1[k], r1[k], devices2[k], r2[k]);
    }
}

/// Makes the device list of what the backend reported. A device without
/// formats is left out; it is no error.
pub fn list_devices(found: &Vec<DiscoveredDevice>) -> (devices: Vec<VideoDevice>)
    ensures
        lists(devices@, found@),
        devices_well_formed(devices@),
{
    let mut devices: Vec<VideoDevice> = Vec::new();
    let mut i: usize = 0;
    while i < found.len()
        invariant
            i <= found.len(),
            lists(devices@, found@.take(i as int)),
        decreases found.len() - i,
    {
        let ghost head = found@.take(i as int);
        let ghost next = found@.take(i + 1);
        proof {
            assert(next.drop_last() == head);
            assert(next.last() == found@[i as int]);
        }
        match describe_device(&found[i]) {
            Some(v) => {
                devices.push(v);
                assert(responsive(next) == responsive(head).push(found@[i as int]));
            },
            None => {
                assert(responsive(next) == responsive(head));
            },
        }
        i += 1;
    }
    proof {
        assert(found@.take(i as int) == found@);
    }
    devices
}

} // verus!
