//! Locating the first device of a given identity that can be opened.

use vstd::prelude::*;

verus! {

/// The identifying fields of a device descriptor: the vendor/product pair.
#[derive(Clone, Copy, PartialEq, Eq, Structural, Debug)]
pub struct Descriptor {
    pub vendor_id: u16,
    pub product_id: u16,
}

impl Descriptor {
    /// Whether this descriptor carries the target vendor/product identity.
    pub fn matches(&self, vendor_id: u16, product_id: u16) -> (r: bool)
        ensures
            r == (self.vendor_id == vendor_id && self.product_id == product_id),
    {
        self.vendor_id == vendor_id && self.product_id == product_id
    }
}

/// What the scan observes of one enumerated device: the outcome of reading its
/// descriptor (`None` when the read fails), and whether an attempt to open the
/// device would succeed.
#[derive(Clone, Copy, PartialEq, Eq, Structural, Debug)]
pub struct DeviceProbe {
    pub descriptor: Option<Descriptor>,
    pub opens: bool,
}

/// Whether a descriptor read outcome carries the target identity. A failed
/// read never matches: such a device is skipped, not fatal.
pub open spec fn descriptor_matches(d: Option<Descriptor>, vendor_id: u16, product_id: u16) -> bool {
    d is Some && d->0.vendor_id == vendor_id && d->0.product_id == product_id
}

/// Whether the scan would stop at this device: its descriptor was read, it
/// carries the target identity, and opening it succeeds.
pub open spec fn probe_selected(p: DeviceProbe, vendor_id: u16, product_id: u16) -> bool {
    descriptor_matches(p.descriptor, vendor_id, product_id) && p.opens
}

/// What `locate` promises of its result `r` on the probe sequence `probes`:
/// `r` is the index of the first device that matches the target identity and
/// opens, or `None` when there is no such device.
pub open spec fn locate_post(
    probes: Seq<DeviceProbe>,
    vendor_id: u16,
    product_id: u16,
    r: Option<usize>,
) -> bool {
    match r {
        Some(i) => i < probes.len() && probe_selected(probes[i as int], vendor_id, product_id)
            && (forall|j: int|
            0 <= j < i ==> !probe_selected(probes[j], vendor_id, product_id)),
        None => forall|j: int|
            0 <= j < probes.len() ==> !probe_selected(probes[j], vendor_id, product_id),
    }
}

/// The per-device decision of the scan: try to open exactly when the
/// descriptor read succeeded and reported the target identity.
pub fn should_try_open(descriptor: &Option<Descriptor>, vendor_id: u16, product_id: u16) -> (r: bool)
    ensures
        r == descriptor_matches(*descriptor, vendor_id, product_id),
{
    match descriptor {
        Some(d) => d.matches(vendor_id, product_id),
        None => false,
    }
}

/// Scans the probe outcomes in enumeration order and returns the index of the
/// first device that matches the target identity and opens successfully;
/// devices whose descriptor read fails, whose identity differs, or whose open
/// fails are skipped and the scan continues.
pub fn locate(probes: &Vec<DeviceProbe>, vendor_id: u16, product_id: u16) -> (r: Option<usize>)
    ensures
        locate_post(probes@, vendor_id, product_id, r),
{
    let mut i: usize = 0;
    while i < probes.len()
        invariant
            i <= probes@.len(),
            forall|j: int| 0 <= j < i ==> !probe_selected(probes@[j], vendor_id, product_id),
        decreases probes@.len() - i,
    {
        let p = probes[i];
        if should_try_open(&p.descriptor, vendor_id, product_id) && p.opens {
            return Some(i);
        }
        i = i + 1;
    }
    None
}

/// The locator's treatment of the enumeration outcome: a failed enumeration
/// (`None`) is answered with "not found", indistinguishable from a list
/// holding no usable device; otherwise the list is scanned in order.
pub fn locate_from_enumeration(
    enumeration: &Option<Vec<DeviceProbe>>,
    vendor_id: u16,
    product_id: u16,
) -> (r: Option<usize>)
    ensures
        match *enumeration {
            None => r is None,
            Some(probes) => locate_post(probes@, vendor_id, product_id, r),
        },
{
    match enumeration {
        Some(probes) => locate(probes, vendor_id, product_id),
        None => None,
    }
}

/// If no device in the list both matches the target identity and opens, the
/// locator returns `None`.
pub proof fn lemma_locate_none_without_selected(
    probes: Seq<DeviceProbe>,
    vendor_id: u16,
    product_id: u16,
    r: Option<usize>,
)
    requires
        locate_post(probes, vendor_id, product_id, r),
        forall|j: int| 0 <= j < probes.len() ==> !probe_selected(probes[j], vendor_id, product_id),
    ensures
        r is None,
{
}

/// If exactly one device in the list matches the target identity and opens,
/// the locator returns exactly that device.
pub proof fn lemma_locate_unique_selected(
    probes: Seq<DeviceProbe>,
    vendor_id: u16,
    product_id: u16,
    r: Option<usize>,
    i: usize,
)
    requires
        locate_post(probes, vendor_id, product_id, r),
        i < probes.len(),
        probe_selected(probes[i as int], vendor_id, product_id),
        forall|j: int|
            0 <= j < probes.len() && j != i ==> !probe_selected(probes[j], vendor_id, product_id),
    ensures
        r == Some(i),
{
    assert(r is Some);
}

/// Skip and continue: when an earlier device matches the target identity but
/// fails to open, and the first device that both matches and opens stands
/// later in the list, the locator returns that later device.
pub proof fn lemma_locate_skips_failed_open(
    probes: Seq<DeviceProbe>,
    vendor_id: u16,
    product_id: u16,
    r: Option<usize>,
    i: usize,
    k: usize,
)
    requires
        locate_post(probes, vendor_id, product_id, r),
        i < k < probes.len(),
        descriptor_matches(probes[i as int].descriptor, vendor_id, product_id),
        !probes[i as int].opens,
        probe_selected(probes[k as int], vendor_id, product_id),
        forall|j: int| 0 <= j < k ==> !probe_selected(probes[j], vendor_id, product_id),
    ensures
        r == Some(k),
{
    assert(r is Some);
}

} // verus!
