use vstd::prelude::*;

verus! {

/// Where an enumerated device sits on the host: its bus number and its address
/// on that bus.
#[derive(Clone, Copy, Debug, PartialEq, Eq, Structural)]
pub struct DeviceRef {
    pub bus: u8,
    pub address: u8,
}

/// A device is probed when no filter is given, or when it sits at the filter's
/// `(bus, address)`.
pub open spec fn is_selected(d: DeviceRef, filter: Option<(u8, u8)>) -> bool {
    match filter {
        None => true,
        Some((bus, address)) => d.bus == bus && d.address == address,
    }
}

/// The indices of `devices` that `r` lists, in enumeration order and without
/// repetition, are exactly those of the selected devices.
pub open spec fn is_selection(devices: Seq<DeviceRef>, filter: Option<(u8, u8)>, r: Seq<usize>) -> bool {
    &&& forall|j: int| 0 <= j < r.len() ==> #[trigger] r[j] < devices.len()
    &&& forall|j: int| 0 <= j < r.len() ==> is_selected(devices[#[trigger] r[j] as int], filter)
    &&& forall|j1: int, j2: int| 0 <= j1 < j2 < r.len() ==> #[trigger] r[j1] < #[trigger] r[j2]
    &&& forall|i: int|
        0 <= i < devices.len() && is_selected(#[trigger] devices[i], filter) ==> exists|j: int|
            0 <= j < r.len() && r[j] == i
}

pub fn matches_filter(d: &DeviceRef, filter: Option<(u8, u8)>) -> (r: bool)
    ensures
        r == is_selected(*d, filter),
{
    match filter {
        None => true,
        Some((bus, address)) => d.bus == bus && d.address == address,
    }
}

/// The devices to probe, as indices into the enumerated list: all of them
/// without a filter, the ones at the filter's bus and address with one.
pub fn select_devices(devices: &Vec<DeviceRef>, filter: Option<(u8, u8)>) -> (r: Vec<usize>)
    ensures
        is_selection(devices@, filter, r@),
{
    let mut r: Vec<usize> = Vec::new();
    let mut i: usize = 0;
    while i < devices.len()
        invariant
            i <= devices.len(),
            forall|j: int| 0 <= j < r.len() ==> #[trigger] r@[j] < i,
            forall|j: int| 0 <= j < r.len() ==> is_selected(devices@[#[trigger] r@[j] as int], filter),
            forall|j1: int, j2: int| 0 <= j1 < j2 < r.len() ==> #[trigger] r@[j1] < #[trigger] r@[j2],
            forall|k: int|
                0 <= k < i && is_selected(#[trigger] devices@[k], filter) ==> exists|j: int|
                    0 <= j < r.len() && r@[j] == k,
        decreases devices.len() - i,
    {
        let ghost before = r@;
        if matches_filter(&devices[i], filter) {
            r.push(i);
        }
        assert forall|k: int|
            0 <= k <= i && is_selected(#[trigger] devices@[k], filter) implies exists|j: int|
                0 <= j < r.len() && r@[j] == k by {
            if k < i {
                let j = choose|j: int| 0 <= j < before.len() && before[j] == k;
                assert(r@[j] == k);
            } else {
                assert(r@[r.len() - 1] == k);
            }
        }
        i = i + 1;
    }
    r
}

} // verus!
