//! Device locator: picks the peripheral out of a snapshot of attached devices.
use vstd::prelude::*;
use crate::descriptor::{AttachedDevice, InterfaceId, PeripheralDescriptor};

verus! {

/// Some device of the snapshot carries `id`.
pub open spec fn has_match(devices: Seq<AttachedDevice>, id: InterfaceId) -> bool {
    exists|i: int| 0 <= i < devices.len() && id.identifies(#[trigger] devices[i])
}

/// `i` is the position of the first device of the snapshot that carries `id`.
pub open spec fn is_first_match(devices: Seq<AttachedDevice>, id: InterfaceId, i: int) -> bool {
    &&& 0 <= i < devices.len()
    &&& id.identifies(devices[i])
    &&& forall|j: int| 0 <= j < i ==> !id.identifies(#[trigger] devices[j])
}

/// Position of the first device that carries `id`, if there is one.
pub open spec fn first_match(devices: Seq<AttachedDevice>, id: InterfaceId) -> Option<int> {
    if has_match(devices, id) {
        Some(choose|i: int| is_first_match(devices, id, i))
    } else {
        None
    }
}

/// The device that the locator selects: the first wired match, else the
/// first wireless match, else none.
pub open spec fn located(devices: Seq<AttachedDevice>, descriptor: PeripheralDescriptor) -> Option<
    int,
> {
    match first_match(devices, descriptor.wired) {
        Some(i) => Some(i),
        None => first_match(devices, descriptor.wireless),
    }
}

/// A first match is the only one, and it is what `first_match` names.
pub proof fn lemma_first_match_is(devices: Seq<AttachedDevice>, id: InterfaceId, i: int)
    requires
        is_first_match(devices, id, i),
    ensures
        has_match(devices, id),
        first_match(devices, id) == Some(i),
{
    let k = choose|k: int| is_first_match(devices, id, k);
    assert(is_first_match(devices, id, k));
    if k < i {
        assert(!id.identifies(devices[k]));
    } else if i < k {
        assert(!id.identifies(devices[i]));
    }
}

/// Wherever some device carries `id`, one of them is the first.
pub proof fn lemma_first_match_exists(devices: Seq<AttachedDevice>, id: InterfaceId, i: int)
    requires
        0 <= i < devices.len(),
        id.identifies(devices[i]),
    ensures
        first_match(devices, id) is Some,
        is_first_match(devices, id, first_match(devices, id).unwrap()),
        first_match(devices, id).unwrap() <= i,
    decreases i,
{
    if exists|j: int| 0 <= j < i && id.identifies(#[trigger] devices[j]) {
        let j = choose|j: int| 0 <= j < i && id.identifies(#[trigger] devices[j]);
        lemma_first_match_exists(devices, id, j);
    } else {
        assert(is_first_match(devices, id, i));
        lemma_first_match_is(devices, id, i);
    }
}

/// Position of the first device of `devices` that carries `id`.
pub fn find_first(devices: &[AttachedDevice], id: &InterfaceId) -> (found: Option<usize>)
    ensures
        match found {
            Some(i) => first_match(devices@, *id) == Some(i as int) && is_first_match(
                devices@,
                *id,
                i as int,
            ),
            None => first_match(devices@, *id) is None,
        },
{
    let mut i: usize = 0;
    while i < devices.len()
        invariant
            i <= devices.len(),
            forall|j: int| 0 <= j < i ==> !id.identifies(#[trigger] devices@[j]),
        decreases devices.len() - i,
    {
        if id.is_id_of(&devices[i]) {
            proof {
                lemma_first_match_is(devices@, *id, i as int);
            }
            return Some(i);
        }
        i += 1;
    }
    None
}

/// Selects the peripheral among `devices`: the first device with the wired
/// identifier, or, when no device has it, the first with the wireless one.
/// `None` says that the peripheral is not attached.
pub fn locate(devices: &[AttachedDevice], descriptor: &PeripheralDescriptor) -> (found: Option<
    usize,
>)
    ensures
        match found {
            Some(i) => located(devices@, *descriptor) == Some(i as int),
            None => located(devices@, *descriptor) is None,
        },
        found matches Some(i) ==> i < devices@.len(),
{
    match find_first(devices, &descriptor.wired) {
        Some(i) => Some(i),
        None => find_first(devices, &descriptor.wireless),
    }
}

/// With a wired and a wireless variant attached at once, the locator selects
/// a wired one: the first in the order of the snapshot.
pub proof fn law_wired_preferred(devices: Seq<AttachedDevice>, descriptor: PeripheralDescriptor)
    requires
        has_match(devices, descriptor.wired),
        has_match(devices, descriptor.wireless),
    ensures
        located(devices, descriptor) is Some,
        is_first_match(devices, descriptor.wired, located(devices, descriptor).unwrap()),
        descriptor.wired.identifies(devices[located(devices, descriptor).unwrap()]),
{
    let w = choose|i: int| 0 <= i < devices.len() && descriptor.wired.identifies(#[trigger] devices[i]);
    lemma_first_match_exists(devices, descriptor.wired, w);
}

/// With only a wireless variant attached, the locator selects it: the first
/// in the order of the snapshot.
pub proof fn law_wireless_fallback(devices: Seq<AttachedDevice>, descriptor: PeripheralDescriptor)
    requires
        !has_match(devices, descriptor.wired),
        has_match(devices, descriptor.wireless),
    ensures
        located(devices, descriptor) is Some,
        is_first_match(devices, descriptor.wireless, located(devices, descriptor).unwrap()),
        descriptor.wireless.identifies(devices[located(devices, descriptor).unwrap()]),
{
    let f = choose|i: int|
        0 <= i < devices.len() && descriptor.wireless.identifies(#[trigger] devices[i]);
    lemma_first_match_exists(devices, descriptor.wireless, f);
}

/// With neither variant attached, the locator finds nothing; and it finds
/// nothing only then.
pub proof fn law_absent_not_found(devices: Seq<AttachedDevice>, descriptor: PeripheralDescriptor)
    ensures
        located(devices, descriptor) is None <==> !has_match(devices, descriptor.wired)
            && !has_match(devices, descriptor.wireless),
{
}

/// Whatever the locator selects is a position of the snapshot and carries
/// one of the two identifiers.
pub proof fn law_located_is_attached(devices: Seq<AttachedDevice>, descriptor: PeripheralDescriptor)
    requires
        located(devices, descriptor) is Some,
    ensures
        0 <= located(devices, descriptor).unwrap() < devices.len(),
        descriptor.wired.identifies(devices[located(devices, descriptor).unwrap()])
            || descriptor.wireless.identifies(devices[located(devices, descriptor).unwrap()]),
{
    if has_match(devices, descriptor.wired) {
        let w = choose|i: int|
            0 <= i < devices.len() && descriptor.wired.identifies(#[trigger] devices[i]);
        lemma_first_match_exists(devices, descriptor.wired, w);
    } else {
        let f = choose|i: int|
            0 <= i < devices.len() && descriptor.wireless.identifies(#[trigger] devices[i]);
        lemma_first_match_exists(devices, descriptor.wireless, f);
    }
}

} // verus!
