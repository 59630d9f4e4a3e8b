use crate::controllers::exchange::{lemma_picked_members, picked, Answer, Event, FromEvent};
use crate::controllers::plan::{item_outcome, list_outcome, no_such_device};
use crate::controllers::sink_controller::SimpleSinkDevice;
use crate::controllers::types::DeviceInfo;
use crate::errors::{ErrorView, PulseCtlErrorType};
use vstd::prelude::*;

verus! {

/// What is delivered to a request for all devices, by a server that holds
/// `devices`: each of them, and no other device.
pub open spec fn answers_listing(delivered: Seq<Event>, devices: Seq<DeviceInfo>) -> bool {
    forall|d: DeviceInfo| #[trigger] delivered.contains(Event::Device(d)) <==> devices.contains(d)
}

/// What is delivered to a request for the device with this index, by a
/// server that holds `devices`: each of them that has the index, and no
/// other device.
pub open spec fn answers_lookup(delivered: Seq<Event>, devices: Seq<DeviceInfo>, index: u32) -> bool {
    forall|d: DeviceInfo| #[trigger]
        delivered.contains(Event::Device(d)) <==> devices.contains(d) && d.index == index
}

/// No two of the devices have the same index.
pub open spec fn one_per_index(devices: Seq<DeviceInfo>) -> bool {
    forall|a: DeviceInfo, b: DeviceInfo|
        #![trigger devices.contains(a), devices.contains(b)]
        devices.contains(a) && devices.contains(b) && a.index == b.index ==> a == b
}

/// What a request by index yields lies in what the listing yields and has
/// the index asked for; and what the listing yields under that index, the
/// request by index yields too.
proof fn lemma_lookup_within_listing<T: FromEvent>(
    index_of: spec_fn(T) -> u32,
    devices: Seq<DeviceInfo>,
    listing: Seq<Event>,
    reply: Seq<Event>,
    index: u32,
)
    requires
        forall|e: Event| #[trigger]
            T::accepted(e) matches Some(x) ==> (e matches Event::Device(d) && index_of(x)
                == d.index),
        answers_listing(listing, devices),
        answers_lookup(reply, devices, index),
    ensures
        forall|y: T| #[trigger]
            picked::<T>(reply).contains(y) ==> index_of(y) == index && picked::<T>(
                listing,
            ).contains(y),
        forall|x: T|
            picked::<T>(listing).contains(x) && index_of(x) == index ==> #[trigger] picked::<T>(
                reply,
            ).contains(x),
{
    lemma_picked_members::<T>(listing);
    lemma_picked_members::<T>(reply);
    assert forall|y: T| #[trigger] picked::<T>(reply).contains(y) implies index_of(y) == index
        && picked::<T>(listing).contains(y) by {
        let j = choose|j: int| 0 <= j < reply.len() && T::accepted(#[trigger] reply[j]) == Some(y);
        let d = reply[j]->Device_0;
        assert(reply.contains(Event::Device(d)));
        assert(listing.contains(Event::Device(d)));
        let i = choose|i: int| 0 <= i < listing.len() && listing[i] == Event::Device(d);
        assert(T::accepted(listing[i]) == Some(y));
    }
    assert forall|x: T|
        picked::<T>(listing).contains(x) && index_of(x) == index implies #[trigger] picked::<T>(
        reply,
    ).contains(x) by {
        let j = choose|j: int|
            0 <= j < listing.len() && T::accepted(#[trigger] listing[j]) == Some(x);
        let d = listing[j]->Device_0;
        assert(listing.contains(Event::Device(d)));
        assert(reply.contains(Event::Device(d)));
        let i = choose|i: int| 0 <= i < reply.len() && reply[i] == Event::Device(d);
        assert(T::accepted(reply[i]) == Some(x));
    }
}

proof fn lemma_listed_is_found<T: FromEvent>(
    index_of: spec_fn(T) -> u32,
    devices: Seq<DeviceInfo>,
    listing: Answer,
    reply: Answer,
    k: int,
)
    requires
        forall|e: Event| #[trigger]
            T::accepted(e) matches Some(x) ==> (e matches Event::Device(d) && index_of(x)
                == d.index),
        listing.waited is Ok,
        reply.waited is Ok,
        answers_listing(listing.delivered@, devices),
        0 <= k < picked::<T>(listing.delivered@).len(),
        answers_lookup(
            reply.delivered@,
            devices,
            index_of(picked::<T>(listing.delivered@)[k]),
        ),
    ensures
        item_outcome::<T>(reply, no_such_device()) matches Ok(found) && index_of(found)
            == index_of(picked::<T>(listing.delivered@)[k]),
        one_per_index(devices) ==> item_outcome::<T>(reply, no_such_device()) == Ok::<
            T,
            ErrorView,
        >(picked::<T>(listing.delivered@)[k]),
{
    let listed = picked::<T>(listing.delivered@);
    let got = picked::<T>(reply.delivered@);
    let index = index_of(listed[k]);
    lemma_lookup_within_listing::<T>(index_of, devices, listing.delivered@, reply.delivered@, index);
    assert(listed.contains(listed[k]));
    assert(got.contains(listed[k]));
    assert(got.contains(got.last()));
    if one_per_index(devices) {
        lemma_picked_members::<T>(listing.delivered@);
        lemma_picked_members::<T>(reply.delivered@);
        let i = choose|i: int|
            0 <= i < listing.delivered@.len() && T::accepted(#[trigger] listing.delivered@[i])
                == Some(listed[k]);
        let j = choose|j: int|
            0 <= j < reply.delivered@.len() && T::accepted(#[trigger] reply.delivered@[j]) == Some(
                got.last(),
            );
        let a = listing.delivered@[i]->Device_0;
        let b = reply.delivered@[j]->Device_0;
        assert(listing.delivered@.contains(Event::Device(a)));
        assert(reply.delivered@.contains(Event::Device(b)));
        assert(devices.contains(a) && devices.contains(b));
        assert(a.index == index && b.index == index);
        assert(a == b);
    }
}

proof fn lemma_unlisted_is_not_found<T: FromEvent>(
    index_of: spec_fn(T) -> u32,
    devices: Seq<DeviceInfo>,
    listing: Answer,
    reply: Answer,
    index: u32,
)
    requires
        forall|e: Event| #[trigger]
            T::accepted(e) matches Some(x) ==> (e matches Event::Device(d) && index_of(x)
                == d.index),
        listing.waited is Ok,
        reply.waited is Ok,
        answers_listing(listing.delivered@, devices),
        answers_lookup(reply.delivered@, devices, index),
        forall|k: int|
            0 <= k < picked::<T>(listing.delivered@).len() ==> index_of(
                #[trigger] picked::<T>(listing.delivered@)[k],
            ) != index,
    ensures
        item_outcome::<T>(reply, no_such_device()) == Err::<T, ErrorView>(no_such_device()),
{
    let listed = picked::<T>(listing.delivered@);
    let got = picked::<T>(reply.delivered@);
    lemma_lookup_within_listing::<T>(index_of, devices, listing.delivered@, reply.delivered@, index);
    if got.len() > 0 {
        assert(got.contains(got[0]));
        assert(listed.contains(got[0]));
        let k = choose|k: int| 0 <= k < listed.len() && listed[k] == got[0];
        assert(index_of(listed[k]) != index);
    }
}

/// Of capture devices: a device that `list_devices` has shown is found by
/// `get_device_by_index` under its index, and what is found has that index;
/// on a server that answers both requests from the same devices. Where the
/// server holds no two devices under one index, what is found is the device
/// that was shown.
pub proof fn lemma_listed_source_is_found(
    devices: Seq<DeviceInfo>,
    listing: Answer,
    listed: Seq<DeviceInfo>,
    reply: Answer,
    k: int,
)
    requires
        answers_listing(listing.delivered@, devices),
        list_outcome::<DeviceInfo>(listing) == Ok::<Seq<DeviceInfo>, ErrorView>(listed),
        0 <= k < listed.len(),
        answers_lookup(reply.delivered@, devices, listed[k].index),
        reply.waited is Ok,
    ensures
        item_outcome::<DeviceInfo>(reply, no_such_device()) matches Ok(found) && found.index
            == listed[k].index,
        one_per_index(devices) ==> item_outcome::<DeviceInfo>(reply, no_such_device()) == Ok::<
            DeviceInfo,
            ErrorView,
        >(listed[k]),
{
    lemma_listed_is_found::<DeviceInfo>(|x: DeviceInfo| x.index, devices, listing, reply, k);
}

/// Of playback devices: a device that `list_devices` has shown is found by
/// `get_device_by_index` under its index, and what is found has that index;
/// on a server that answers both requests from the same devices. Where the
/// server holds no two devices under one index, what is found is the device
/// that was shown.
pub proof fn lemma_listed_sink_is_found(
    devices: Seq<DeviceInfo>,
    listing: Answer,
    listed: Seq<SimpleSinkDevice>,
    reply: Answer,
    k: int,
)
    requires
        answers_listing(listing.delivered@, devices),
        list_outcome::<SimpleSinkDevice>(listing) == Ok::<Seq<SimpleSinkDevice>, ErrorView>(listed),
        0 <= k < listed.len(),
        answers_lookup(reply.delivered@, devices, listed[k].index),
        reply.waited is Ok,
    ensures
        item_outcome::<SimpleSinkDevice>(reply, no_such_device()) matches Ok(found) && found.index
            == listed[k].index,
        one_per_index(devices) ==> item_outcome::<SimpleSinkDevice>(reply, no_such_device()) == Ok::<
            SimpleSinkDevice,
            ErrorView,
        >(listed[k]),
{
    lemma_listed_is_found::<SimpleSinkDevice>(|x: SimpleSinkDevice| x.index, devices, listing, reply, k);
}

/// Of capture devices: an index that `list_devices` has shown no device
/// under is answered by `get_device_by_index` with `NotFound`, although the
/// wait went well; on a server that answers both requests from the same
/// devices.
pub proof fn lemma_unlisted_source_is_not_found(
    devices: Seq<DeviceInfo>,
    listing: Answer,
    listed: Seq<DeviceInfo>,
    reply: Answer,
    index: u32,
)
    requires
        answers_listing(listing.delivered@, devices),
        list_outcome::<DeviceInfo>(listing) == Ok::<Seq<DeviceInfo>, ErrorView>(listed),
        forall|k: int| 0 <= k < listed.len() ==> (#[trigger] listed[k]).index != index,
        answers_lookup(reply.delivered@, devices, index),
        reply.waited is Ok,
    ensures
        item_outcome::<DeviceInfo>(reply, no_such_device()) matches Err(error) && error.kind
            == PulseCtlErrorType::NotFound,
{
    let index_of = |x: DeviceInfo| x.index;
    assert forall|k: int| 0 <= k < listed.len() implies index_of(#[trigger] listed[k])
        != index by {
        assert(listed[k].index != index);
    }
    lemma_unlisted_is_not_found::<DeviceInfo>(index_of, devices, listing, reply, index);
}

/// Of playback devices: an index that `list_devices` has shown no device
/// under is answered by `get_device_by_index` with `NotFound`, although the
/// wait went well; on a server that answers both requests from the same
/// devices.
pub proof fn lemma_unlisted_sink_is_not_found(
    devices: Seq<DeviceInfo>,
    listing: Answer,
    listed: Seq<SimpleSinkDevice>,
    reply: Answer,
    index: u32,
)
    requires
        answers_listing(listing.delivered@, devices),
        list_outcome::<SimpleSinkDevice>(listing) == Ok::<Seq<SimpleSinkDevice>, ErrorView>(listed),
        forall|k: int| 0 <= k < listed.len() ==> (#[trigger] listed[k]).index != index,
        answers_lookup(reply.delivered@, devices, index),
        reply.waited is Ok,
    ensures
        item_outcome::<SimpleSinkDevice>(reply, no_such_device()) matches Err(error) && error.kind
            == PulseCtlErrorType::NotFound,
{
    let index_of = |x: SimpleSinkDevice| x.index;
    assert forall|k: int| 0 <= k < listed.len() implies index_of(#[trigger] listed[k])
        != index by {
        assert(listed[k].index != index);
    }
    lemma_unlisted_is_not_found::<SimpleSinkDevice>(index_of, devices, listing, reply, index);
}

} // verus!
