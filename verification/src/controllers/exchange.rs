use crate::controllers::types::{ApplicationInfo, DeviceInfo, ServerInfo};
use crate::errors::PulseCtlError;
use crate::pending::PendingResult;
use crate::volume::ChannelVolumes;
use vstd::prelude::*;

verus! {

/// The two kinds of endpoint: playback devices with the streams that play
/// to them, and capture devices with the streams that record from them.
#[derive(Clone, Copy, Debug, PartialEq, Eq, Structural)]
pub enum EndpointKind {
    Sink,
    Source,
}

/// What can be asked of the server.
#[derive(Clone, Debug)]
pub enum Call {
    /// The server's account of itself.
    ServerInfo,
    /// All devices.
    ListDevices,
    /// The device with this index.
    DeviceByIndex(u32),
    /// The device with this name.
    DeviceByName(String),
    /// Make the device with this name the default.
    SetDefaultDevice(String),
    /// Give the device with this index these volumes.
    SetDeviceVolumeByIndex(u32, ChannelVolumes),
    /// Give the device with this name these volumes.
    SetDeviceVolumeByName(String, ChannelVolumes),
    /// All streams.
    ListApplications,
    /// The stream with this index.
    ApplicationByIndex(u32),
    /// Give the stream with this index these volumes.
    SetApplicationVolume(u32, ChannelVolumes),
    /// Attach the stream with the first index to the device with the second.
    MoveApplicationByIndex(u32, u32),
    /// Attach the stream with this index to the device with this name.
    MoveApplicationByName(u32, String),
    /// Mute the stream with this index, or end its muting.
    SetApplicationMute(u32, bool),
}

/// A `Call` as plain values.
pub enum CallView {
    ServerInfo,
    ListDevices,
    DeviceByIndex(u32),
    DeviceByName(Seq<char>),
    SetDefaultDevice(Seq<char>),
    SetDeviceVolumeByIndex(u32, Seq<u32>),
    SetDeviceVolumeByName(Seq<char>, Seq<u32>),
    ListApplications,
    ApplicationByIndex(u32),
    SetApplicationVolume(u32, Seq<u32>),
    MoveApplicationByIndex(u32, u32),
    MoveApplicationByName(u32, Seq<char>),
    SetApplicationMute(u32, bool),
}

impl View for Call {
    type V = CallView;

    open spec fn view(&self) -> CallView {
        match *self {
            Call::ServerInfo => CallView::ServerInfo,
            Call::ListDevices => CallView::ListDevices,
            Call::DeviceByIndex(i) => CallView::DeviceByIndex(i),
            Call::DeviceByName(n) => CallView::DeviceByName(n@),
            Call::SetDefaultDevice(n) => CallView::SetDefaultDevice(n@),
            Call::SetDeviceVolumeByIndex(i, v) => CallView::SetDeviceVolumeByIndex(i, v@),
            Call::SetDeviceVolumeByName(n, v) => CallView::SetDeviceVolumeByName(n@, v@),
            Call::ListApplications => CallView::ListApplications,
            Call::ApplicationByIndex(i) => CallView::ApplicationByIndex(i),
            Call::SetApplicationVolume(i, v) => CallView::SetApplicationVolume(i, v@),
            Call::MoveApplicationByIndex(s, d) => CallView::MoveApplicationByIndex(s, d),
            Call::MoveApplicationByName(s, n) => CallView::MoveApplicationByName(s, n@),
            Call::SetApplicationMute(i, m) => CallView::SetApplicationMute(i, m),
        }
    }
}

/// One request to the server: what is asked, and of which kind of endpoint.
#[derive(Clone, Debug)]
pub struct Request {
    pub endpoint: EndpointKind,
    pub call: Call,
}

/// A `Request` as plain values.
pub struct RequestView {
    pub endpoint: EndpointKind,
    pub call: CallView,
}

impl View for Request {
    type V = RequestView;

    open spec fn view(&self) -> RequestView {
        RequestView { endpoint: self.endpoint, call: self.call@ }
    }
}

/// What came of one request: what its callbacks received while the event
/// loop ran, in order, and how the wait for its operation ended.
#[derive(Debug)]
pub struct Answer {
    pub delivered: Vec<Event>,
    pub waited: Result<(), PulseCtlError>,
}

/// What a call on a controller comes to: a request to hand to the server,
/// whose answer the call is to be given next, or the call's result.
#[derive(Debug)]
pub enum Step<R> {
    Submit(Request),
    Finished(Result<R, PulseCtlError>),
}

/// What a callback of a request receives from the server.
#[derive(Clone, Debug)]
pub enum Event {
    /// One device: an item of a device list or the answer to a lookup.
    Device(DeviceInfo),
    /// One stream: an item of a stream list or the answer to a lookup.
    Application(ApplicationInfo),
    /// The server's account of itself.
    Server(ServerInfo),
    /// The server's yes or no to a change.
    Ack(bool),
    /// The end of a list.
    End,
    /// The server could not answer.
    Error,
}

/// What can be made of an event: the items that a request collects.
pub trait FromEvent: Sized {
    /// The item that `event` yields, or `None` where it yields none.
    spec fn accepted(event: Event) -> Option<Self>;

    fn accept(event: Event) -> (item: Option<Self>)
        ensures
            item == Self::accepted(event),
    ;
}

/// An item that carries the volume of each of its channels.
pub trait Descriptor: FromEvent {
    /// The volumes, one for each channel.
    spec fn channel_volumes(&self) -> Seq<u32>;

    fn volume(&self) -> (v: &ChannelVolumes)
        ensures
            v@ == self.channel_volumes(),
    ;
}

impl Descriptor for DeviceInfo {
    open spec fn channel_volumes(&self) -> Seq<u32> {
        self.volume@
    }

    fn volume(&self) -> (v: &ChannelVolumes) {
        &self.volume
    }
}

impl Descriptor for ApplicationInfo {
    open spec fn channel_volumes(&self) -> Seq<u32> {
        self.volume@
    }

    fn volume(&self) -> (v: &ChannelVolumes) {
        &self.volume
    }
}

impl FromEvent for DeviceInfo {
    open spec fn accepted(event: Event) -> Option<Self> {
        match event {
            Event::Device(info) => Some(info),
            _ => None,
        }
    }

    fn accept(event: Event) -> (item: Option<Self>) {
        match event {
            Event::Device(info) => Some(info),
            _ => None,
        }
    }
}

impl FromEvent for ApplicationInfo {
    open spec fn accepted(event: Event) -> Option<Self> {
        match event {
            Event::Application(info) => Some(info),
            _ => None,
        }
    }

    fn accept(event: Event) -> (item: Option<Self>) {
        match event {
            Event::Application(info) => Some(info),
            _ => None,
        }
    }
}

impl FromEvent for ServerInfo {
    open spec fn accepted(event: Event) -> Option<Self> {
        match event {
            Event::Server(info) => Some(info),
            _ => None,
        }
    }

    fn accept(event: Event) -> (item: Option<Self>) {
        match event {
            Event::Server(info) => Some(info),
            _ => None,
        }
    }
}

impl FromEvent for bool {
    open spec fn accepted(event: Event) -> Option<Self> {
        match event {
            Event::Ack(yes) => Some(yes),
            _ => None,
        }
    }

    fn accept(event: Event) -> (item: Option<Self>) {
        match event {
            Event::Ack(yes) => Some(yes),
            _ => None,
        }
    }
}

/// The items that a run of events yields, in the order of the events.
pub open spec fn picked<T: FromEvent>(events: Seq<Event>) -> Seq<T>
    decreases events.len(),
{
    if events.len() == 0 {
        Seq::<T>::empty()
    } else {
        let before = picked::<T>(events.drop_last());
        match T::accepted(events.last()) {
            Some(item) => before.push(item),
            None => before,
        }
    }
}

/// Where every event of a run yields an item, the run yields as many items
/// as it has events, each the item of the event in its place.
pub proof fn lemma_picked_keeps_what_is_accepted<T: FromEvent>(events: Seq<Event>)
    requires
        forall|j: int| 0 <= j < events.len() ==> T::accepted(#[trigger] events[j]) is Some,
    ensures
        picked::<T>(events).len() == events.len(),
        forall|j: int|
            0 <= j < events.len() ==> Some(#[trigger] picked::<T>(events)[j]) == T::accepted(
                events[j],
            ),
    decreases events.len(),
{
    if events.len() > 0 {
        let front = events.drop_last();
        assert forall|j: int| 0 <= j < front.len() implies T::accepted(
            #[trigger] front[j],
        ) is Some by {
            assert(front[j] == events[j]);
        }
        lemma_picked_keeps_what_is_accepted::<T>(front);
        assert(T::accepted(events[events.len() - 1]) is Some);
        assert forall|j: int| 0 <= j < events.len() implies Some(
            #[trigger] picked::<T>(events)[j],
        ) == T::accepted(events[j]) by {
            if j < front.len() {
                assert(front[j] == events[j]);
                assert(picked::<T>(events)[j] == picked::<T>(front)[j]);
            }
        }
    }
}

/// The items picked from a run of events are what its events yield.
pub proof fn lemma_picked_members<T: FromEvent>(events: Seq<Event>)
    ensures
        forall|x: T| #[trigger]
            picked::<T>(events).contains(x) <==> exists|j: int|
                0 <= j < events.len() && T::accepted(#[trigger] events[j]) == Some(x),
    decreases events.len(),
{
    if events.len() == 0 {
        assert forall|x: T| #[trigger] picked::<T>(events).contains(x) implies false by {
            let i = choose|i: int| 0 <= i < picked::<T>(events).len() && picked::<T>(events)[i] == x;
        }
    } else {
        let front = events.drop_last();
        let before = picked::<T>(front);
        lemma_picked_members::<T>(front);
        assert forall|x: T| #[trigger]
            picked::<T>(events).contains(x) <==> exists|j: int|
                0 <= j < events.len() && T::accepted(#[trigger] events[j]) == Some(x) by {
            let in_front = exists|j: int|
                0 <= j < front.len() && T::accepted(#[trigger] front[j]) == Some(x);
            assert(before.contains(x) <==> in_front);
            if picked::<T>(events).contains(x) {
                let i = choose|i: int|
                    0 <= i < picked::<T>(events).len() && picked::<T>(events)[i] == x;
                if i < before.len() {
                    assert(before[i] == x);
                    assert(before.contains(x));
                    let j = choose|j: int|
                        0 <= j < front.len() && T::accepted(#[trigger] front[j]) == Some(x);
                    assert(events[j] == front[j]);
                } else {
                    assert(T::accepted(events[events.len() - 1]) == Some(x));
                }
            }
            if exists|j: int| 0 <= j < events.len() && T::accepted(#[trigger] events[j]) == Some(x) {
                let j = choose|j: int|
                    0 <= j < events.len() && T::accepted(#[trigger] events[j]) == Some(x);
                if j < front.len() {
                    assert(front[j] == events[j]);
                    assert(before.contains(x));
                    let i = choose|i: int| 0 <= i < before.len() && before[i] == x;
                    assert(picked::<T>(events)[i] == x);
                } else {
                    assert(picked::<T>(events) == before.push(x));
                    assert(picked::<T>(events)[before.len() as int] == x);
                }
            }
        }
    }
}

/// The last item that a run of events yields, if it yields any.
pub open spec fn last_picked<T: FromEvent>(events: Seq<Event>) -> Option<T> {
    if picked::<T>(events).len() > 0 {
        Some(picked::<T>(events).last())
    } else {
        None
    }
}

/// Runs the callback of a list request over what was delivered: every item
/// is kept, in order.
pub fn collect<T: FromEvent>(delivered: Vec<Event>) -> (cell: PendingResult<Vec<T>>)
    ensures
        cell.held()@ == picked::<T>(delivered@),
{
    let mut cell = PendingResult::<Vec<T>>::list();
    let ghost all = delivered@;
    for event in it: delivered.into_iter()
        invariant
            it.seq() == all,
            cell.held()@ == picked::<T>(all.take(it.index() as int)),
    {
        proof {
            let k = it.index() as int;
            assert(all.take(k + 1).drop_last() =~= all.take(k));
            assert(all.take(k + 1).last() == all[k]);
        }
        match T::accept(event) {
            Some(item) => {
                cell.append(item);
            },
            None => {},
        }
    }
    assert(all.take(all.len() as int) =~= all);
    cell
}

/// Runs the callback of a request for one item over what was delivered: of
/// several items the last one stays.
pub fn latest<T: FromEvent>(delivered: Vec<Event>) -> (cell: PendingResult<Option<T>>)
    ensures
        cell.held() == last_picked::<T>(delivered@),
{
    let mut cell = PendingResult::<Option<T>>::empty();
    let ghost all = delivered@;
    for event in it: delivered.into_iter()
        invariant
            it.seq() == all,
            cell.held() == last_picked::<T>(all.take(it.index() as int)),
    {
        proof {
            let k = it.index() as int;
            assert(all.take(k + 1).drop_last() =~= all.take(k));
            assert(all.take(k + 1).last() == all[k]);
        }
        match T::accept(event) {
            Some(item) => {
                cell.fill(item);
            },
            None => {},
        }
    }
    assert(all.take(all.len() as int) =~= all);
    cell
}

/// What the server said to a change: its last yes or no, and no where it
/// said neither.
pub open spec fn confirmed(events: Seq<Event>) -> bool {
    match last_picked::<bool>(events) {
        Some(yes) => yes,
        None => false,
    }
}

/// Runs the callback of a request for a change over what was delivered: the
/// cell says no until the server says otherwise, and each yes or no takes
/// the place of the one before.
pub fn confirm(delivered: Vec<Event>) -> (cell: PendingResult<bool>)
    ensures
        cell.held() == confirmed(delivered@),
{
    let mut cell = PendingResult::new(false);
    let ghost all = delivered@;
    for event in it: delivered.into_iter()
        invariant
            it.seq() == all,
            cell.held() == confirmed(all.take(it.index() as int)),
    {
        proof {
            let k = it.index() as int;
            assert(all.take(k + 1).drop_last() =~= all.take(k));
            assert(all.take(k + 1).last() == all[k]);
        }
        match bool::accept(event) {
            Some(yes) => {
                cell.write(yes);
            },
            None => {},
        }
    }
    assert(all.take(all.len() as int) =~= all);
    cell
}

} // verus!
