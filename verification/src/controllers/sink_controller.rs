use crate::controllers::exchange::{
    picked, Answer, Call, Descriptor, EndpointKind, Event, FromEvent, Request, Step,
};
use crate::controllers::plan::{
    item_outcome, lemma_found_unless_nothing_is_accepted, lemma_listing_is_complete, list_outcome,
    missing_application, missing_device, no_such_application, no_such_device, run_ack, run_adjust,
    run_default_device, run_item, run_list, run_store, Target,
};
use crate::controllers::types::{ApplicationInfo, DeviceInfo};
use crate::controllers::{AppControl, Controller, DeviceControl};
use crate::session::{Handler, HandlerView, Phase};
use crate::volume::{ChannelVolumes, Volume};
use vstd::prelude::*;
use vstd::string::StringExecFns;

verus! {

/// The controller of playback devices and of the streams that play to
/// them.
pub struct SinkController {
    pub handler: Handler,
}

impl SinkController {
    /// A controller with a session of its own, whose handshake is started.
    pub fn create() -> (c: Self)
        ensures
            c.handler@.name == "SinkController"@,
            c.handler@.phase == Phase::Connecting,
    {
        let handler = Handler::connect("SinkController");
        SinkController { handler }
    }
}

/// A playback device as the server tells of it.
#[derive(Clone, Debug)]
pub struct SimpleSinkDevice {
    pub index: u32,
    pub volume: ChannelVolumes,
    /// The name the server knows the device by, where it gives one.
    pub name: Option<String>,
    /// The device in words for people, where the server gives any.
    pub description: Option<String>,
}

impl FromEvent for SimpleSinkDevice {
    /// Every device that the server delivers is kept, with what the server
    /// says of it.
    open spec fn accepted(event: Event) -> Option<Self> {
        match event {
            Event::Device(info) => Some(
                SimpleSinkDevice {
                    index: info.index,
                    volume: info.volume,
                    name: info.name,
                    description: info.description,
                },
            ),
            _ => None,
        }
    }

    fn accept(event: Event) -> (item: Option<Self>) {
        match event {
            Event::Device(info) => Some(
                SimpleSinkDevice {
                    index: info.index,
                    volume: info.volume,
                    name: info.name,
                    description: info.description,
                },
            ),
            _ => None,
        }
    }
}

impl Descriptor for SimpleSinkDevice {
    open spec fn channel_volumes(&self) -> Seq<u32> {
        self.volume@
    }

    fn volume(&self) -> (v: &ChannelVolumes) {
        &self.volume
    }
}

/// A stream that plays to a sink as the server tells of it. The program
/// behind the stream stands as its description.
#[derive(Clone, Debug)]
pub struct SimpleSinkStream {
    pub index: u32,
    pub vol: ChannelVolumes,
    /// The name of the stream, where the server gives one.
    pub name: Option<String>,
    /// The program behind the stream, where the server knows it.
    pub description: Option<String>,
    pub device_index: u32,
    pub corked: bool,
}

impl FromEvent for SimpleSinkStream {
    /// Every stream that the server delivers is kept, with what the server
    /// says of it.
    open spec fn accepted(event: Event) -> Option<Self> {
        match event {
            Event::Application(info) => Some(
                SimpleSinkStream {
                    index: info.index,
                    vol: info.volume,
                    name: info.name,
                    description: info.process_binary,
                    device_index: info.device_index,
                    corked: info.corked,
                },
            ),
            _ => None,
        }
    }

    fn accept(event: Event) -> (item: Option<Self>) {
        match event {
            Event::Application(info) => Some(
                SimpleSinkStream {
                    index: info.index,
                    vol: info.volume,
                    name: info.name,
                    description: info.process_binary,
                    device_index: info.device_index,
                    corked: info.corked,
                },
            ),
            _ => None,
        }
    }
}

impl Descriptor for SimpleSinkStream {
    open spec fn channel_volumes(&self) -> Seq<u32> {
        self.vol@
    }

    fn volume(&self) -> (v: &ChannelVolumes) {
        &self.vol
    }
}

/// The device shows what the server said in `info`: the same index, volume,
/// name and description.
pub open spec fn device_shows(device: SimpleSinkDevice, info: DeviceInfo) -> bool {
    &&& device.index == info.index
    &&& device.volume == info.volume
    &&& device.name == info.name
    &&& device.description == info.description
}

/// The stream shows what the server said in `info`: the same index, volume,
/// name, device and pause, and the program behind the stream, where the
/// server knows it, as its description.
pub open spec fn stream_shows(stream: SimpleSinkStream, info: ApplicationInfo) -> bool {
    &&& stream.index == info.index
    &&& stream.vol == info.volume
    &&& stream.name == info.name
    &&& stream.description == info.process_binary
    &&& stream.device_index == info.device_index
    &&& stream.corked == info.corked
}

/// Every device that the server delivers is kept: with or without a name or
/// a description, it yields one device that shows what the server said.
pub proof fn lemma_every_device_is_kept(info: DeviceInfo)
    ensures
        SimpleSinkDevice::accepted(Event::Device(info)) matches Some(device) && device_shows(
            device,
            info,
        ),
{
}

/// Every stream that the server delivers is kept: with or without a name or
/// a known program, it yields one stream that shows what the server said.
pub proof fn lemma_every_stream_is_kept(info: ApplicationInfo)
    ensures
        SimpleSinkStream::accepted(Event::Application(info)) matches Some(stream) && stream_shows(
            stream,
            info,
        ),
{
}

/// When the server delivers devices and then the end of the list,
/// `list_devices` lists every one of them, in the order of delivery, none
/// twice and none left out.
pub proof fn lemma_all_devices_are_listed(devices: Seq<DeviceInfo>, answer: Answer)
    requires
        answer.waited is Ok,
        answer.delivered@ == devices.map_values(|d: DeviceInfo| Event::Device(d)).push(Event::End),
    ensures
        list_outcome::<SimpleSinkDevice>(answer) matches Ok(listed) && listed.len()
            == devices.len() && forall|k: int|
            0 <= k < devices.len() ==> device_shows(#[trigger] listed[k], devices[k]),
{
    let items = devices.map_values(|d: DeviceInfo| Event::Device(d));
    lemma_listing_is_complete::<SimpleSinkDevice>(items, answer);
}

/// When the server delivers streams and then the end of the list,
/// `list_applications` lists every one of them, in the order of delivery,
/// none twice and none left out.
pub proof fn lemma_all_streams_are_listed(streams: Seq<ApplicationInfo>, answer: Answer)
    requires
        answer.waited is Ok,
        answer.delivered@ == streams.map_values(|s: ApplicationInfo| Event::Application(s)).push(
            Event::End,
        ),
    ensures
        list_outcome::<SimpleSinkStream>(answer) matches Ok(listed) && listed.len()
            == streams.len() && forall|k: int|
            0 <= k < streams.len() ==> stream_shows(#[trigger] listed[k], streams[k]),
{
    let items = streams.map_values(|s: ApplicationInfo| Event::Application(s));
    lemma_listing_is_complete::<SimpleSinkStream>(items, answer);
}

/// A lookup of a device ends in `NotFound` only where the server delivered
/// no device.
pub proof fn lemma_device_is_found_unless_none_came(answer: Answer)
    requires
        answer.waited is Ok,
    ensures
        item_outcome::<SimpleSinkDevice>(answer, no_such_device()) is Err <==> forall|j: int|
            0 <= j < answer.delivered@.len() ==> !((#[trigger] answer.delivered@[j]) is Device),
{
    lemma_found_unless_nothing_is_accepted::<SimpleSinkDevice>(answer, no_such_device());
}

/// A lookup of a stream ends in `NotFound` only where the server delivered
/// no stream.
pub proof fn lemma_stream_is_found_unless_none_came(answer: Answer)
    requires
        answer.waited is Ok,
    ensures
        item_outcome::<SimpleSinkStream>(answer, no_such_application()) is Err <==> forall|j: int|
            0 <= j < answer.delivered@.len() ==> !((#[trigger] answer.delivered@[j]) is Application),
{
    lemma_found_unless_nothing_is_accepted::<SimpleSinkStream>(answer, no_such_application());
}

/// When the server answers a lookup with a device, with or without the end
/// of the list behind it, the device is found and shows what the server
/// said.
pub proof fn lemma_delivered_device_is_found(info: DeviceInfo, answer: Answer)
    requires
        answer.waited is Ok,
        answer.delivered@ == seq![Event::Device(info), Event::End] || answer.delivered@
            == seq![Event::Device(info)],
    ensures
        item_outcome::<SimpleSinkDevice>(answer, no_such_device()) matches Ok(found)
            && device_shows(found, info),
{
    let one = seq![Event::Device(info)];
    let two = seq![Event::Device(info), Event::End];
    assert(one.drop_last() =~= Seq::<Event>::empty());
    assert(picked::<SimpleSinkDevice>(one.drop_last()).len() == 0);
    assert(picked::<SimpleSinkDevice>(one).len() == 1);
    assert(two.drop_last() =~= one);
    assert(picked::<SimpleSinkDevice>(two) == picked::<SimpleSinkDevice>(one));
}

/// When the server answers a lookup with a stream, with or without the end
/// of the list behind it, the stream is found and shows what the server
/// said.
pub proof fn lemma_delivered_stream_is_found(info: ApplicationInfo, answer: Answer)
    requires
        answer.waited is Ok,
        answer.delivered@ == seq![Event::Application(info), Event::End] || answer.delivered@
            == seq![Event::Application(info)],
    ensures
        item_outcome::<SimpleSinkStream>(answer, no_such_application()) matches Ok(found)
            && stream_shows(found, info),
{
    let one = seq![Event::Application(info)];
    let two = seq![Event::Application(info), Event::End];
    assert(one.drop_last() =~= Seq::<Event>::empty());
    assert(picked::<SimpleSinkStream>(one.drop_last()).len() == 0);
    assert(picked::<SimpleSinkStream>(one).len() == 1);
    assert(two.drop_last() =~= one);
    assert(picked::<SimpleSinkStream>(two) == picked::<SimpleSinkStream>(one));
}

impl Controller for SinkController {
    open spec fn session(&self) -> HandlerView {
        self.handler@
    }

    open spec fn endpoint() -> EndpointKind {
        EndpointKind::Sink
    }
}

impl DeviceControl<SimpleSinkDevice> for SinkController {
    fn get_default_device(&mut self, answers: Vec<Answer>) -> (step: Step<SimpleSinkDevice>) {
        run_default_device(&mut self.handler, EndpointKind::Sink, answers)
    }

    fn set_default_device(&mut self, name: &str, answers: Vec<Answer>) -> (step: Step<bool>) {
        let call = Call::SetDefaultDevice(String::from_str(name));
        run_ack(&mut self.handler, Request { endpoint: EndpointKind::Sink, call }, answers)
    }

    fn list_devices(&mut self, answers: Vec<Answer>) -> (step: Step<Vec<SimpleSinkDevice>>) {
        let request = Request { endpoint: EndpointKind::Sink, call: Call::ListDevices };
        run_list(&mut self.handler, request, answers)
    }

    fn get_device_by_index(&mut self, index: u32, answers: Vec<Answer>) -> (step: Step<SimpleSinkDevice>) {
        let request = Request { endpoint: EndpointKind::Sink, call: Call::DeviceByIndex(index) };
        run_item(&mut self.handler, request, answers, missing_device())
    }

    fn get_device_by_name(&mut self, name: &str, answers: Vec<Answer>) -> (step: Step<SimpleSinkDevice>) {
        let call = Call::DeviceByName(String::from_str(name));
        let request = Request { endpoint: EndpointKind::Sink, call };
        run_item(&mut self.handler, request, answers, missing_device())
    }

    fn set_device_volume_by_index(
        &mut self,
        index: u32,
        volume: &ChannelVolumes,
        answers: Vec<Answer>,
    ) -> (step: Step<()>) {
        let call = Call::SetDeviceVolumeByIndex(index, volume.duplicate());
        run_store(&mut self.handler, Request { endpoint: EndpointKind::Sink, call }, volume, answers)
    }

    fn set_device_volume_by_name(
        &mut self,
        name: &str,
        volume: &ChannelVolumes,
        answers: Vec<Answer>,
    ) -> (step: Step<()>) {
        let call = Call::SetDeviceVolumeByName(String::from_str(name), volume.duplicate());
        run_store(&mut self.handler, Request { endpoint: EndpointKind::Sink, call }, volume, answers)
    }

    fn increase_device_volume_by_percent(
        &mut self,
        index: u32,
        delta: Volume,
        answers: Vec<Answer>,
    ) -> (step: Step<()>) {
        run_adjust::<SimpleSinkDevice>(
            &mut self.handler,
            EndpointKind::Sink,
            Target::Device,
            index,
            delta,
            true,
            answers,
        )
    }

    fn decrease_device_volume_by_percent(
        &mut self,
        index: u32,
        delta: Volume,
        answers: Vec<Answer>,
    ) -> (step: Step<()>) {
        run_adjust::<SimpleSinkDevice>(
            &mut self.handler,
            EndpointKind::Sink,
            Target::Device,
            index,
            delta,
            false,
            answers,
        )
    }
}

impl AppControl<SimpleSinkStream> for SinkController {
    fn list_applications(&mut self, answers: Vec<Answer>) -> (step: Step<Vec<SimpleSinkStream>>) {
        let request = Request { endpoint: EndpointKind::Sink, call: Call::ListApplications };
        run_list(&mut self.handler, request, answers)
    }

    fn get_app_by_index(&mut self, index: u32, answers: Vec<Answer>) -> (step: Step<
        SimpleSinkStream,
    >) {
        let call = Call::ApplicationByIndex(index);
        let request = Request { endpoint: EndpointKind::Sink, call };
        run_item(&mut self.handler, request, answers, missing_application())
    }

    fn increase_app_volume_by_percent(
        &mut self,
        index: u32,
        delta: Volume,
        answers: Vec<Answer>,
    ) -> (step: Step<()>) {
        run_adjust::<SimpleSinkStream>(
            &mut self.handler,
            EndpointKind::Sink,
            Target::Application,
            index,
            delta,
            true,
            answers,
        )
    }

    fn decrease_app_volume_by_percent(
        &mut self,
        index: u32,
        delta: Volume,
        answers: Vec<Answer>,
    ) -> (step: Step<()>) {
        run_adjust::<SimpleSinkStream>(
            &mut self.handler,
            EndpointKind::Sink,
            Target::Application,
            index,
            delta,
            false,
            answers,
        )
    }

    fn move_app_by_index(&mut self, stream_index: u32, device_index: u32, answers: Vec<Answer>) -> (step:
        Step<bool>) {
        let call = Call::MoveApplicationByIndex(stream_index, device_index);
        run_ack(&mut self.handler, Request { endpoint: EndpointKind::Sink, call }, answers)
    }

    fn move_app_by_name(&mut self, stream_index: u32, device_name: &str, answers: Vec<Answer>) -> (step:
        Step<bool>) {
        let call = Call::MoveApplicationByName(stream_index, String::from_str(device_name));
        run_ack(&mut self.handler, Request { endpoint: EndpointKind::Sink, call }, answers)
    }

    fn set_app_mute(&mut self, index: u32, mute: bool, answers: Vec<Answer>) -> (step: Step<bool>) {
        let call = Call::SetApplicationMute(index, mute);
        run_ack(&mut self.handler, Request { endpoint: EndpointKind::Sink, call }, answers)
    }
}

} // verus!
