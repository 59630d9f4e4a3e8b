use crate::controllers::exchange::{
    picked, Answer, Call, CallView, EndpointKind, Event, Request, RequestView, Step,
};
use crate::controllers::plan::{
    follows, item_outcome, item_plan, lemma_found_unless_nothing_is_accepted,
    lemma_listing_is_complete, list_outcome, missing_application, missing_device,
    missing_server_info, no_server_info, no_such_application, no_such_device, run_ack, run_adjust,
    run_default_device, run_item, run_list, run_store, Target,
};
use crate::controllers::types::{ApplicationInfo, DeviceInfo, ServerInfo};
use crate::controllers::{AppControl, Controller, DeviceControl};
use crate::errors::ErrorView;
use crate::session::{Handler, HandlerView, Phase};
use crate::volume::{ChannelVolumes, Volume};
use vstd::prelude::*;
use vstd::string::StringExecFns;

verus! {

/// The controller of capture devices and of the streams that record from
/// them.
pub struct SourceController {
    pub handler: Handler,
}

impl SourceController {
    /// A controller with a session of its own, whose handshake is started.
    pub fn create() -> (c: Self)
        ensures
            c.handler@.name == "SourceController"@,
            c.handler@.phase == Phase::Connecting,
    {
        let handler = Handler::connect("SourceController");
        SourceController { handler }
    }

    pub fn get_server_info(&mut self, answers: Vec<Answer>) -> (step: Step<ServerInfo>)
        ensures
            follows(
                step,
                old(self).handler@,
                final(self).handler@,
                item_plan::<ServerInfo>(
                    RequestView { endpoint: EndpointKind::Source, call: CallView::ServerInfo },
                    answers@,
                    no_server_info(),
                ),
            ),
    {
        let request = Request { endpoint: EndpointKind::Source, call: Call::ServerInfo };
        run_item(&mut self.handler, request, answers, missing_server_info())
    }
}

impl Controller for SourceController {
    open spec fn session(&self) -> HandlerView {
        self.handler@
    }

    open spec fn endpoint() -> EndpointKind {
        EndpointKind::Source
    }
}

impl DeviceControl<DeviceInfo> for SourceController {
    fn get_default_device(&mut self, answers: Vec<Answer>) -> (step: Step<DeviceInfo>) {
        run_default_device(&mut self.handler, EndpointKind::Source, answers)
    }

    fn set_default_device(&mut self, name: &str, answers: Vec<Answer>) -> (step: Step<bool>) {
        let call = Call::SetDefaultDevice(String::from_str(name));
        run_ack(&mut self.handler, Request { endpoint: EndpointKind::Source, call }, answers)
    }

    fn list_devices(&mut self, answers: Vec<Answer>) -> (step: Step<Vec<DeviceInfo>>) {
        let request = Request { endpoint: EndpointKind::Source, call: Call::ListDevices };
        run_list(&mut self.handler, request, answers)
    }

    fn get_device_by_index(&mut self, index: u32, answers: Vec<Answer>) -> (step: Step<DeviceInfo>) {
        let request = Request { endpoint: EndpointKind::Source, call: Call::DeviceByIndex(index) };
        run_item(&mut self.handler, request, answers, missing_device())
    }

    fn get_device_by_name(&mut self, name: &str, answers: Vec<Answer>) -> (step: Step<DeviceInfo>) {
        let call = Call::DeviceByName(String::from_str(name));
        let request = Request { endpoint: EndpointKind::Source, call };
        run_item(&mut self.handler, request, answers, missing_device())
    }

    fn set_device_volume_by_index(
        &mut self,
        index: u32,
        volume: &ChannelVolumes,
        answers: Vec<Answer>,
    ) -> (step: Step<()>) {
        let call = Call::SetDeviceVolumeByIndex(index, volume.duplicate());
        run_store(&mut self.handler, Request { endpoint: EndpointKind::Source, call }, volume, answers)
    }

    fn set_device_volume_by_name(
        &mut self,
        name: &str,
        volume: &ChannelVolumes,
        answers: Vec<Answer>,
    ) -> (step: Step<()>) {
        let call = Call::SetDeviceVolumeByName(String::from_str(name), volume.duplicate());
        run_store(&mut self.handler, Request { endpoint: EndpointKind::Source, call }, volume, answers)
    }

    fn increase_device_volume_by_percent(
        &mut self,
        index: u32,
        delta: Volume,
        answers: Vec<Answer>,
    ) -> (step: Step<()>) {
        run_adjust::<DeviceInfo>(
            &mut self.handler,
            EndpointKind::Source,
            Target::Device,
            index,
            delta,
            true,
            answers,
        )
    }

    fn decrease_device_volume_by_percent(
        &mut self,
        index: u32,
        delta: Volume,
        answers: Vec<Answer>,
    ) -> (step: Step<()>) {
        run_adjust::<DeviceInfo>(
            &mut self.handler,
            EndpointKind::Source,
            Target::Device,
            index,
            delta,
            false,
            answers,
        )
    }
}

impl AppControl<ApplicationInfo> for SourceController {
    fn list_applications(&mut self, answers: Vec<Answer>) -> (step: Step<Vec<ApplicationInfo>>) {
        let request = Request { endpoint: EndpointKind::Source, call: Call::ListApplications };
        run_list(&mut self.handler, request, answers)
    }

    fn get_app_by_index(&mut self, index: u32, answers: Vec<Answer>) -> (step: Step<
        ApplicationInfo,
    >) {
        let call = Call::ApplicationByIndex(index);
        let request = Request { endpoint: EndpointKind::Source, call };
        run_item(&mut self.handler, request, answers, missing_application())
    }

    fn increase_app_volume_by_percent(
        &mut self,
        index: u32,
        delta: Volume,
        answers: Vec<Answer>,
    ) -> (step: Step<()>) {
        run_adjust::<ApplicationInfo>(
            &mut self.handler,
            EndpointKind::Source,
            Target::Application,
            index,
            delta,
            true,
            answers,
        )
    }

    fn decrease_app_volume_by_percent(
        &mut self,
        index: u32,
        delta: Volume,
        answers: Vec<Answer>,
    ) -> (step: Step<()>) {
        run_adjust::<ApplicationInfo>(
            &mut self.handler,
            EndpointKind::Source,
            Target::Application,
            index,
            delta,
            false,
            answers,
        )
    }

    fn move_app_by_index(&mut self, stream_index: u32, device_index: u32, answers: Vec<Answer>) -> (step:
        Step<bool>) {
        let call = Call::MoveApplicationByIndex(stream_index, device_index);
        run_ack(&mut self.handler, Request { endpoint: EndpointKind::Source, call }, answers)
    }

    fn move_app_by_name(&mut self, stream_index: u32, device_name: &str, answers: Vec<Answer>) -> (step:
        Step<bool>) {
        let call = Call::MoveApplicationByName(stream_index, String::from_str(device_name));
        run_ack(&mut self.handler, Request { endpoint: EndpointKind::Source, call }, answers)
    }

    fn set_app_mute(&mut self, index: u32, mute: bool, answers: Vec<Answer>) -> (step: Step<bool>) {
        let call = Call::SetApplicationMute(index, mute);
        run_ack(&mut self.handler, Request { endpoint: EndpointKind::Source, call }, answers)
    }
}

/// When the server delivers devices and then the end of the list,
/// `list_devices` lists them as they were delivered: every one, in order.
pub proof fn lemma_all_devices_are_listed(devices: Seq<DeviceInfo>, answer: Answer)
    requires
        answer.waited is Ok,
        answer.delivered@ == devices.map_values(|d: DeviceInfo| Event::Device(d)).push(Event::End),
    ensures
        list_outcome::<DeviceInfo>(answer) == Ok::<Seq<DeviceInfo>, ErrorView>(devices),
{
    let items = devices.map_values(|d: DeviceInfo| Event::Device(d));
    lemma_listing_is_complete::<DeviceInfo>(items, answer);
    assert(picked::<DeviceInfo>(answer.delivered@) =~= devices);
}

/// When the server delivers streams and then the end of the list,
/// `list_applications` lists them as they were delivered: every one, in
/// order.
pub proof fn lemma_all_streams_are_listed(streams: Seq<ApplicationInfo>, answer: Answer)
    requires
        answer.waited is Ok,
        answer.delivered@ == streams.map_values(|s: ApplicationInfo| Event::Application(s)).push(
            Event::End,
        ),
    ensures
        list_outcome::<ApplicationInfo>(answer) == Ok::<Seq<ApplicationInfo>, ErrorView>(streams),
{
    let items = streams.map_values(|s: ApplicationInfo| Event::Application(s));
    lemma_listing_is_complete::<ApplicationInfo>(items, answer);
    assert(picked::<ApplicationInfo>(answer.delivered@) =~= streams);
}

/// A lookup of a device ends in `NotFound` only where the server delivered
/// no device.
pub proof fn lemma_device_is_found_unless_none_came(answer: Answer)
    requires
        answer.waited is Ok,
    ensures
        item_outcome::<DeviceInfo>(answer, no_such_device()) is Err <==> forall|j: int|
            0 <= j < answer.delivered@.len() ==> !((#[trigger] answer.delivered@[j]) is Device),
{
    lemma_found_unless_nothing_is_accepted::<DeviceInfo>(answer, no_such_device());
}

/// A lookup of a stream ends in `NotFound` only where the server delivered
/// no stream.
pub proof fn lemma_stream_is_found_unless_none_came(answer: Answer)
    requires
        answer.waited is Ok,
    ensures
        item_outcome::<ApplicationInfo>(answer, no_such_application()) is Err <==> forall|j: int|
            0 <= j < answer.delivered@.len() ==> !((#[trigger] answer.delivered@[j]) is Application),
{
    lemma_found_unless_nothing_is_accepted::<ApplicationInfo>(answer, no_such_application());
}

} // verus!
