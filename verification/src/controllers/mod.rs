use crate::session::HandlerView;
use crate::volume::{ChannelVolumes, Volume};
use vstd::prelude::*;

pub mod consistency;
pub mod exchange;
pub mod plan;
pub mod sink_controller;
pub mod source_controller;
pub mod types;

use exchange::{Answer, CallView, Descriptor, EndpointKind, RequestView, Step};
use plan::{
    ack_plan, adjust_plan, default_device_plan, follows, follows_list, item_plan,
    list_plan, no_such_application, no_such_device, store_plan, Target,
};

verus! {

// Source = microphone etc. something that takes in audio
// Source Output = application consuming that audio
//
// Sink = headphones etc. something that plays out audio
// Sink Input = application producing that audio
//
// A call on a controller does no input or output of its own. It is given
// the answers that the server has made to the call so far, none at first,
// and says what comes next: a request to hand to the server, or the result.
// Whoever drives the controller hands the request over, turns the event
// loop until `Handler::wait_step` has an answer, and calls again with the
// answers so far and the new one behind them.

/// A controller: a session, and the kind of endpoint it speaks of.
pub trait Controller {
    /// The controller's session.
    spec fn session(&self) -> HandlerView;

    /// The kind of endpoint that the controller's requests speak of.
    spec fn endpoint() -> EndpointKind;
}

/// The calls on devices.
pub trait DeviceControl<T: Descriptor>: Controller {
    fn get_default_device(&mut self, answers: Vec<Answer>) -> (step: Step<T>)
        ensures
            follows(
                step,
                old(self).session(),
                final(self).session(),
                default_device_plan::<T>(Self::endpoint(), answers@),
            ),
    ;

    fn set_default_device(&mut self, name: &str, answers: Vec<Answer>) -> (step: Step<bool>)
        ensures
            follows(
                step,
                old(self).session(),
                final(self).session(),
                ack_plan(
                    RequestView {
                        endpoint: Self::endpoint(),
                        call: CallView::SetDefaultDevice(name@),
                    },
                    answers@,
                ),
            ),
    ;

    fn list_devices(&mut self, answers: Vec<Answer>) -> (step: Step<Vec<T>>)
        ensures
            follows_list(
                step,
                old(self).session(),
                final(self).session(),
                list_plan::<T>(
                    RequestView { endpoint: Self::endpoint(), call: CallView::ListDevices },
                    answers@,
                ),
            ),
    ;

    fn get_device_by_index(&mut self, index: u32, answers: Vec<Answer>) -> (step: Step<T>)
        ensures
            follows(
                step,
                old(self).session(),
                final(self).session(),
                item_plan::<T>(
                    RequestView {
                        endpoint: Self::endpoint(),
                        call: CallView::DeviceByIndex(index),
                    },
                    answers@,
                    no_such_device(),
                ),
            ),
    ;

    fn get_device_by_name(&mut self, name: &str, answers: Vec<Answer>) -> (step: Step<T>)
        ensures
            follows(
                step,
                old(self).session(),
                final(self).session(),
                item_plan::<T>(
                    RequestView {
                        endpoint: Self::endpoint(),
                        call: CallView::DeviceByName(name@),
                    },
                    answers@,
                    no_such_device(),
                ),
            ),
    ;

    fn set_device_volume_by_index(
        &mut self,
        index: u32,
        volume: &ChannelVolumes,
        answers: Vec<Answer>,
    ) -> (step: Step<()>)
        ensures
            follows(
                step,
                old(self).session(),
                final(self).session(),
                store_plan(
                    RequestView {
                        endpoint: Self::endpoint(),
                        call: CallView::SetDeviceVolumeByIndex(index, volume@),
                    },
                    volume@,
                    answers@,
                ),
            ),
    ;

    fn set_device_volume_by_name(
        &mut self,
        name: &str,
        volume: &ChannelVolumes,
        answers: Vec<Answer>,
    ) -> (step: Step<()>)
        ensures
            follows(
                step,
                old(self).session(),
                final(self).session(),
                store_plan(
                    RequestView {
                        endpoint: Self::endpoint(),
                        call: CallView::SetDeviceVolumeByName(name@, volume@),
                    },
                    volume@,
                    answers@,
                ),
            ),
    ;

    /// `delta` is the share of the normal volume to add, on the server's
    /// scale: `VOLUME_NORM` for 100%.
    fn increase_device_volume_by_percent(
        &mut self,
        index: u32,
        delta: Volume,
        answers: Vec<Answer>,
    ) -> (step: Step<()>)
        ensures
            follows(
                step,
                old(self).session(),
                final(self).session(),
                adjust_plan::<T>(Self::endpoint(), Target::Device, index, delta, true, answers@),
            ),
    ;

    /// `delta` is the share of the normal volume to take off, on the
    /// server's scale: `VOLUME_NORM` for 100%.
    fn decrease_device_volume_by_percent(
        &mut self,
        index: u32,
        delta: Volume,
        answers: Vec<Answer>,
    ) -> (step: Step<()>)
        ensures
            follows(
                step,
                old(self).session(),
                final(self).session(),
                adjust_plan::<T>(Self::endpoint(), Target::Device, index, delta, false, answers@),
            ),
    ;
}

/// The calls on streams.
pub trait AppControl<T: Descriptor>: Controller {
    fn list_applications(&mut self, answers: Vec<Answer>) -> (step: Step<Vec<T>>)
        ensures
            follows_list(
                step,
                old(self).session(),
                final(self).session(),
                list_plan::<T>(
                    RequestView { endpoint: Self::endpoint(), call: CallView::ListApplications },
                    answers@,
                ),
            ),
    ;

    fn get_app_by_index(&mut self, index: u32, answers: Vec<Answer>) -> (step: Step<T>)
        ensures
            follows(
                step,
                old(self).session(),
                final(self).session(),
                item_plan::<T>(
                    RequestView {
                        endpoint: Self::endpoint(),
                        call: CallView::ApplicationByIndex(index),
                    },
                    answers@,
                    no_such_application(),
                ),
            ),
    ;

    /// `delta` is the share of the normal volume to add, on the server's
    /// scale: `VOLUME_NORM` for 100%.
    fn increase_app_volume_by_percent(
        &mut self,
        index: u32,
        delta: Volume,
        answers: Vec<Answer>,
    ) -> (step: Step<()>)
        ensures
            follows(
                step,
                old(self).session(),
                final(self).session(),
                adjust_plan::<T>(
                    Self::endpoint(),
                    Target::Application,
                    index,
                    delta,
                    true,
                    answers@,
                ),
            ),
    ;

    /// `delta` is the share of the normal volume to take off, on the
    /// server's scale: `VOLUME_NORM` for 100%.
    fn decrease_app_volume_by_percent(
        &mut self,
        index: u32,
        delta: Volume,
        answers: Vec<Answer>,
    ) -> (step: Step<()>)
        ensures
            follows(
                step,
                old(self).session(),
                final(self).session(),
                adjust_plan::<T>(
                    Self::endpoint(),
                    Target::Application,
                    index,
                    delta,
                    false,
                    answers@,
                ),
            ),
    ;

    fn move_app_by_index(&mut self, stream_index: u32, device_index: u32, answers: Vec<Answer>) -> (step:
        Step<bool>)
        ensures
            follows(
                step,
                old(self).session(),
                final(self).session(),
                ack_plan(
                    RequestView {
                        endpoint: Self::endpoint(),
                        call: CallView::MoveApplicationByIndex(stream_index, device_index),
                    },
                    answers@,
                ),
            ),
    ;

    fn move_app_by_name(&mut self, stream_index: u32, device_name: &str, answers: Vec<Answer>) -> (step:
        Step<bool>)
        ensures
            follows(
                step,
                old(self).session(),
                final(self).session(),
                ack_plan(
                    RequestView {
                        endpoint: Self::endpoint(),
                        call: CallView::MoveApplicationByName(stream_index, device_name@),
                    },
                    answers@,
                ),
            ),
    ;

    fn set_app_mute(&mut self, index: u32, mute: bool, answers: Vec<Answer>) -> (step: Step<bool>)
        ensures
            follows(
                step,
                old(self).session(),
                final(self).session(),
                ack_plan(
                    RequestView {
                        endpoint: Self::endpoint(),
                        call: CallView::SetApplicationMute(index, mute),
                    },
                    answers@,
                ),
            ),
    ;
}

} // verus!
