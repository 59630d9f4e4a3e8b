use crate::controllers::exchange::{
    collect, confirm, confirmed, last_picked, latest, lemma_picked_keeps_what_is_accepted,
    lemma_picked_members, picked, Answer, Call, CallView, Descriptor, EndpointKind, Event,
    FromEvent, Request, RequestView, Step,
};
use crate::controllers::types::ServerInfo;
use crate::errors::{ErrorView, PulseCtlError, PulseCtlErrorType};
use crate::session::{refusal, Handler, HandlerView, Phase};
use crate::volume::{
    decreased, increased, lemma_decreased_is_no_higher, lemma_increased_is_no_lower, valid_channels,
    valid_volume, ChannelVolumes, Volume,
};
use vstd::prelude::*;

verus! {

/// What a call on a controller is to come to, as plain values: the request
/// to hand to the server next, or the call's result.
pub enum Plan<V> {
    Submit(RequestView),
    Finish(Result<V, ErrorView>),
}

/// The step ends the call with this error.
pub open spec fn fails<R>(step: Step<R>, error: ErrorView) -> bool {
    step matches Step::Finished(Err(e)) && e@ == error
}

/// The step hands out this request.
pub open spec fn submits<R>(step: Step<R>, request: RequestView) -> bool {
    step matches Step::Submit(r) && r@ == request
}

/// A request is handed out by a ready session only, which it leaves busy;
/// any other session refuses, and stays as it was.
pub open spec fn issued<R>(
    step: Step<R>,
    before: HandlerView,
    after: HandlerView,
    request: RequestView,
) -> bool {
    &&& after.name == before.name
    &&& if before.phase == Phase::Ready {
        after.phase == Phase::Busy && submits(step, request)
    } else {
        after.phase == before.phase && fails(step, refusal(before.phase))
    }
}

/// The step carries out the plan: a request is issued as `issued` says; a
/// result is handed out as it stands, by a session that stays as it was.
pub open spec fn follows<R>(
    step: Step<R>,
    before: HandlerView,
    after: HandlerView,
    plan: Plan<R>,
) -> bool {
    match plan {
        Plan::Submit(request) => issued(step, before, after, request),
        Plan::Finish(Ok(value)) => after == before && step == Step::Finished(
            Ok::<R, PulseCtlError>(value),
        ),
        Plan::Finish(Err(error)) => after == before && fails(step, error),
    }
}

/// `follows`, for a call whose result is a list.
pub open spec fn follows_list<T>(
    step: Step<Vec<T>>,
    before: HandlerView,
    after: HandlerView,
    plan: Plan<Seq<T>>,
) -> bool {
    match plan {
        Plan::Submit(request) => issued(step, before, after, request),
        Plan::Finish(Ok(items)) => after == before && (step matches Step::Finished(Ok(v)) && v@
            == items),
        Plan::Finish(Err(error)) => after == before && fails(step, error),
    }
}

/// The result stands for the outcome: the same value, or an error that
/// shows as the outcome's error does.
pub open spec fn agrees<R>(r: Result<R, PulseCtlError>, outcome: Result<R, ErrorView>) -> bool {
    match outcome {
        Ok(value) => r == Ok::<R, PulseCtlError>(value),
        Err(error) => r matches Err(e) && e@ == error,
    }
}

/// `agrees`, for a list.
pub open spec fn agrees_list<T>(
    r: Result<Vec<T>, PulseCtlError>,
    outcome: Result<Seq<T>, ErrorView>,
) -> bool {
    match outcome {
        Ok(items) => r matches Ok(v) && v@ == items,
        Err(error) => r matches Err(e) && e@ == error,
    }
}

/// The error of a lookup of a device that the server did not deliver.
pub open spec fn no_such_device() -> ErrorView {
    ErrorView { kind: PulseCtlErrorType::NotFound, message: "no such device"@ }
}

/// The error of a lookup of a stream that the server did not deliver.
pub open spec fn no_such_application() -> ErrorView {
    ErrorView { kind: PulseCtlErrorType::NotFound, message: "no such application"@ }
}

/// The error of a request for the server's account of itself that the
/// server did not deliver.
pub open spec fn no_server_info() -> ErrorView {
    ErrorView { kind: PulseCtlErrorType::NotFound, message: "no server info"@ }
}

/// The error of a server that names no default device.
pub open spec fn no_default_device() -> ErrorView {
    ErrorView { kind: PulseCtlErrorType::NotFound, message: "no default device"@ }
}

/// The error of a volume change that the protocol cannot carry.
pub open spec fn volume_not_set() -> ErrorView {
    ErrorView { kind: PulseCtlErrorType::OperationError, message: "Volume couldn't be set"@ }
}

pub fn missing_device() -> (e: PulseCtlError)
    ensures
        e@ == no_such_device(),
{
    PulseCtlError::new(PulseCtlErrorType::NotFound, "no such device")
}

pub fn missing_application() -> (e: PulseCtlError)
    ensures
        e@ == no_such_application(),
{
    PulseCtlError::new(PulseCtlErrorType::NotFound, "no such application")
}

pub fn missing_server_info() -> (e: PulseCtlError)
    ensures
        e@ == no_server_info(),
{
    PulseCtlError::new(PulseCtlErrorType::NotFound, "no server info")
}

pub fn volume_refused() -> (e: PulseCtlError)
    ensures
        e@ == volume_not_set(),
{
    PulseCtlError::new(PulseCtlErrorType::OperationError, "Volume couldn't be set")
}

/// What a request for one item comes to, given its answer. A wait that
/// failed gives the wait's error, whatever was delivered before it failed.
/// After a wait that went well the last item delivered is the result; an
/// answer without an item means that there is no such item: `missing`.
pub open spec fn item_outcome<T: FromEvent>(answer: Answer, missing: ErrorView) -> Result<
    T,
    ErrorView,
> {
    match answer.waited {
        Err(e) => Err(e@),
        Ok(_) => match last_picked::<T>(answer.delivered@) {
            Some(item) => Ok(item),
            None => Err(missing),
        },
    }
}

/// What a request for a list comes to, given its answer. A wait that failed
/// gives the wait's error, whatever was delivered before it failed. After a
/// wait that went well the items delivered are the result, in order; there
/// may be none.
pub open spec fn list_outcome<T: FromEvent>(answer: Answer) -> Result<Seq<T>, ErrorView> {
    match answer.waited {
        Err(e) => Err(e@),
        Ok(_) => Ok(picked::<T>(answer.delivered@)),
    }
}

/// What a request for a change comes to, given its answer. A wait that
/// failed gives the wait's error. After a wait that went well the server's
/// last yes or no is the result, and no where the server said neither.
pub open spec fn ack_outcome(answer: Answer) -> Result<bool, ErrorView> {
    match answer.waited {
        Err(e) => Err(e@),
        Ok(_) => Ok(confirmed(answer.delivered@)),
    }
}

/// What a request comes to whose answer only has to arrive: how its wait
/// ended.
pub open spec fn done_outcome(answer: Answer) -> Result<(), ErrorView> {
    match answer.waited {
        Err(e) => Err(e@),
        Ok(_) => Ok(()),
    }
}

/// A wait that failed decides the request: nothing that was delivered
/// before it failed is handed out, and the request ends in the wait's error.
pub proof fn lemma_failed_wait_voids_deliveries<T: FromEvent>(answer: Answer, missing: ErrorView)
    requires
        answer.waited is Err,
    ensures
        item_outcome::<T>(answer, missing) == Err::<T, ErrorView>(answer.waited->Err_0@),
        list_outcome::<T>(answer) == Err::<Seq<T>, ErrorView>(answer.waited->Err_0@),
        ack_outcome(answer) == Err::<bool, ErrorView>(answer.waited->Err_0@),
        done_outcome(answer) == Err::<(), ErrorView>(answer.waited->Err_0@),
{
}

/// Where every item that the server delivers before the end of the list
/// yields an item of the kind asked for, the list that the request comes to
/// has as many items as were delivered, each in its place.
pub proof fn lemma_listing_is_complete<T: FromEvent>(items: Seq<Event>, answer: Answer)
    requires
        answer.waited is Ok,
        answer.delivered@ == items.push(Event::End),
        T::accepted(Event::End) is None,
        forall|j: int| 0 <= j < items.len() ==> T::accepted(#[trigger] items[j]) is Some,
    ensures
        list_outcome::<T>(answer) matches Ok(listed) && listed.len() == items.len() && forall|
            j: int,
        |
            0 <= j < items.len() ==> Some(#[trigger] listed[j]) == T::accepted(items[j]),
{
    lemma_picked_keeps_what_is_accepted::<T>(items);
    assert(answer.delivered@.drop_last() =~= items);
    assert(picked::<T>(answer.delivered@) == picked::<T>(items));
}

/// A request for one item whose wait went well fails to find the item only
/// where nothing that was delivered yields one; and where the last event
/// delivered yields an item, that item is the result.
pub proof fn lemma_found_unless_nothing_is_accepted<T: FromEvent>(
    answer: Answer,
    missing: ErrorView,
)
    requires
        answer.waited is Ok,
    ensures
        item_outcome::<T>(answer, missing) is Err <==> forall|j: int|
            0 <= j < answer.delivered@.len() ==> T::accepted(#[trigger] answer.delivered@[j])
                is None,
        answer.delivered@.len() > 0 && T::accepted(answer.delivered@.last()) is Some
            ==> item_outcome::<T>(answer, missing) == Ok::<T, ErrorView>(
            T::accepted(answer.delivered@.last())->0,
        ),
{
    let events = answer.delivered@;
    let got = picked::<T>(events);
    lemma_picked_members::<T>(events);
    if got.len() > 0 {
        assert(got.contains(got[0]));
        let j = choose|j: int| 0 <= j < events.len() && T::accepted(#[trigger] events[j]) == Some(
            got[0],
        );
        assert(T::accepted(events[j]) is Some);
    } else {
        assert forall|j: int| 0 <= j < events.len() implies T::accepted(#[trigger] events[j])
            is None by {
            if T::accepted(events[j]) is Some {
                let x = T::accepted(events[j])->0;
                assert(got.contains(x));
                let i = choose|i: int| 0 <= i < got.len() && got[i] == x;
            }
        }
    }
}

/// A call made of one request for one item.
pub open spec fn item_plan<T: FromEvent>(
    request: RequestView,
    answers: Seq<Answer>,
    missing: ErrorView,
) -> Plan<T> {
    if answers.len() == 0 {
        Plan::Submit(request)
    } else {
        Plan::Finish(item_outcome::<T>(answers[0], missing))
    }
}

/// A call made of one request for a list.
pub open spec fn list_plan<T: FromEvent>(request: RequestView, answers: Seq<Answer>) -> Plan<
    Seq<T>,
> {
    if answers.len() == 0 {
        Plan::Submit(request)
    } else {
        Plan::Finish(list_outcome::<T>(answers[0]))
    }
}

/// A call made of one request for a change that the server says yes or no
/// to.
pub open spec fn ack_plan(request: RequestView, answers: Seq<Answer>) -> Plan<bool> {
    if answers.len() == 0 {
        Plan::Submit(request)
    } else {
        Plan::Finish(ack_outcome(answers[0]))
    }
}

/// A call made of one request that sends volumes to the server, and whose
/// answer only has to arrive. Volumes that the protocol cannot carry end the
/// call before anything is sent.
pub open spec fn store_plan(request: RequestView, volumes: Seq<u32>, answers: Seq<Answer>) -> Plan<
    (),
> {
    if !valid_channels(volumes) {
        Plan::Finish(Err(volume_not_set()))
    } else if answers.len() == 0 {
        Plan::Submit(request)
    } else {
        Plan::Finish(done_outcome(answers[0]))
    }
}

/// The name of the default device of a kind, as the server gives it.
pub open spec fn default_name(endpoint: EndpointKind, info: ServerInfo) -> Option<String> {
    match endpoint {
        EndpointKind::Sink => info.default_sink_name,
        EndpointKind::Source => info.default_source_name,
    }
}

/// The call for the default device: first the server is asked for its
/// account of itself; that gives the default device's name, by which the
/// device is then looked up.
pub open spec fn default_device_plan<T: FromEvent>(
    endpoint: EndpointKind,
    answers: Seq<Answer>,
) -> Plan<T> {
    if answers.len() == 0 {
        Plan::Submit(RequestView { endpoint, call: CallView::ServerInfo })
    } else {
        match item_outcome::<ServerInfo>(answers[0], no_server_info()) {
            Err(error) => Plan::Finish(Err(error)),
            Ok(info) => match default_name(endpoint, info) {
                None => Plan::Finish(Err(no_default_device())),
                Some(name) => if answers.len() == 1 {
                    Plan::Submit(RequestView { endpoint, call: CallView::DeviceByName(name@) })
                } else {
                    Plan::Finish(item_outcome::<T>(answers[1], no_such_device()))
                },
            },
        }
    }
}

/// What is changed by a change of volume: a device or a stream.
#[derive(Clone, Copy, Debug, PartialEq, Eq, Structural)]
pub enum Target {
    Device,
    Application,
}

/// The request that fetches the target with this index.
pub open spec fn fetch_call(target: Target, index: u32) -> CallView {
    match target {
        Target::Device => CallView::DeviceByIndex(index),
        Target::Application => CallView::ApplicationByIndex(index),
    }
}

/// The request that gives the target with this index these volumes.
pub open spec fn store_call(target: Target, index: u32, volumes: Seq<u32>) -> CallView {
    match target {
        Target::Device => CallView::SetDeviceVolumeByIndex(index, volumes),
        Target::Application => CallView::SetApplicationVolume(index, volumes),
    }
}

/// The error of a lookup of a target that the server did not deliver.
pub open spec fn no_such(target: Target) -> ErrorView {
    match target {
        Target::Device => no_such_device(),
        Target::Application => no_such_application(),
    }
}

/// The volumes after a change by `delta`: every channel raised, or every
/// channel lowered.
pub open spec fn adjusted(volumes: Seq<u32>, delta: u32, raise: bool) -> Seq<u32> {
    if raise {
        increased(volumes, delta)
    } else {
        decreased(volumes, delta)
    }
}

/// The call that changes the volume of a device or a stream by `delta`:
/// the target is fetched by its index, every channel of its volume is
/// raised or lowered, and the new volume is sent back under the same index.
/// Volumes that the protocol cannot carry end the call before anything is
/// sent back.
pub open spec fn adjust_plan<T: Descriptor>(
    endpoint: EndpointKind,
    target: Target,
    index: u32,
    delta: Volume,
    raise: bool,
    answers: Seq<Answer>,
) -> Plan<()> {
    if answers.len() == 0 {
        Plan::Submit(RequestView { endpoint, call: fetch_call(target, index) })
    } else {
        match item_outcome::<T>(answers[0], no_such(target)) {
            Err(error) => Plan::Finish(Err(error)),
            Ok(item) => if !(valid_channels(item.channel_volumes()) && valid_volume(delta.0)) {
                Plan::Finish(Err(volume_not_set()))
            } else if answers.len() == 1 {
                Plan::Submit(
                    RequestView {
                        endpoint,
                        call: store_call(
                            target,
                            index,
                            adjusted(item.channel_volumes(), delta.0, raise),
                        ),
                    },
                )
            } else {
                Plan::Finish(done_outcome(answers[1]))
            },
        }
    }
}

/// Ends a request for one item.
pub fn finish_item<T: FromEvent>(answer: Answer, missing: PulseCtlError) -> (r: Result<
    T,
    PulseCtlError,
>)
    ensures
        agrees(r, item_outcome::<T>(answer, missing@)),
{
    let Answer { delivered, waited } = answer;
    let cell = latest::<T>(delivered);
    match cell.read(waited) {
        Ok(Some(item)) => Ok(item),
        Ok(None) => Err(missing),
        Err(e) => Err(e),
    }
}

/// Ends a request for a list.
pub fn finish_list<T: FromEvent>(answer: Answer) -> (r: Result<Vec<T>, PulseCtlError>)
    ensures
        agrees_list(r, list_outcome::<T>(answer)),
{
    let Answer { delivered, waited } = answer;
    let cell = collect::<T>(delivered);
    cell.read(waited)
}

/// Ends a request for a change that the server says yes or no to.
pub fn finish_ack(answer: Answer) -> (r: Result<bool, PulseCtlError>)
    ensures
        agrees(r, ack_outcome(answer)),
{
    let Answer { delivered, waited } = answer;
    let cell = confirm(delivered);
    cell.read(waited)
}

/// Ends a request whose answer only has to arrive.
pub fn finish_done(answer: Answer) -> (r: Result<(), PulseCtlError>)
    ensures
        agrees(r, done_outcome(answer)),
{
    match answer.waited {
        Ok(_) => Ok(()),
        Err(e) => Err(e),
    }
}

/// Hands a request out, if the session can take one.
pub fn issue<R>(handler: &mut Handler, request: Request) -> (step: Step<R>)
    ensures
        issued(step, old(handler)@, final(handler)@, request@),
{
    match handler.start_request() {
        Ok(_) => Step::Submit(request),
        Err(e) => Step::Finished(Err(e)),
    }
}

/// Carries out a call made of one request for one item.
pub fn run_item<T: FromEvent>(
    handler: &mut Handler,
    request: Request,
    answers: Vec<Answer>,
    missing: PulseCtlError,
) -> (step: Step<T>)
    ensures
        follows(
            step,
            old(handler)@,
            final(handler)@,
            item_plan::<T>(request@, answers@, missing@),
        ),
{
    let mut answers = answers;
    if answers.len() == 0 {
        return issue(handler, request);
    }
    let answer = answers.remove(0);
    Step::Finished(finish_item::<T>(answer, missing))
}

/// Carries out a call made of one request for a list.
pub fn run_list<T: FromEvent>(handler: &mut Handler, request: Request, answers: Vec<Answer>) -> (step:
    Step<Vec<T>>)
    ensures
        follows_list(step, old(handler)@, final(handler)@, list_plan::<T>(request@, answers@)),
{
    let mut answers = answers;
    if answers.len() == 0 {
        return issue(handler, request);
    }
    let answer = answers.remove(0);
    Step::Finished(finish_list::<T>(answer))
}

/// Carries out a call made of one request for a change that the server
/// says yes or no to.
pub fn run_ack(handler: &mut Handler, request: Request, answers: Vec<Answer>) -> (step: Step<bool>)
    ensures
        follows(step, old(handler)@, final(handler)@, ack_plan(request@, answers@)),
{
    let mut answers = answers;
    if answers.len() == 0 {
        return issue(handler, request);
    }
    let answer = answers.remove(0);
    Step::Finished(finish_ack(answer))
}

/// Carries out a call made of one request that sends `volume` to the
/// server.
pub fn run_store(
    handler: &mut Handler,
    request: Request,
    volume: &ChannelVolumes,
    answers: Vec<Answer>,
) -> (step: Step<()>)
    ensures
        follows(
            step,
            old(handler)@,
            final(handler)@,
            store_plan(request@, volume@, answers@),
        ),
{
    if !volume.is_valid() {
        return Step::Finished(Err(volume_refused()));
    }
    let mut answers = answers;
    if answers.len() == 0 {
        return issue(handler, request);
    }
    let answer = answers.remove(0);
    Step::Finished(finish_done(answer))
}

/// Carries out the call for the default device of a kind.
pub fn run_default_device<T: FromEvent>(
    handler: &mut Handler,
    endpoint: EndpointKind,
    answers: Vec<Answer>,
) -> (step: Step<T>)
    ensures
        follows(
            step,
            old(handler)@,
            final(handler)@,
            default_device_plan::<T>(endpoint, answers@),
        ),
{
    let mut answers = answers;
    if answers.len() == 0 {
        return issue(handler, Request { endpoint, call: Call::ServerInfo });
    }
    let first = answers.remove(0);
    let info = match finish_item::<ServerInfo>(first, missing_server_info()) {
        Ok(info) => info,
        Err(e) => {
            return Step::Finished(Err(e));
        },
    };
    let name = match endpoint {
        EndpointKind::Sink => info.default_sink_name,
        EndpointKind::Source => info.default_source_name,
    };
    let name = match name {
        Some(name) => name,
        None => {
            return Step::Finished(
                Err(PulseCtlError::new(PulseCtlErrorType::NotFound, "no default device")),
            );
        },
    };
    if answers.len() == 0 {
        return issue(handler, Request { endpoint, call: Call::DeviceByName(name) });
    }
    let second = answers.remove(0);
    Step::Finished(finish_item::<T>(second, missing_device()))
}

/// Carries out the call that changes the volume of a device or a stream.
pub fn run_adjust<T: Descriptor>(
    handler: &mut Handler,
    endpoint: EndpointKind,
    target: Target,
    index: u32,
    delta: Volume,
    raise: bool,
    answers: Vec<Answer>,
) -> (step: Step<()>)
    ensures
        follows(
            step,
            old(handler)@,
            final(handler)@,
            adjust_plan::<T>(endpoint, target, index, delta, raise, answers@),
        ),
{
    let mut answers = answers;
    if answers.len() == 0 {
        let call = match target {
            Target::Device => Call::DeviceByIndex(index),
            Target::Application => Call::ApplicationByIndex(index),
        };
        return issue(handler, Request { endpoint, call });
    }
    let first = answers.remove(0);
    let missing = match target {
        Target::Device => missing_device(),
        Target::Application => missing_application(),
    };
    let item = match finish_item::<T>(first, missing) {
        Ok(item) => item,
        Err(e) => {
            return Step::Finished(Err(e));
        },
    };
    let changed = if raise {
        item.volume().increase(delta)
    } else {
        item.volume().decrease(delta)
    };
    let volumes = match changed {
        Some(volumes) => volumes,
        None => {
            return Step::Finished(Err(volume_refused()));
        },
    };
    if answers.len() == 0 {
        let call = match target {
            Target::Device => Call::SetDeviceVolumeByIndex(index, volumes),
            Target::Application => Call::SetApplicationVolume(index, volumes),
        };
        return issue(handler, Request { endpoint, call });
    }
    let second = answers.remove(0);
    Step::Finished(finish_done(second))
}

/// The request sends no volumes but such as the protocol can carry.
pub open spec fn carries(call: CallView) -> bool {
    match call {
        CallView::SetDeviceVolumeByIndex(_, volumes) => valid_channels(volumes),
        CallView::SetDeviceVolumeByName(_, volumes) => valid_channels(volumes),
        CallView::SetApplicationVolume(_, volumes) => valid_channels(volumes),
        _ => true,
    }
}

/// A call that sends given volumes to a device hands out no request with
/// volumes that the protocol cannot carry.
pub proof fn lemma_stored_volumes_can_be_carried(
    endpoint: EndpointKind,
    index: u32,
    name: Seq<char>,
    volumes: Seq<u32>,
    answers: Seq<Answer>,
)
    ensures
        store_plan(
            RequestView { endpoint, call: CallView::SetDeviceVolumeByIndex(index, volumes) },
            volumes,
            answers,
        ) matches Plan::Submit(r) ==> carries(r.call),
        store_plan(
            RequestView { endpoint, call: CallView::SetDeviceVolumeByName(name, volumes) },
            volumes,
            answers,
        ) matches Plan::Submit(r) ==> carries(r.call),
{
}

/// A call that changes a volume hands out no request with volumes that the
/// protocol cannot carry.
pub proof fn lemma_adjusted_volumes_can_be_carried<T: Descriptor>(
    endpoint: EndpointKind,
    target: Target,
    index: u32,
    delta: Volume,
    raise: bool,
    answers: Seq<Answer>,
)
    ensures
        adjust_plan::<T>(endpoint, target, index, delta, raise, answers) matches Plan::Submit(r)
            ==> carries(r.call),
{
    if answers.len() > 0 {
        match item_outcome::<T>(answers[0], no_such(target)) {
            Ok(item) => {
                if valid_channels(item.channel_volumes()) {
                    lemma_increased_is_no_lower(item.channel_volumes(), delta.0);
                    lemma_decreased_is_no_higher(item.channel_volumes(), delta.0);
                }
            },
            Err(_) => {},
        }
    }
}

} // verus!
