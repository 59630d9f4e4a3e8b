use pulsectl::controllers::exchange::{Answer, Call, EndpointKind, Event, Step};
use pulsectl::controllers::source_controller::SourceController;
use pulsectl::controllers::types::{ApplicationInfo, DeviceInfo, ServerInfo};
use pulsectl::controllers::{AppControl, DeviceControl};
use pulsectl::errors::{PulseCtlError, PulseCtlErrorType};
use pulsectl::session::{ContextState, IterateResult, OperationState, Phase};
use pulsectl::volume::{ChannelVolumes, Volume, VOLUME_MAX, VOLUME_NORM};

fn ready() -> SourceController {
    let mut c = SourceController::create();
    assert!(matches!(
        c.handler.handshake_step(IterateResult::Success, ContextState::Ready),
        Some(Ok(()))
    ));
    c
}

fn done(c: &mut SourceController) {
    assert!(matches!(
        c.handler.wait_step(IterateResult::Success, OperationState::Done),
        Some(Ok(()))
    ));
}

fn mic(index: u32, name: &str, volumes: Vec<u32>) -> DeviceInfo {
    DeviceInfo {
        index,
        name: Some(name.to_string()),
        description: Some(format!("{} (described)", name)),
        volume: ChannelVolumes::from_values(volumes),
    }
}

fn recorder(index: u32, name: &str, volumes: Vec<u32>) -> ApplicationInfo {
    ApplicationInfo {
        index,
        name: Some(name.to_string()),
        process_binary: Some("arecord".to_string()),
        volume: ChannelVolumes::from_values(volumes),
        device_index: 1,
        corked: false,
    }
}

fn well(delivered: Vec<Event>) -> Answer {
    Answer { delivered, waited: Ok(()) }
}

fn badly(delivered: Vec<Event>) -> Answer {
    Answer {
        delivered,
        waited: Err(PulseCtlError::new(PulseCtlErrorType::OperationError, "stopped")),
    }
}

fn submitted<R>(step: Step<R>) -> (EndpointKind, Call) {
    match step {
        Step::Submit(request) => (request.endpoint, request.call),
        Step::Finished(_) => panic!("a request was expected"),
    }
}

fn finished<R>(step: Step<R>) -> Result<R, PulseCtlError> {
    match step {
        Step::Finished(result) => result,
        Step::Submit(_) => panic!("a result was expected"),
    }
}

#[test]
fn source_create_names_its_session() {
    let c = SourceController::create();
    assert_eq!(c.handler.name(), "SourceController");
    assert_eq!(c.handler.phase(), Phase::Connecting);
}

#[test]
fn source_calls_are_refused_before_the_session_is_ready() {
    let mut c = SourceController::create();
    let e = finished(c.list_devices(Vec::new())).unwrap_err();
    assert_eq!(e.kind(), PulseCtlErrorType::ConnectError);
    assert_eq!(e.message(), "the session is not connected yet");
    assert_eq!(c.handler.phase(), Phase::Connecting);
    let e = finished(c.get_device_by_index(0, Vec::new())).unwrap_err();
    assert_eq!(e.kind(), PulseCtlErrorType::ConnectError);
    let e = finished(c.set_app_mute(0, true, Vec::new())).unwrap_err();
    assert_eq!(e.kind(), PulseCtlErrorType::ConnectError);
}

#[test]
fn source_calls_are_refused_while_a_request_is_in_flight() {
    let mut c = ready();
    let _ = submitted(c.list_devices(Vec::new()));
    assert_eq!(c.handler.phase(), Phase::Busy);
    let e = finished(c.list_applications(Vec::new())).unwrap_err();
    assert_eq!(e.kind(), PulseCtlErrorType::OperationError);
    assert_eq!(e.message(), "a request is already in flight");
    assert_eq!(c.handler.phase(), Phase::Busy);
}

#[test]
fn source_calls_are_refused_after_teardown() {
    let mut c = ready();
    assert!(c.handler.disconnect());
    let e = finished(c.get_server_info(Vec::new())).unwrap_err();
    assert_eq!(e.kind(), PulseCtlErrorType::ConnectError);
    assert_eq!(e.message(), "the session is closed");
}

#[test]
fn source_list_devices_asks_then_hands_out_every_item() {
    let mut c = ready();
    let (endpoint, call) = submitted(c.list_devices(Vec::new()));
    assert_eq!(endpoint, EndpointKind::Source);
    assert!(matches!(call, Call::ListDevices));
    assert_eq!(c.handler.phase(), Phase::Busy);
    done(&mut c);
    let answer = well(vec![
        Event::Device(mic(3, "a", vec![1])),
        Event::Device(mic(1, "b", vec![2, 2])),
        Event::End,
    ]);
    let devices = finished(c.list_devices(vec![answer])).unwrap();
    assert_eq!(devices.len(), 2);
    assert_eq!(devices[0].index, 3);
    assert_eq!(devices[0].name.as_deref(), Some("a"));
    assert_eq!(devices[0].description.as_deref(), Some("a (described)"));
    assert_eq!(devices[0].volume.to_values(), vec![1]);
    assert_eq!(devices[1].index, 1);
    assert_eq!(devices[1].volume.to_values(), vec![2, 2]);
    assert_eq!(c.handler.phase(), Phase::Ready);
}

#[test]
fn source_list_without_items_is_empty_and_no_error() {
    let mut c = ready();
    let devices = finished(c.list_devices(vec![well(vec![Event::End])])).unwrap();
    assert!(devices.is_empty());
    let apps = finished(c.list_applications(vec![well(Vec::new())])).unwrap();
    assert!(apps.is_empty());
}

#[test]
fn source_list_keeps_devices_without_a_name() {
    let mut c = ready();
    let nameless = DeviceInfo {
        index: 9,
        name: None,
        description: None,
        volume: ChannelVolumes::new(),
    };
    let devices = finished(c.list_devices(vec![well(vec![Event::Device(nameless)])])).unwrap();
    assert_eq!(devices.len(), 1);
    assert_eq!(devices[0].index, 9);
    assert!(devices[0].name.is_none());
}

#[test]
fn source_list_passes_over_events_of_other_requests() {
    let mut c = ready();
    let answer = well(vec![
        Event::Ack(true),
        Event::Application(recorder(5, "x", vec![1])),
        Event::Device(mic(2, "m", vec![1])),
        Event::Error,
    ]);
    let devices = finished(c.list_devices(vec![answer])).unwrap();
    assert_eq!(devices.len(), 1);
    assert_eq!(devices[0].index, 2);
}

#[test]
fn source_get_device_by_index_finds_the_device() {
    let mut c = ready();
    let (endpoint, call) = submitted(c.get_device_by_index(4, Vec::new()));
    assert_eq!(endpoint, EndpointKind::Source);
    assert!(matches!(call, Call::DeviceByIndex(4)));
    done(&mut c);
    let answer = well(vec![Event::Device(mic(4, "m", vec![7, 8])), Event::End]);
    let device = finished(c.get_device_by_index(4, vec![answer])).unwrap();
    assert_eq!(device.index, 4);
    assert_eq!(device.volume.to_values(), vec![7, 8]);
}

#[test]
fn source_get_device_by_index_of_an_absent_index_is_not_found() {
    let mut c = ready();
    for delivered in [Vec::new(), vec![Event::Error], vec![Event::End]] {
        let e = finished(c.get_device_by_index(77, vec![well(delivered)])).unwrap_err();
        assert_eq!(e.kind(), PulseCtlErrorType::NotFound);
        assert_ne!(e.kind(), PulseCtlErrorType::OperationError);
        assert_eq!(e.message(), "no such device");
    }
}

#[test]
fn source_every_listed_index_is_found_with_that_index() {
    let held = vec![mic(0, "a", vec![1]), mic(5, "b", vec![2]), mic(2, "c", vec![3])];
    let mut c = ready();
    let mut listing: Vec<Event> = held.iter().cloned().map(Event::Device).collect();
    listing.push(Event::End);
    let listed = finished(c.list_devices(vec![well(listing)])).unwrap();
    assert_eq!(listed.len(), 3);
    for device in listed {
        let mut reply: Vec<Event> =
            held.iter().filter(|d| d.index == device.index).cloned().map(Event::Device).collect();
        reply.push(Event::End);
        let found = finished(c.get_device_by_index(device.index, vec![well(reply)])).unwrap();
        assert_eq!(found.index, device.index);
        assert_eq!(found.name, device.name);
    }
}

#[test]
fn source_a_failed_wait_voids_what_was_delivered() {
    let mut c = ready();
    let answer = badly(vec![Event::Device(mic(4, "m", vec![7]))]);
    let e = finished(c.get_device_by_index(4, vec![answer])).unwrap_err();
    assert_eq!(e.kind(), PulseCtlErrorType::OperationError);
    assert_eq!(e.message(), "stopped");
    let answer = badly(vec![Event::Device(mic(4, "m", vec![7]))]);
    let e = finished(c.list_devices(vec![answer])).unwrap_err();
    assert_eq!(e.kind(), PulseCtlErrorType::OperationError);
    let e = finished(c.set_default_device("m", vec![badly(vec![Event::Ack(true)])])).unwrap_err();
    assert_eq!(e.kind(), PulseCtlErrorType::OperationError);
    // the session takes the next call
    assert_eq!(c.handler.phase(), Phase::Ready);
    let _ = submitted(c.list_devices(Vec::new()));
}

#[test]
fn source_get_device_by_name_asks_by_that_name() {
    let mut c = ready();
    let (endpoint, call) = submitted(c.get_device_by_name("mic0", Vec::new()));
    assert_eq!(endpoint, EndpointKind::Source);
    match call {
        Call::DeviceByName(name) => assert_eq!(name, "mic0"),
        _ => panic!("a lookup by name was expected"),
    }
    done(&mut c);
    let answer = well(vec![Event::Device(mic(1, "mic0", vec![7]))]);
    let device = finished(c.get_device_by_name("mic0", vec![answer])).unwrap();
    assert_eq!(device.name.as_deref(), Some("mic0"));
    let e = finished(c.get_device_by_name("none", vec![well(vec![Event::Error])])).unwrap_err();
    assert_eq!(e.kind(), PulseCtlErrorType::NotFound);
}

#[test]
fn source_a_lookup_keeps_the_last_item_delivered() {
    let mut c = ready();
    let answer = well(vec![
        Event::Device(mic(1, "first", vec![7])),
        Event::Device(mic(1, "second", vec![8])),
        Event::End,
    ]);
    let device = finished(c.get_device_by_index(1, vec![answer])).unwrap();
    assert_eq!(device.name.as_deref(), Some("second"));
}

#[test]
fn source_get_server_info_hands_out_what_the_server_says() {
    let mut c = ready();
    let (endpoint, call) = submitted(c.get_server_info(Vec::new()));
    assert_eq!(endpoint, EndpointKind::Source);
    assert!(matches!(call, Call::ServerInfo));
    done(&mut c);
    let info = ServerInfo {
        default_sink_name: Some("speakers".to_string()),
        default_source_name: Some("mic0".to_string()),
    };
    let got = finished(c.get_server_info(vec![well(vec![Event::Server(info)])])).unwrap();
    assert_eq!(got.default_sink_name.as_deref(), Some("speakers"));
    assert_eq!(got.default_source_name.as_deref(), Some("mic0"));
    let e = finished(c.get_server_info(vec![well(Vec::new())])).unwrap_err();
    assert_eq!(e.kind(), PulseCtlErrorType::NotFound);
    assert_eq!(e.message(), "no server info");
}

#[test]
fn source_get_default_device_asks_the_server_then_looks_the_name_up() {
    let mut c = ready();
    let (_, call) = submitted(c.get_default_device(Vec::new()));
    assert!(matches!(call, Call::ServerInfo));
    done(&mut c);
    let info = ServerInfo {
        default_sink_name: Some("speakers".to_string()),
        default_source_name: Some("mic0".to_string()),
    };
    let first = || well(vec![Event::Server(info.clone())]);
    let (endpoint, call) = submitted(c.get_default_device(vec![first()]));
    assert_eq!(endpoint, EndpointKind::Source);
    match call {
        Call::DeviceByName(name) => assert_eq!(name, "mic0"),
        _ => panic!("a lookup by name was expected"),
    }
    assert_eq!(c.handler.phase(), Phase::Busy);
    done(&mut c);
    let second = well(vec![Event::Device(mic(6, "mic0", vec![9])), Event::End]);
    let device = finished(c.get_default_device(vec![first(), second])).unwrap();
    assert_eq!(device.index, 6);
    assert_eq!(device.name.as_deref(), Some("mic0"));
}

#[test]
fn source_get_default_device_without_a_default_is_not_found() {
    let mut c = ready();
    let info = ServerInfo { default_sink_name: Some("speakers".to_string()), default_source_name: None };
    let e = finished(c.get_default_device(vec![well(vec![Event::Server(info)])])).unwrap_err();
    assert_eq!(e.kind(), PulseCtlErrorType::NotFound);
    assert_eq!(e.message(), "no default device");
    let e = finished(c.get_default_device(vec![well(Vec::new())])).unwrap_err();
    assert_eq!(e.message(), "no server info");
    let e = finished(c.get_default_device(vec![badly(Vec::new())])).unwrap_err();
    assert_eq!(e.kind(), PulseCtlErrorType::OperationError);
    assert_eq!(c.handler.phase(), Phase::Ready);
}

#[test]
fn source_get_default_device_whose_lookup_finds_nothing_is_not_found() {
    let mut c = ready();
    let info = ServerInfo { default_sink_name: None, default_source_name: Some("gone".to_string()) };
    let answers = vec![well(vec![Event::Server(info)]), well(vec![Event::Error])];
    let e = finished(c.get_default_device(answers)).unwrap_err();
    assert_eq!(e.kind(), PulseCtlErrorType::NotFound);
    assert_eq!(e.message(), "no such device");
}

#[test]
fn source_set_default_device_hands_out_the_servers_answer() {
    let mut c = ready();
    let (endpoint, call) = submitted(c.set_default_device("mic0", Vec::new()));
    assert_eq!(endpoint, EndpointKind::Source);
    match call {
        Call::SetDefaultDevice(name) => assert_eq!(name, "mic0"),
        _ => panic!("a change of the default was expected"),
    }
    done(&mut c);
    assert_eq!(finished(c.set_default_device("mic0", vec![well(vec![Event::Ack(true)])])).unwrap(), true);
    assert_eq!(
        finished(c.set_default_device("nonexistent", vec![well(vec![Event::Ack(false)])])).unwrap(),
        false
    );
    // a server that says neither counts as no
    assert_eq!(finished(c.set_default_device("mic0", vec![well(Vec::new())])).unwrap(), false);
}

#[test]
fn source_set_device_volume_sends_the_volumes_and_waits() {
    let mut c = ready();
    let volumes = ChannelVolumes::from_values(vec![10, 20]);
    let (endpoint, call) = submitted(c.set_device_volume_by_index(3, &volumes, Vec::new()));
    assert_eq!(endpoint, EndpointKind::Source);
    match call {
        Call::SetDeviceVolumeByIndex(index, sent) => {
            assert_eq!(index, 3);
            assert_eq!(sent.to_values(), vec![10, 20]);
        },
        _ => panic!("a change of volume was expected"),
    }
    done(&mut c);
    assert!(finished(c.set_device_volume_by_index(3, &volumes, vec![well(Vec::new())])).is_ok());
    let e = finished(c.set_device_volume_by_index(3, &volumes, vec![badly(Vec::new())])).unwrap_err();
    assert_eq!(e.kind(), PulseCtlErrorType::OperationError);

    let (_, call) = submitted(c.set_device_volume_by_name("mic0", &volumes, Vec::new()));
    match call {
        Call::SetDeviceVolumeByName(name, sent) => {
            assert_eq!(name, "mic0");
            assert_eq!(sent.to_values(), vec![10, 20]);
        },
        _ => panic!("a change of volume was expected"),
    }
    done(&mut c);
    assert!(finished(c.set_device_volume_by_name("mic0", &volumes, vec![well(Vec::new())])).is_ok());
}

#[test]
fn source_increase_device_volume_fetches_raises_and_stores() {
    let mut c = ready();
    let delta = Volume(3276);
    let (endpoint, call) = submitted(c.increase_device_volume_by_percent(2, delta, Vec::new()));
    assert_eq!(endpoint, EndpointKind::Source);
    assert!(matches!(call, Call::DeviceByIndex(2)));
    done(&mut c);
    let fetched = || well(vec![Event::Device(mic(2, "m", vec![VOLUME_NORM, VOLUME_NORM])), Event::End]);
    let (endpoint, call) = submitted(c.increase_device_volume_by_percent(2, delta, vec![fetched()]));
    assert_eq!(endpoint, EndpointKind::Source);
    match call {
        Call::SetDeviceVolumeByIndex(index, sent) => {
            assert_eq!(index, 2);
            assert_eq!(sent.to_values(), vec![68812, 68812]);
        },
        _ => panic!("a change of volume was expected"),
    }
    assert_eq!(c.handler.phase(), Phase::Busy);
    done(&mut c);
    let answers = vec![fetched(), well(Vec::new())];
    assert!(finished(c.increase_device_volume_by_percent(2, delta, answers)).is_ok());
    let answers = vec![fetched(), badly(Vec::new())];
    let e = finished(c.increase_device_volume_by_percent(2, delta, answers)).unwrap_err();
    assert_eq!(e.kind(), PulseCtlErrorType::OperationError);
    assert_eq!(e.message(), "stopped");
}

#[test]
fn source_increase_device_volume_stops_at_the_maximum() {
    let mut c = ready();
    let fetched = well(vec![Event::Device(mic(2, "m", vec![VOLUME_MAX - 1, 5]))]);
    let (_, call) = submitted(c.increase_device_volume_by_percent(2, Volume(VOLUME_NORM), vec![fetched]));
    match call {
        Call::SetDeviceVolumeByIndex(_, sent) => {
            assert_eq!(sent.to_values(), vec![VOLUME_MAX, 5 + VOLUME_NORM]);
        },
        _ => panic!("a change of volume was expected"),
    }
}

#[test]
fn source_decrease_device_volume_fetches_lowers_and_stores() {
    let mut c = ready();
    let (_, call) = submitted(c.decrease_device_volume_by_percent(2, Volume(10), Vec::new()));
    assert!(matches!(call, Call::DeviceByIndex(2)));
    done(&mut c);
    let fetched = well(vec![Event::Device(mic(2, "m", vec![25, 5]))]);
    let (_, call) = submitted(c.decrease_device_volume_by_percent(2, Volume(10), vec![fetched]));
    match call {
        Call::SetDeviceVolumeByIndex(index, sent) => {
            assert_eq!(index, 2);
            assert_eq!(sent.to_values(), vec![15, 0]);
        },
        _ => panic!("a change of volume was expected"),
    }
}

#[test]
fn source_change_of_volume_of_an_absent_device_is_not_found() {
    let mut c = ready();
    let e = finished(c.increase_device_volume_by_percent(2, Volume(1), vec![well(vec![Event::Error])]))
        .unwrap_err();
    assert_eq!(e.kind(), PulseCtlErrorType::NotFound);
    assert_eq!(e.message(), "no such device");
    let e = finished(c.decrease_app_volume_by_percent(2, Volume(1), vec![well(vec![Event::Error])]))
        .unwrap_err();
    assert_eq!(e.kind(), PulseCtlErrorType::NotFound);
    assert_eq!(e.message(), "no such application");
    assert_eq!(c.handler.phase(), Phase::Ready);
}

#[test]
fn source_change_of_volume_that_cannot_be_carried_is_an_error() {
    let mut c = ready();
    // a device without channels
    let fetched = well(vec![Event::Device(mic(2, "m", Vec::new()))]);
    let e = finished(c.increase_device_volume_by_percent(2, Volume(1), vec![fetched])).unwrap_err();
    assert_eq!(e.kind(), PulseCtlErrorType::OperationError);
    assert_eq!(e.message(), "Volume couldn't be set");
    // a delta above the maximum
    let fetched = well(vec![Event::Device(mic(2, "m", vec![1]))]);
    let e = finished(c.decrease_device_volume_by_percent(2, Volume(u32::MAX), vec![fetched]))
        .unwrap_err();
    assert_eq!(e.kind(), PulseCtlErrorType::OperationError);
    assert_eq!(e.message(), "Volume couldn't be set");
    assert_eq!(c.handler.phase(), Phase::Ready);
}

#[test]
fn source_list_applications_hands_out_every_stream() {
    let mut c = ready();
    let (endpoint, call) = submitted(c.list_applications(Vec::new()));
    assert_eq!(endpoint, EndpointKind::Source);
    assert!(matches!(call, Call::ListApplications));
    done(&mut c);
    let answer = well(vec![
        Event::Application(recorder(8, "r1", vec![1])),
        Event::Application(recorder(9, "r2", vec![2])),
        Event::End,
    ]);
    let apps = finished(c.list_applications(vec![answer])).unwrap();
    assert_eq!(apps.len(), 2);
    assert_eq!(apps[0].index, 8);
    assert_eq!(apps[1].index, 9);
    assert_eq!(apps[1].name.as_deref(), Some("r2"));
    assert_eq!(apps[1].process_binary.as_deref(), Some("arecord"));
    assert_eq!(apps[1].device_index, 1);
    assert!(!apps[1].corked);
}

#[test]
fn source_get_app_by_index_finds_the_stream_or_not() {
    let mut c = ready();
    let (_, call) = submitted(c.get_app_by_index(8, Vec::new()));
    assert!(matches!(call, Call::ApplicationByIndex(8)));
    done(&mut c);
    let app = finished(c.get_app_by_index(8, vec![well(vec![Event::Application(recorder(8, "r", vec![1]))])]))
        .unwrap();
    assert_eq!(app.index, 8);
    let e = finished(c.get_app_by_index(8, vec![well(vec![Event::Error])])).unwrap_err();
    assert_eq!(e.kind(), PulseCtlErrorType::NotFound);
    assert_eq!(e.message(), "no such application");
}

#[test]
fn source_increase_app_volume_fetches_raises_and_stores() {
    let mut c = ready();
    let (_, call) = submitted(c.increase_app_volume_by_percent(8, Volume(5), Vec::new()));
    assert!(matches!(call, Call::ApplicationByIndex(8)));
    done(&mut c);
    let fetched = || well(vec![Event::Application(recorder(8, "r", vec![1, 2, 3]))]);
    let (endpoint, call) = submitted(c.increase_app_volume_by_percent(8, Volume(5), vec![fetched()]));
    assert_eq!(endpoint, EndpointKind::Source);
    match call {
        Call::SetApplicationVolume(index, sent) => {
            assert_eq!(index, 8);
            assert_eq!(sent.to_values(), vec![6, 7, 8]);
        },
        _ => panic!("a change of volume was expected"),
    }
    done(&mut c);
    assert!(finished(c.increase_app_volume_by_percent(8, Volume(5), vec![fetched(), well(Vec::new())])).is_ok());
    let (_, call) = submitted(c.decrease_app_volume_by_percent(8, Volume(2), vec![fetched()]));
    match call {
        Call::SetApplicationVolume(index, sent) => {
            assert_eq!(index, 8);
            assert_eq!(sent.to_values(), vec![0, 0, 1]);
        },
        _ => panic!("a change of volume was expected"),
    }
}

#[test]
fn source_move_and_mute_hand_out_the_servers_answer() {
    let mut c = ready();
    let (endpoint, call) = submitted(c.move_app_by_index(8, 2, Vec::new()));
    assert_eq!(endpoint, EndpointKind::Source);
    assert!(matches!(call, Call::MoveApplicationByIndex(8, 2)));
    done(&mut c);
    assert_eq!(finished(c.move_app_by_index(8, 2, vec![well(vec![Event::Ack(true)])])).unwrap(), true);

    let (_, call) = submitted(c.move_app_by_name(8, "mic1", Vec::new()));
    match call {
        Call::MoveApplicationByName(index, name) => {
            assert_eq!(index, 8);
            assert_eq!(name, "mic1");
        },
        _ => panic!("a move was expected"),
    }
    done(&mut c);
    assert_eq!(finished(c.move_app_by_name(8, "mic1", vec![well(vec![Event::Ack(false)])])).unwrap(), false);

    let (_, call) = submitted(c.set_app_mute(8, true, Vec::new()));
    assert!(matches!(call, Call::SetApplicationMute(8, true)));
    done(&mut c);
    assert_eq!(finished(c.set_app_mute(8, true, vec![well(vec![Event::Ack(true)])])).unwrap(), true);
    // of several answers the last one stays
    let acks = well(vec![Event::Ack(true), Event::Ack(false)]);
    assert_eq!(finished(c.set_app_mute(8, false, vec![acks])).unwrap(), false);
}

#[test]
fn source_list_applications_keeps_streams_of_unknown_programs() {
    let mut c = ready();
    let mut unknown = recorder(8, "r1", vec![1]);
    unknown.process_binary = None;
    let apps = finished(c.list_applications(vec![well(vec![Event::Application(unknown), Event::End])]))
        .unwrap();
    assert_eq!(apps.len(), 1);
    assert_eq!(apps[0].index, 8);
    assert_eq!(apps[0].process_binary, None);
}

#[test]
fn source_set_device_volume_that_cannot_be_carried_sends_nothing() {
    let mut c = ready();
    for values in [Vec::new(), vec![1; 33], vec![1, VOLUME_MAX + 1]] {
        let volumes = ChannelVolumes::from_values(values);
        let e = finished(c.set_device_volume_by_index(3, &volumes, Vec::new())).unwrap_err();
        assert_eq!(e.kind(), PulseCtlErrorType::OperationError);
        assert_eq!(e.message(), "Volume couldn't be set");
        let e = finished(c.set_device_volume_by_name("mic0", &volumes, Vec::new())).unwrap_err();
        assert_eq!(e.message(), "Volume couldn't be set");
        let e = finished(c.set_device_volume_by_index(3, &volumes, vec![well(Vec::new())])).unwrap_err();
        assert_eq!(e.message(), "Volume couldn't be set");
        assert_eq!(c.handler.phase(), Phase::Ready);
    }
    // the greatest vector that can be carried is sent
    let volumes = ChannelVolumes::from_values(vec![VOLUME_MAX; 32]);
    let (_, call) = submitted(c.set_device_volume_by_index(3, &volumes, Vec::new()));
    match call {
        Call::SetDeviceVolumeByIndex(_, sent) => assert_eq!(sent.to_values(), vec![VOLUME_MAX; 32]),
        _ => panic!("a change of volume was expected"),
    }
}
