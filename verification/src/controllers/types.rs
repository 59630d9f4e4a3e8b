use crate::volume::ChannelVolumes;
use vstd::prelude::*;

verus! {

/// What the server tells of one device: a playback device (a sink) or a
/// capture device (a source).
#[derive(Clone, Debug)]
pub struct DeviceInfo {
    /// The number the server gave the device.
    pub index: u32,
    /// The name the server knows the device by.
    pub name: Option<String>,
    /// The device in words for people.
    pub description: Option<String>,
    /// The volume of each of its channels.
    pub volume: ChannelVolumes,
}

/// What the server tells of one stream: an application that plays to a sink
/// or records from a source.
#[derive(Clone, Debug)]
pub struct ApplicationInfo {
    /// The number the server gave the stream.
    pub index: u32,
    /// The name of the stream.
    pub name: Option<String>,
    /// The program behind the stream, where the server knows it.
    pub process_binary: Option<String>,
    /// The volume of each of its channels.
    pub volume: ChannelVolumes,
    /// The device the stream is attached to.
    pub device_index: u32,
    /// Whether the stream is paused.
    pub corked: bool,
}

/// What the server tells of itself.
#[derive(Clone, Debug)]
pub struct ServerInfo {
    /// The name of the sink that new playback streams go to.
    pub default_sink_name: Option<String>,
    /// The name of the source that new recording streams come from.
    pub default_source_name: Option<String>,
}

} // verus!
