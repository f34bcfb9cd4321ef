//! The backend-independent vocabulary: sample formats, stream parameters,
//! stream states, error kinds and device descriptions.
use vstd::prelude::*;

verus! {

/// Sample format of a stream: one of the `SAMPLE_*` constants.
pub type SampleFormat = i32;

/// Little endian 16-bit signed PCM.
pub const SAMPLE_S16LE: SampleFormat = 0;

/// Big endian 16-bit signed PCM.
pub const SAMPLE_S16BE: SampleFormat = 1;

/// Little endian 32-bit IEEE floating point PCM.
pub const SAMPLE_FLOAT32LE: SampleFormat = 2;

/// Big endian 32-bit IEEE floating point PCM.
pub const SAMPLE_FLOAT32BE: SampleFormat = 3;

/// Maps to the platform's stream types where the platform has them.
#[allow(non_camel_case_types)]
#[derive(Clone, Copy, Debug, PartialEq, Eq, Structural)]
pub enum cubeb_stream_type {
    VoiceCall,
    System,
    Ring,
    Music,
    Alarm,
    Notification,
    BluetoothSco,
    SystemEnforced,
    Dtmf,
    Tts,
    Fm,
}

/// Verbosity of logging.
#[derive(Clone, Copy, Debug, PartialEq, Eq, Structural)]
pub enum LogLevel {
    /// Logging disabled.
    LogDisabled,
    /// Logging of lifetime operations (creation, destruction).
    LogNormal,
    /// Verbose logging of callbacks.
    LogVerbose,
}

/// SMPTE channel layout.
#[derive(Clone, Copy, Debug, PartialEq, Eq, Structural)]
pub enum ChannelLayout {
    Undefined,
    DualMono,
    DualMonoLfe,
    Mono,
    MonoLfe,
    Stereo,
    StereoLfe,
    _3F,
    _3FLfe,
    _2F1,
    _2F1Lfe,
    _3F1,
    _3F1Lfe,
    _2F2,
    _2F2Lfe,
    _3F2,
    _3F2Lfe,
    _3F3RLfe,
    _3F4Lfe,
}

/// Parameters of one direction of a stream.
#[derive(Clone, Copy, Debug, PartialEq, Eq, Structural)]
pub struct StreamParams {
    /// One of the `SAMPLE_*` constants.
    pub format: SampleFormat,
    /// Sample rate in Hz; the accepted range is [1000, 192000].
    pub rate: i32,
    /// Channel count; the accepted range is [1, 8].
    pub channels: i32,
    /// Channel layout, consistent with `channels`.
    pub layout: ChannelLayout,
}

impl StreamParams {
    pub fn new(format: SampleFormat, rate: i32, channels: i32, layout: ChannelLayout) -> (r:
        StreamParams)
        ensures
            r == (StreamParams { format, rate, channels, layout }),
    {
        StreamParams { format, rate, channels, layout }
    }
}

/// The devices a stream currently plays to and records from.
pub struct Device {
    pub output_name: String,
    pub input_name: String,
}

/// Stream states reported through the state callback.
#[derive(Clone, Copy, Debug, PartialEq, Eq, Structural)]
pub enum State {
    Uninitialized,
    /// Stream started.
    Started,
    /// Stream stopped.
    Stopped,
    /// Stream drained.
    Drained,
    /// Stream disabled after an error.
    Error,
}

/// Error kinds.
#[derive(Clone, Copy, Debug, PartialEq, Eq, Structural)]
pub enum Error {
    /// A generic or service-level failure.
    Unclassified,
    /// The requested format, rate or channel count is not accepted.
    InvalidFormat,
    /// An invalid parameter was given.
    InvalidParameter,
    /// An optional capability is absent.
    NotSupported,
    /// The device is not available.
    DeviceUnavailable,
}

/// Direction of a device.
#[derive(Clone, Copy, Debug, PartialEq, Eq, Structural)]
pub enum DeviceType {
    Unknown,
    Input,
    Output,
}

/// Bit of a direction mask that asks for input devices.
pub const DEVICE_TYPE_INPUT: u32 = 1;

/// Bit of a direction mask that asks for output devices.
pub const DEVICE_TYPE_OUTPUT: u32 = 2;

/// The state of a device.
#[derive(Clone, Copy, Debug, PartialEq, Eq, Structural)]
pub enum DeviceState {
    /// Disabled at the system level.
    Disabled,
    /// Enabled, but nothing is plugged into it.
    Unplugged,
    /// Enabled.
    Enabled,
}

/// Sample formats a device supports, as a bit set.
pub type DeviceFormat = i32;

/// 16-bit integers, little endian.
pub const DEVICE_FMT_S16LE: DeviceFormat = 0x0010;

/// 16-bit integers, big endian.
pub const DEVICE_FMT_S16BE: DeviceFormat = 0x0020;

/// 32-bit floating point, little endian.
pub const DEVICE_FMT_F32LE: DeviceFormat = 0x1000;

/// 32-bit floating point, big endian.
pub const DEVICE_FMT_F32BE: DeviceFormat = 0x2000;

/// All the 16-bit integer formats.
pub const DEVICE_FMT_S16_MASK: DeviceFormat = 0x0030;

/// All the 32-bit floating point formats.
pub const DEVICE_FMT_F32_MASK: DeviceFormat = 0x3000;

/// All the device formats.
pub const DEVICE_FMT_ALL: DeviceFormat = 0x3030;

/// Preference of a device for a kind of use, as a bit set.
pub type DevicePref = i32;

pub const DEVICE_PREF_NONE: DevicePref = 0x00;

pub const DEVICE_PREF_MULTIMEDIA: DevicePref = 0x01;

pub const DEVICE_PREF_VOICE: DevicePref = 0x02;

pub const DEVICE_PREF_NOTIFICATION: DevicePref = 0x04;

pub const DEVICE_PREF_ALL: DevicePref = 0x0F;

/// Characteristics of an input or output device.
pub struct DeviceInfo {
    /// Identifier which might be presented in a UI.
    pub device_id: String,
    /// Friendly name which might be presented in a UI.
    pub friendly_name: String,
    /// Devices that belong to one physical device share this identifier.
    pub group_id: Option<String>,
    /// Vendor name, where known.
    pub vendor_name: Option<String>,
    /// Input or output.
    pub dev_type: DeviceType,
    /// Disabled, unplugged or enabled.
    pub state: DeviceState,
    /// `DEVICE_PREF_ALL` for the system's default device, else `DEVICE_PREF_NONE`.
    pub preferred: DevicePref,
    /// Sample formats supported.
    pub format: DeviceFormat,
    /// The default sample format.
    pub default_format: DeviceFormat,
    /// Channels.
    pub max_channels: i32,
    /// Default sample rate.
    pub default_rate: i32,
    /// Highest sample rate supported.
    pub max_rate: i32,
    /// Lowest sample rate supported.
    pub min_rate: i32,
    /// Lowest possible latency in frames.
    pub latency_lo: i32,
    /// Highest possible latency in frames.
    pub latency_hi: i32,
}

} // verus!
