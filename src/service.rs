//! Plain-value model of what the audio service reports: sample specifications,
//! buffer attributes, connection, sub-stream and operation states, and the
//! conversions between the service's units and frames.
use vstd::prelude::*;
use crate::types::{
    DeviceFormat, DeviceState, SampleFormat, DEVICE_FMT_F32BE, DEVICE_FMT_F32LE,
    DEVICE_FMT_S16BE, DEVICE_FMT_S16LE, SAMPLE_FLOAT32BE, SAMPLE_FLOAT32LE, SAMPLE_S16BE,
    SAMPLE_S16LE,
};

verus! {

/// Microseconds per second.
pub const USEC_PER_SEC: u64 = 1000000;

/// Microseconds per millisecond.
pub const USEC_PER_MSEC: u64 = 1000;

/// The highest sample rate the service accepts.
pub const RATE_MAX: u32 = 384000;

/// Sample formats as the service names them.
#[derive(Clone, Copy, Debug, PartialEq, Eq, Structural)]
pub enum ServiceSampleFormat {
    S16LE,
    S16BE,
    Float32LE,
    Float32BE,
    /// A format this library does not produce or consume.
    Other,
}

/// The service's description of a sample stream.
#[derive(Clone, Copy, Debug, PartialEq, Eq, Structural)]
pub struct SampleSpec {
    pub format: ServiceSampleFormat,
    pub rate: u32,
    pub channels: u8,
}

/// Bytes per sample of a format; no size for a format of no use here.
pub open spec fn sample_bytes(f: ServiceSampleFormat) -> nat {
    match f {
        ServiceSampleFormat::S16LE | ServiceSampleFormat::S16BE => 2,
        ServiceSampleFormat::Float32LE | ServiceSampleFormat::Float32BE => 4,
        ServiceSampleFormat::Other => 0,
    }
}

/// Bytes per frame: one sample for each channel.
pub open spec fn frame_bytes(s: SampleSpec) -> nat {
    s.channels as nat * sample_bytes(s.format)
}

/// Whether a sample specification describes a stream this library can drive.
pub open spec fn spec_usable(s: SampleSpec) -> bool {
    s.format != ServiceSampleFormat::Other && s.channels >= 1 && 1 <= s.rate <= RATE_MAX
}

pub open spec fn service_format_of(f: SampleFormat) -> ServiceSampleFormat {
    if f == SAMPLE_S16LE {
        ServiceSampleFormat::S16LE
    } else if f == SAMPLE_S16BE {
        ServiceSampleFormat::S16BE
    } else if f == SAMPLE_FLOAT32LE {
        ServiceSampleFormat::Float32LE
    } else if f == SAMPLE_FLOAT32BE {
        ServiceSampleFormat::Float32BE
    } else {
        ServiceSampleFormat::Other
    }
}

pub open spec fn device_format_of(f: ServiceSampleFormat) -> DeviceFormat {
    match f {
        ServiceSampleFormat::S16LE => DEVICE_FMT_S16LE,
        ServiceSampleFormat::S16BE => DEVICE_FMT_S16BE,
        ServiceSampleFormat::Float32LE => DEVICE_FMT_F32LE,
        ServiceSampleFormat::Float32BE => DEVICE_FMT_F32BE,
        ServiceSampleFormat::Other => 0,
    }
}

/// The service's format for a sample format of this library.
pub fn to_pulse_format(format: SampleFormat) -> (r: ServiceSampleFormat)
    ensures
        r == service_format_of(format),
{
    if format == SAMPLE_S16LE {
        ServiceSampleFormat::S16LE
    } else if format == SAMPLE_S16BE {
        ServiceSampleFormat::S16BE
    } else if format == SAMPLE_FLOAT32LE {
        ServiceSampleFormat::Float32LE
    } else if format == SAMPLE_FLOAT32BE {
        ServiceSampleFormat::Float32BE
    } else {
        ServiceSampleFormat::Other
    }
}

/// The device format bit for a service format; no bit for a format this
/// library does not speak.
pub fn to_cubeb_format(format: ServiceSampleFormat) -> (r: DeviceFormat)
    ensures
        r == device_format_of(format),
{
    match format {
        ServiceSampleFormat::S16LE => DEVICE_FMT_S16LE,
        ServiceSampleFormat::S16BE => DEVICE_FMT_S16BE,
        ServiceSampleFormat::Float32LE => DEVICE_FMT_F32LE,
        ServiceSampleFormat::Float32BE => DEVICE_FMT_F32BE,
        ServiceSampleFormat::Other => 0,
    }
}

/// Bytes per frame of a usable sample specification.
pub fn frame_size(s: &SampleSpec) -> (r: usize)
    requires
        spec_usable(*s),
    ensures
        r == frame_bytes(*s),
        r > 0,
{
    let per_sample: usize = match s.format {
        ServiceSampleFormat::S16LE | ServiceSampleFormat::S16BE => 2,
        _ => 4,
    };
    s.channels as usize * per_sample
}

/// Buffering requested of the service for one sub-stream.
#[derive(Clone, Copy, Debug, PartialEq, Eq, Structural)]
pub struct BufferAttr {
    pub maxlength: u32,
    pub tlength: u32,
    pub prebuf: u32,
    pub minreq: u32,
    pub fragsize: u32,
}

/// The buffering for a target latency: the target length holds the latency's
/// frames, the minimum request and fragment are a quarter of it, and the
/// service picks the maximum length and prebuffering.
pub open spec fn buffer_attr_for(latency_frames: nat, frame_size: nat) -> BufferAttr {
    let tlength = (latency_frames * frame_size) as u32;
    BufferAttr {
        maxlength: u32::MAX,
        tlength,
        prebuf: u32::MAX,
        minreq: tlength / 4,
        fragsize: tlength / 4,
    }
}

pub fn set_buffering_attribute(latency_frames: u32, frame_size: u32) -> (r: BufferAttr)
    requires
        latency_frames * frame_size <= u32::MAX,
    ensures
        r == buffer_attr_for(latency_frames as nat, frame_size as nat),
        r.tlength == latency_frames * frame_size,
{
    let tlength = latency_frames * frame_size;
    let minreq = tlength / 4;
    BufferAttr { maxlength: u32::MAX, tlength, prebuf: u32::MAX, minreq, fragsize: minreq }
}

/// States of the connection to the service.
#[derive(Clone, Copy, Debug, PartialEq, Eq, Structural)]
pub enum ContextState {
    Unconnected,
    Connecting,
    Authorizing,
    SettingName,
    Ready,
    Failed,
    Terminated,
}

pub open spec fn context_good(s: ContextState) -> bool {
    s == ContextState::Connecting || s == ContextState::Authorizing || s
        == ContextState::SettingName || s == ContextState::Ready
}

/// States of one sub-stream.
#[derive(Clone, Copy, Debug, PartialEq, Eq, Structural)]
pub enum StreamState {
    Unconnected,
    Creating,
    Ready,
    Failed,
    Terminated,
}

pub open spec fn stream_good(s: StreamState) -> bool {
    s == StreamState::Creating || s == StreamState::Ready
}

/// States of an asynchronous operation of the service.
#[derive(Clone, Copy, Debug, PartialEq, Eq, Structural)]
pub enum OperationState {
    Running,
    Done,
    Cancelled,
}

impl ContextState {
    pub fn is_good(&self) -> (r: bool)
        ensures
            r == context_good(*self),
    {
        match self {
            ContextState::Connecting | ContextState::Authorizing | ContextState::SettingName
            | ContextState::Ready => true,
            _ => false,
        }
    }
}

impl StreamState {
    pub fn is_good(&self) -> (r: bool)
        ensures
            r == stream_good(*self),
    {
        match self {
            StreamState::Creating | StreamState::Ready => true,
            _ => false,
        }
    }
}

/// What a loop that waits for readiness does next.
#[derive(Clone, Copy, Debug, PartialEq, Eq, Structural)]
pub enum ReadyStep {
    /// The awaited party is ready: leave the loop with success.
    Ready,
    /// The awaited party can no longer become ready: leave with failure.
    Failed,
    /// Wait for the next notification and look again.
    Wait,
}

/// One turn of the loop that waits for the connection to become ready.
pub fn context_ready_step(s: ContextState) -> (r: ReadyStep)
    ensures
        !context_good(s) ==> r == ReadyStep::Failed,
        s == ContextState::Ready ==> r == ReadyStep::Ready,
        context_good(s) && s != ContextState::Ready ==> r == ReadyStep::Wait,
{
    if !s.is_good() {
        ReadyStep::Failed
    } else if s == ContextState::Ready {
        ReadyStep::Ready
    } else {
        ReadyStep::Wait
    }
}

/// One turn of the loop that waits for a sub-stream to become ready.
pub fn stream_ready_step(s: StreamState) -> (r: ReadyStep)
    ensures
        !stream_good(s) ==> r == ReadyStep::Failed,
        s == StreamState::Ready ==> r == ReadyStep::Ready,
        s == StreamState::Creating ==> r == ReadyStep::Wait,
{
    if !s.is_good() {
        ReadyStep::Failed
    } else if s == StreamState::Ready {
        ReadyStep::Ready
    } else {
        ReadyStep::Wait
    }
}

/// Availability of a device's active port.
#[derive(Clone, Copy, Debug, PartialEq, Eq, Structural)]
pub enum PortAvailability {
    Unknown,
    No,
    Yes,
}

pub open spec fn device_state_of(port: Option<PortAvailability>, version_2_0_0: bool) -> DeviceState {
    match port {
        None => DeviceState::Disabled,
        Some(a) => if version_2_0_0 && a == PortAvailability::No {
            DeviceState::Unplugged
        } else {
            DeviceState::Enabled
        },
    }
}

/// The state of a device from its active port: none means disabled; a port
/// known to be unavailable means unplugged, where the service is recent enough
/// to report it.
pub fn to_cubeb_state(port: Option<PortAvailability>, version_2_0_0: bool) -> (r: DeviceState)
    ensures
        r == device_state_of(port, version_2_0_0),
{
    match port {
        None => DeviceState::Disabled,
        Some(a) => {
            if version_2_0_0 && a == PortAvailability::No {
                DeviceState::Unplugged
            } else {
                DeviceState::Enabled
            }
        },
    }
}

/// Frames played in a span of time at a rate.
pub open spec fn frames_in_usec(usec: nat, rate: nat) -> nat {
    usec * rate / USEC_PER_SEC as nat
}

proof fn lemma_frames_below_usec(usec: nat, rate: nat)
    requires
        rate <= USEC_PER_SEC,
    ensures
        frames_in_usec(usec, rate) <= usec,
{
    assert(usec * rate <= usec * (USEC_PER_SEC as nat)) by (nonlinear_arith)
        requires
            rate <= USEC_PER_SEC,
    ;
    assert(usec * rate / (USEC_PER_SEC as nat) <= usec * (USEC_PER_SEC as nat) / (
    USEC_PER_SEC as nat)) by (nonlinear_arith)
        requires
            usec * rate <= usec * (USEC_PER_SEC as nat),
    ;
    assert(usec * (USEC_PER_SEC as nat) / (USEC_PER_SEC as nat) == usec) by (nonlinear_arith);
}

/// Frames in a span of time, for a rate the service accepts.
pub fn usec_to_frames(usec: u64, rate: u32) -> (r: u64)
    requires
        rate <= RATE_MAX,
    ensures
        r == frames_in_usec(usec as nat, rate as nat),
{
    proof {
        lemma_frames_below_usec(usec as nat, rate as nat);
    }
    assert(usec as u128 * rate as u128 <= u64::MAX as u128 * RATE_MAX as u128) by (
    nonlinear_arith)
        requires
            rate <= RATE_MAX,
    ;
    let p: u128 = usec as u128 * rate as u128;
    (p / USEC_PER_SEC as u128) as u64
}

} // verus!
