//! A cross-backend audio stream library: parameter checks, the connection to an
//! audio service and the stream engine, each written as verified decisions over
//! plain values.
use vstd::prelude::*;

pub mod context;
pub mod laws;
pub mod service;
pub mod stream;
pub mod types;
pub mod util;
pub mod validation;
pub mod write_path;

pub use context::{has_nul, PulseContext};
pub use types::{
    cubeb_stream_type, ChannelLayout, Device, DeviceFormat, DeviceInfo, DevicePref, DeviceState,
    DeviceType, Error, LogLevel, SampleFormat, State, StreamParams, DEVICE_FMT_ALL,
    DEVICE_FMT_F32BE, DEVICE_FMT_F32LE, DEVICE_FMT_F32_MASK, DEVICE_FMT_S16BE, DEVICE_FMT_S16LE,
    DEVICE_FMT_S16_MASK, DEVICE_PREF_ALL, DEVICE_PREF_MULTIMEDIA, DEVICE_PREF_NONE,
    DEVICE_PREF_NOTIFICATION, DEVICE_PREF_VOICE, DEVICE_TYPE_INPUT, DEVICE_TYPE_OUTPUT,
    SAMPLE_FLOAT32BE, SAMPLE_FLOAT32LE, SAMPLE_S16BE, SAMPLE_S16LE,
};
pub use util::NullCheck;
pub use validation::{
    valid_channel_count, valid_frequency, validate_duplex_stream_params, validate_stream_params,
};

verus! {

/// Opens a context on the audio service backend, not yet connected.
pub fn init(context_name: &str) -> (r: Result<PulseContext, Error>)
    ensures
        has_nul(context_name@) <==> r is Err,
        r is Err ==> r == Err::<PulseContext, Error>(Error::InvalidParameter),
        r matches Ok(c) ==> c.context_name@ == context_name@ && !c.error
            && c.default_sink_info is None,
{
    PulseContext::init(context_name)
}

} // verus!
