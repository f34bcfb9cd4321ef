//! The connection to the audio service: its error flag, the cached
//! description of the default output device, the version-dependent features,
//! the reconnect policy and how device records become device descriptions.
use vstd::prelude::*;
use crate::service::{
    context_good, device_format_of, device_state_of, stream_good, to_cubeb_format,
    to_cubeb_state, ContextState, OperationState, PortAvailability, ReadyStep, SampleSpec,
    StreamState, RATE_MAX,
};
use crate::types::{
    ChannelLayout, DeviceInfo, DeviceType, Error, StreamParams, DEVICE_FMT_ALL,
    DEVICE_PREF_ALL, DEVICE_PREF_NONE, DEVICE_TYPE_INPUT, DEVICE_TYPE_OUTPUT,
};
use crate::validation::{frequency_ok, valid_frequency};

verus! {

/// Sink flag: the service mixes with flat volumes, so a stream's own volume
/// has no effect.
pub const SINK_FLAT_VOLUME: u32 = 0x40;

/// Characteristics of the default output device.
#[derive(Clone, Copy, Debug, PartialEq, Eq, Structural)]
pub struct DefaultInfo {
    pub sample_spec: SampleSpec,
    /// Channels of the device's channel map.
    pub channels: u8,
    /// The device's flags, a set of `SINK_*` bits.
    pub flags: u32,
}

/// A library version split as semantic versioning does.
pub struct LibraryVersion {
    pub major: u64,
    pub minor: u64,
    pub patch: u64,
    /// The pre-release part, empty for a release.
    pub pre: String,
}

/// What `semver::Version::parse` makes of a text: major, minor, patch and
/// pre-release, or nothing where the text is no version.
pub uninterp spec fn parsed_version(text: Seq<char>) -> Option<(u64, u64, u64, Seq<char>)>;

/// Relies on `semver::Version::parse`, which reads a text as a semantic
/// version; its numeric parts and its pre-release part are handed on.
#[verifier::external_body]
fn parse_version(text: &str) -> (r: Option<LibraryVersion>)
    ensures
        match r {
            None => parsed_version(text@) is None,
            Some(v) => parsed_version(text@) == Some((v.major, v.minor, v.patch, v.pre@)),
        },
{
    semver::Version::parse(text).ok().map(
        |v|
            LibraryVersion {
                major: v.major,
                minor: v.minor,
                patch: v.patch,
                pre: v.pre.as_str().to_string(),
            },
    )
}

/// Semantic-versioning precedence against a release `major.minor.patch`: a
/// higher triple wins, and on an equal triple a pre-release comes first.
pub open spec fn at_least(v: (u64, u64, u64, Seq<char>), major: u64, minor: u64, patch: u64) -> bool {
    ||| v.0 > major
    ||| v.0 == major && v.1 > minor
    ||| v.0 == major && v.1 == minor && v.2 > patch
    ||| v.0 == major && v.1 == minor && v.2 == patch && v.3.len() == 0
}

pub fn version_at_least(v: &LibraryVersion, major: u64, minor: u64, patch: u64) -> (r: bool)
    ensures
        r == at_least((v.major, v.minor, v.patch, v.pre@), major, minor, patch),
{
    if v.major != major {
        return v.major > major;
    }
    if v.minor != minor {
        return v.minor > minor;
    }
    if v.patch != patch {
        return v.patch > patch;
    }
    v.pre.as_str().unicode_len() == 0
}

/// What a stream request does next on a connection.
#[derive(Clone, Copy, Debug, PartialEq, Eq, Structural)]
pub enum OpenStep {
    /// Connect again before going on.
    Reconnect,
    /// Give up with this error.
    Fail(Error),
    /// Create the stream.
    Proceed,
}

/// Whether the text holds a NUL character, which the service cannot take in a name.
pub open spec fn has_nul(s: Seq<char>) -> bool {
    exists|i: int| 0 <= i < s.len() && s[i] == '\0'
}

/// A record of a device as the service lists it.
pub struct DeviceRecord {
    pub name: String,
    pub description: String,
    /// The device's `sysfs.path` property, where it has one.
    pub sysfs_path: Option<String>,
    /// The device's `device.vendor.name` property, where it has one.
    pub vendor_name: Option<String>,
    /// Availability of the active port; none where the device has no port.
    pub active_port: Option<PortAvailability>,
    pub sample_spec: SampleSpec,
    /// Channels of the device's channel map.
    pub channels: u8,
}

/// The connection to the service, as the library's logic sees it.
pub struct PulseContext {
    pub context_name: String,
    /// Set when the service reports the connection in a failed state.
    pub error: bool,
    /// Set once the default output device has been described.
    pub default_sink_info: Option<DefaultInfo>,
    /// The service library is at least 2.0.0.
    pub version_2_0_0: bool,
    /// The service library is at least 0.9.8.
    pub version_0_9_8: bool,
}

/// Whether the flag of a direction is in a mask.
pub open spec fn mask_has(mask: u32, bit: u32) -> bool {
    mask & bit != 0
}

/// The device description for a record; the record is the system's default
/// device when its name is `default_name`.
pub open spec fn device_info_of(
    r: DeviceRecord,
    default_name: Seq<char>,
    dev_type: DeviceType,
    version_2_0_0: bool,
    info: DeviceInfo,
) -> bool {
    &&& info.device_id@ == r.name@
    &&& info.friendly_name@ == r.description@
    &&& info.group_id == r.sysfs_path
    &&& info.vendor_name == r.vendor_name
    &&& info.dev_type == dev_type
    &&& info.state == device_state_of(r.active_port, version_2_0_0)
    &&& info.preferred == if r.name@ == default_name {
        DEVICE_PREF_ALL
    } else {
        DEVICE_PREF_NONE
    }
    &&& info.format == DEVICE_FMT_ALL
    &&& info.default_format == device_format_of(r.sample_spec.format)
    &&& info.max_channels == r.channels as i32
    &&& info.min_rate == 1
    &&& info.max_rate == RATE_MAX as i32
    &&& info.default_rate == r.sample_spec.rate as i32
    &&& info.latency_lo == 0
    &&& info.latency_hi == 0
}

pub fn contains_nul(s: &str) -> (r: bool)
    ensures
        r == has_nul(s@),
{
    let n = s.unicode_len();
    let mut i: usize = 0;
    while i < n
        invariant
            n == s@.len(),
            i <= n,
            forall|j: int| 0 <= j < i ==> s@[j] != '\0',
        decreases n - i,
    {
        if s.get_char(i) == '\0' {
            return true;
        }
        i = i + 1;
    }
    false
}

impl PulseContext {
    /// A connection not yet made, for a client name. A name with a NUL
    /// character cannot be handed to the service.
    pub fn init(context_name: &str) -> (r: Result<PulseContext, Error>)
        ensures
            has_nul(context_name@) <==> r is Err,
            r is Err ==> r == Err::<PulseContext, Error>(Error::InvalidParameter),
            r matches Ok(c) ==> c.context_name@ == context_name@ && !c.error
                && c.default_sink_info is None && !c.version_2_0_0 && !c.version_0_9_8,
    {
        if contains_nul(context_name) {
            return Err(Error::InvalidParameter);
        }
        Ok(
            PulseContext {
                context_name: context_name.to_string(),
                error: false,
                default_sink_info: None,
                version_2_0_0: false,
                version_0_9_8: false,
            },
        )
    }

    /// The service reports a new state of the connection: a state that is no
    /// longer good marks the connection failed.
    pub fn context_state_changed(&mut self, good: bool)
        ensures
            final(self).error == (old(self).error || !good),
            final(self).default_sink_info == old(self).default_sink_info,
            final(self).context_name == old(self).context_name,
            final(self).version_2_0_0 == old(self).version_2_0_0,
            final(self).version_0_9_8 == old(self).version_0_9_8,
    {
        if !good {
            self.error = true;
        }
    }

    /// A connection attempt ended: on success the error is cleared.
    pub fn connect_finished(&mut self, ready: bool)
        ensures
            final(self).error == (old(self).error && !ready),
            final(self).default_sink_info == old(self).default_sink_info,
            final(self).context_name == old(self).context_name,
            final(self).version_2_0_0 == old(self).version_2_0_0,
            final(self).version_0_9_8 == old(self).version_0_9_8,
    {
        if ready {
            self.error = false;
        }
    }

    /// Records the version of the service library; a version that does not
    /// parse leaves the features as they were.
    pub fn apply_library_version(&mut self, v: Option<LibraryVersion>)
        ensures
            match v {
                None => final(self).version_2_0_0 == old(self).version_2_0_0
                    && final(self).version_0_9_8 == old(self).version_0_9_8,
                Some(v) => final(self).version_2_0_0 == at_least(
                    (v.major, v.minor, v.patch, v.pre@),
                    2,
                    0,
                    0,
                ) && final(self).version_0_9_8 == at_least(
                    (v.major, v.minor, v.patch, v.pre@),
                    0,
                    9,
                    8,
                ),
            },
            final(self).error == old(self).error,
            final(self).default_sink_info == old(self).default_sink_info,
            final(self).context_name == old(self).context_name,
    {
        if let Some(v) = v {
            self.version_0_9_8 = version_at_least(&v, 0, 9, 8);
            self.version_2_0_0 = version_at_least(&v, 2, 0, 0);
        }
    }

    /// Parses the version text of the service library and records it.
    pub fn set_library_version(&mut self, text: &str)
        ensures
            match parsed_version(text@) {
                None => final(self).version_2_0_0 == old(self).version_2_0_0
                    && final(self).version_0_9_8 == old(self).version_0_9_8,
                Some(v) => final(self).version_2_0_0 == at_least(v, 2, 0, 0)
                    && final(self).version_0_9_8 == at_least(v, 0, 9, 8),
            },
            final(self).error == old(self).error,
            final(self).default_sink_info == old(self).default_sink_info,
            final(self).context_name == old(self).context_name,
    {
        let v = parse_version(text);
        self.apply_library_version(v);
    }

    /// Stores the description of the default output device, replacing any
    /// earlier one whole. Where the service described no device, an empty
    /// description is stored, so that waiters go on.
    pub fn set_default_sink_info(&mut self, info: Option<DefaultInfo>)
        ensures
            final(self).default_sink_info == Some(
                match info {
                    Some(i) => i,
                    None => empty_default_info(),
                },
            ),
            final(self).error == old(self).error,
            final(self).context_name == old(self).context_name,
            final(self).version_2_0_0 == old(self).version_2_0_0,
            final(self).version_0_9_8 == old(self).version_0_9_8,
    {
        let i = match info {
            Some(i) => i,
            None => DefaultInfo {
                sample_spec: SampleSpec {
                    format: crate::service::ServiceSampleFormat::Other,
                    rate: 0,
                    channels: 0,
                },
                channels: 0,
                flags: 0,
            },
        };
        self.default_sink_info = Some(i);
    }

    /// Whether a caller that needs the default device description has to wait.
    pub fn must_wait_for_default_sink(&self) -> (r: bool)
        ensures
            r == (self.default_sink_info is None),
    {
        self.default_sink_info.is_none()
    }

    pub fn get_backend_id(&self) -> (r: &'static str)
        ensures
            r@ == "pulse"@,
    {
        "pulse"
    }

    /// Channels of the default output device.
    pub fn get_max_channel_count(&self) -> (r: Result<i32, Error>)
        ensures
            match self.default_sink_info {
                Some(i) => r == Ok::<i32, Error>(i.channels as i32),
                None => r == Err::<i32, Error>(Error::Unclassified),
            },
    {
        match &self.default_sink_info {
            Some(info) => Ok(info.channels as i32),
            None => Err(Error::Unclassified),
        }
    }

    /// A safe minimum latency: 25 milliseconds' worth of frames.
    pub fn get_min_latency(&self, params: StreamParams) -> (r: Result<i32, Error>)
        ensures
            frequency_ok(params.rate as int) ==> r == Ok::<i32, Error>(
                (25 * params.rate / 1000) as i32,
            ),
            !frequency_ok(params.rate as int) ==> r == Err::<i32, Error>(Error::InvalidFormat),
    {
        if !valid_frequency(params.rate) {
            return Err(Error::InvalidFormat);
        }
        Ok(25 * params.rate / 1000)
    }

    /// Sample rate of the default output device.
    pub fn get_preferred_sample_rate(&self) -> (r: Result<u32, Error>)
        ensures
            match self.default_sink_info {
                Some(i) => r == Ok::<u32, Error>(i.sample_spec.rate),
                None => r == Err::<u32, Error>(Error::Unclassified),
            },
    {
        match &self.default_sink_info {
            Some(info) => Ok(info.sample_spec.rate),
            None => Err(Error::Unclassified),
        }
    }

    pub fn get_preferred_channel_layout(&self) -> (r: Result<ChannelLayout, Error>)
        ensures
            r == Err::<ChannelLayout, Error>(Error::NotSupported),
    {
        Err(Error::NotSupported)
    }

    /// The reconnect policy of a stream request. `reconnected` is none before
    /// any attempt and holds the outcome of the one attempt after it: a failed
    /// connection is connected again once, and a second failure is final.
    pub fn stream_init_step(&self, reconnected: Option<bool>) -> (r: OpenStep)
        ensures
            r == open_step(self.error, reconnected),
    {
        if !self.error {
            return OpenStep::Proceed;
        }
        match reconnected {
            None => OpenStep::Reconnect,
            Some(true) => OpenStep::Proceed,
            Some(false) => OpenStep::Fail(Error::Unclassified),
        }
    }

    /// One turn of the loop that waits for an operation of the connection.
    pub fn operation_wait(&self, op: OperationState, ctx: ContextState, woken: bool) -> (r:
        ReadyStep)
        ensures
            r == operation_wait_result(op, ctx, None, woken),
    {
        self.operation_wait_stream(op, ctx, None, woken)
    }

    /// One turn of the loop that waits for an operation on a sub-stream, which
    /// is watched too where it is given.
    pub fn operation_wait_stream(
        &self,
        op: OperationState,
        ctx: ContextState,
        stm: Option<StreamState>,
        woken: bool,
    ) -> (r: ReadyStep)
        ensures
            r == operation_wait_result(op, ctx, stm, woken),
    {
        if woken {
            if !ctx.is_good() {
                return ReadyStep::Failed;
            }
            if let Some(s) = stm {
                if !s.is_good() {
                    return ReadyStep::Failed;
                }
            }
        }
        if op != OperationState::Running {
            ReadyStep::Ready
        } else {
            ReadyStep::Wait
        }
    }

    /// The description of a listed device.
    pub fn extract_device_info(
        &self,
        r: &DeviceRecord,
        default_name: &String,
        dev_type: DeviceType,
    ) -> (info: DeviceInfo)
        requires
            r.sample_spec.rate <= RATE_MAX,
        ensures
            device_info_of(*r, default_name@, dev_type, self.version_2_0_0, info),
    {
        let preferred = if r.name == *default_name {
            DEVICE_PREF_ALL
        } else {
            DEVICE_PREF_NONE
        };
        DeviceInfo {
            device_id: r.name.clone(),
            friendly_name: r.description.clone(),
            group_id: clone_opt(&r.sysfs_path),
            vendor_name: clone_opt(&r.vendor_name),
            dev_type,
            state: to_cubeb_state(r.active_port, self.version_2_0_0),
            preferred,
            format: DEVICE_FMT_ALL,
            default_format: to_cubeb_format(r.sample_spec.format),
            max_channels: r.channels as i32,
            default_rate: r.sample_spec.rate as i32,
            max_rate: RATE_MAX as i32,
            min_rate: 1,
            latency_lo: 0,
            latency_hi: 0,
        }
    }
}

/// One turn of waiting for an operation: after a wake-up, a connection or
/// watched sub-stream that is no longer good ends the wait with failure;
/// otherwise an operation that no longer runs ends it with success.
pub open spec fn operation_wait_result(
    op: OperationState,
    ctx: ContextState,
    stm: Option<StreamState>,
    woken: bool,
) -> ReadyStep {
    if woken && !(context_good(ctx) && (stm matches Some(s) ==> stream_good(s))) {
        ReadyStep::Failed
    } else if op != OperationState::Running {
        ReadyStep::Ready
    } else {
        ReadyStep::Wait
    }
}

pub open spec fn empty_default_info() -> DefaultInfo {
    DefaultInfo {
        sample_spec: SampleSpec {
            format: crate::service::ServiceSampleFormat::Other,
            rate: 0,
            channels: 0,
        },
        channels: 0,
        flags: 0,
    }
}

pub open spec fn open_step(error: bool, reconnected: Option<bool>) -> OpenStep {
    if !error {
        OpenStep::Proceed
    } else {
        match reconnected {
            None => OpenStep::Reconnect,
            Some(true) => OpenStep::Proceed,
            Some(false) => OpenStep::Fail(Error::Unclassified),
        }
    }
}

fn clone_opt(s: &Option<String>) -> (r: Option<String>)
    ensures
        r == *s,
{
    match s {
        Some(x) => Some(x.clone()),
        None => None,
    }
}

/// Which device lists a direction mask asks for: output, then input.
pub fn enumerate_directions(mask: u32) -> (r: (bool, bool))
    ensures
        r == (mask_has(mask, DEVICE_TYPE_OUTPUT), mask_has(mask, DEVICE_TYPE_INPUT)),
{
    (mask & DEVICE_TYPE_OUTPUT != 0, mask & DEVICE_TYPE_INPUT != 0)
}

} // verus!
