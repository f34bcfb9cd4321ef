//! The stream engine: one logical audio session over an optional playback and
//! an optional capture sub-stream. Each notification of the service and each
//! request of the application is a step from the engine's state to its next
//! state and to what the caller must do with the service and the callbacks.
use vstd::prelude::*;
use crate::service::{
    buffer_attr_for, frame_bytes, frame_size, frames_in_usec, service_format_of,
    set_buffering_attribute, spec_usable, to_pulse_format, usec_to_frames, BufferAttr,
    SampleSpec, ServiceSampleFormat, USEC_PER_MSEC,
};
use crate::types::{Device, Error, State, StreamParams};
use crate::validation::{params_ok, validate_stream_params};
use crate::write_path::WritePath;

verus! {

/// The software gain that leaves samples as they are; gains are fixed-point
/// fractions of it.
pub const GAIN_UNITY: u32 = 65536;

/// Sink flag: the service mixes with flat volumes.
pub const FLAT_VOLUME_FLAG: u32 = 0x40;

/// Selects the playback sub-stream.
pub const OUTPUT: i32 = 0;

/// Selects the capture sub-stream.
pub const INPUT: i32 = 1;

/// Lifecycle of a stream.
#[derive(Clone, Copy, Debug, PartialEq, Eq, Structural)]
pub enum StreamPhase {
    Uninitialized,
    Started,
    Stopped,
    /// The callback has produced its last frames; the drain timer is armed.
    Draining,
    Drained,
    Error,
}

/// How one sub-stream is created.
#[derive(Clone, Copy, Debug, PartialEq, Eq, Structural)]
pub struct SubStreamConfig {
    pub spec: SampleSpec,
    pub buffer_attr: BufferAttr,
}

/// The sub-streams a new stream creates.
#[derive(Clone, Copy, Debug, PartialEq, Eq, Structural)]
pub struct InitPlan {
    pub output: Option<SubStreamConfig>,
    pub input: Option<SubStreamConfig>,
}

/// What the caller owes the application and the drain timer after a step.
#[derive(Clone, Copy, Debug, PartialEq, Eq, Structural)]
pub struct Notice {
    /// The state to report through the state callback, if any.
    pub notify: Option<State>,
    /// The drain timer is to be freed.
    pub release_timer: bool,
}

/// What to do with one chunk of captured data.
#[derive(Clone, Copy, Debug, PartialEq, Eq, Structural)]
pub enum CaptureAction {
    /// Leave the chunk and stop reading.
    Stop,
    /// Release the chunk without handing it on.
    Release,
    /// Run the write path over the chunk's frames.
    Forward(WritePath),
    /// Hand this many frames to the data callback, with no output buffer.
    Deliver(usize),
}

/// What to do after the data callback filled a write buffer.
#[derive(Clone, Copy, Debug, PartialEq, Eq, Structural)]
pub enum WriteStep {
    /// Cancel the write and end the pass.
    Abort,
    /// Commit `bytes` bytes of the buffer; on `drain`, arm the drain timer and
    /// end the pass.
    Commit { bytes: usize, drain: bool },
}

/// How a volume request is carried out.
#[derive(Clone, Copy, Debug, PartialEq, Eq, Structural)]
pub enum VolumeAction {
    /// The gain was stored and is applied in the write path.
    SoftwareGain,
    /// The service is to set the sub-stream's volume.
    ServiceVolume,
}

/// What tearing a stream down involves.
#[derive(Clone, Copy, Debug, PartialEq, Eq, Structural)]
pub struct Teardown {
    pub release_timer: bool,
    pub output: bool,
    pub input: bool,
}

/// One logical audio session.
#[derive(Clone, Copy, Debug, PartialEq, Eq, Structural)]
pub struct PulseStream {
    pub output_spec: Option<SampleSpec>,
    pub input_spec: Option<SampleSpec>,
    /// Deadline of the armed drain timer, in microseconds.
    pub drain_timer: Option<u64>,
    pub shutdown: bool,
    /// Software gain of the output, where the service's volume has no effect.
    pub volume: Option<u32>,
    pub state: StreamPhase,
}

/// A sample specification made from accepted parameters.
pub open spec fn sub_spec_ok(s: SampleSpec) -> bool {
    spec_usable(s) && s.channels <= 8
}

pub open spec fn spec_of_params(p: StreamParams) -> SampleSpec {
    SampleSpec { format: service_format_of(p.format), rate: p.rate as u32, channels: p.channels as u8 }
}

/// The sub-stream for one direction: refused where the parameters are not
/// accepted, or where the latency's bytes do not fit the service's buffer sizes.
pub open spec fn config_for(p: StreamParams, latency_frames: u32) -> Result<SubStreamConfig, Error> {
    if !params_ok(p) {
        Err(Error::InvalidFormat)
    } else if latency_frames * frame_bytes(spec_of_params(p)) > u32::MAX {
        Err(Error::InvalidParameter)
    } else {
        Ok(
            SubStreamConfig {
                spec: spec_of_params(p),
                buffer_attr: buffer_attr_for(
                    latency_frames as nat,
                    frame_bytes(spec_of_params(p)),
                ),
            },
        )
    }
}

pub open spec fn opt_config(p: Option<StreamParams>, latency_frames: u32) -> Result<
    Option<SubStreamConfig>,
    Error,
> {
    match p {
        None => Ok(None),
        Some(p) => match config_for(p, latency_frames) {
            Ok(c) => Ok(Some(c)),
            Err(e) => Err(e),
        },
    }
}

pub open spec fn spec_opt(c: Option<SubStreamConfig>) -> Option<SampleSpec> {
    match c {
        None => None,
        Some(c) => Some(c.spec),
    }
}

/// A new stream: playback is set up before capture, and the first refusal is
/// returned. The stream starts uninitialized, with no gain and no timer.
pub open spec fn init_result(
    input: Option<StreamParams>,
    output: Option<StreamParams>,
    latency_frames: u32,
) -> Result<(PulseStream, InitPlan), Error> {
    match opt_config(output, latency_frames) {
        Err(e) => Err(e),
        Ok(o) => match opt_config(input, latency_frames) {
            Err(e) => Err(e),
            Ok(i) => Ok(
                (
                    PulseStream {
                        output_spec: spec_opt(o),
                        input_spec: spec_opt(i),
                        drain_timer: None,
                        shutdown: false,
                        volume: None,
                        state: StreamPhase::Uninitialized,
                    },
                    InitPlan { output: o, input: i },
                ),
            ),
        },
    }
}

pub open spec fn new_pass(frames: nat, out_frame_size: nat, in_frame_size: nat) -> WritePath {
    WritePath {
        total_frames: frames as usize,
        frames_done: 0,
        remaining: (frames * out_frame_size) as usize,
        read_offset: 0,
        out_frame_size: out_frame_size as usize,
        in_frame_size: in_frame_size as usize,
    }
}

/// The step after the callback returned `got` for `frames` offered frames.
pub open spec fn write_step_result(pass: WritePath, frames: usize, got: Result<usize, Error>) -> WriteStep {
    match got {
        Err(_) => WriteStep::Abort,
        Ok(g) => WriteStep::Commit {
            bytes: ((if g < frames {
                g
            } else {
                frames
            }) * pass.out_frame_size) as usize,
            drain: g < frames,
        },
    }
}

/// Gain applied to one sample, rounded toward zero.
pub open spec fn scale_sample(s: int, gain: int) -> int {
    if s >= 0 {
        s * gain / GAIN_UNITY as int
    } else {
        -((-s) * gain / GAIN_UNITY as int)
    }
}

pub fn create_pa_stream(params: &StreamParams, latency_frames: u32) -> (r: Result<
    SubStreamConfig,
    Error,
>)
    ensures
        r == config_for(*params, latency_frames),
        r matches Ok(c) ==> sub_spec_ok(c.spec),
{
    if validate_stream_params(params).is_err() {
        return Err(Error::InvalidFormat);
    }
    let spec = SampleSpec {
        format: to_pulse_format(params.format),
        rate: params.rate as u32,
        channels: params.channels as u8,
    };
    let fs = frame_size(&spec);
    assert(fs <= 32);
    assert(latency_frames as u64 * fs as u64 <= u32::MAX as u64 * 32) by (nonlinear_arith)
        requires
            fs <= 32,
    ;
    if latency_frames as u64 * fs as u64 > u32::MAX as u64 {
        return Err(Error::InvalidParameter);
    }
    let battr = set_buffering_attribute(latency_frames, fs as u32);
    Ok(SubStreamConfig { spec, buffer_attr: battr })
}

pub open spec fn stopped(e: PulseStream) -> (PulseStream, Notice) {
    let s = PulseStream { shutdown: true, ..e };
    (
        PulseStream { state: StreamPhase::Stopped, drain_timer: None, ..s },
        Notice {
            notify: if e.state == StreamPhase::Stopped {
                None
            } else {
                Some(State::Stopped)
            },
            release_timer: e.drain_timer is Some,
        },
    )
}

impl PulseStream {
    pub open spec fn wf(self) -> bool {
        &&& (self.drain_timer is Some <==> self.state == StreamPhase::Draining)
        &&& (self.output_spec matches Some(s) ==> sub_spec_ok(s))
        &&& (self.input_spec matches Some(s) ==> sub_spec_ok(s))
        &&& (self.volume matches Some(g) ==> g <= GAIN_UNITY)
    }

    pub open spec fn out_fs(self) -> nat {
        frame_bytes(self.output_spec.unwrap())
    }

    pub open spec fn in_fs(self) -> nat {
        frame_bytes(self.input_spec.unwrap())
    }

    /// Whether data may flow: the stream runs and no shutdown is requested.
    pub open spec fn running(self) -> bool {
        !self.shutdown && self.state == StreamPhase::Started
    }

    pub open spec fn write_ready_result(self, nbytes: usize) -> Option<WritePath> {
        if self.running() && self.input_spec is None && self.output_spec is Some {
            Some(new_pass(nbytes as nat / self.out_fs(), self.out_fs(), 0))
        } else {
            None
        }
    }

    pub open spec fn deferred_write_result(self, writable: usize) -> Option<WritePath> {
        if self.running() && self.output_spec is Some {
            Some(new_pass(writable as nat / self.out_fs(), self.out_fs(), 0))
        } else {
            None
        }
    }

    pub open spec fn drain_armed(self, deadline: u64) -> PulseStream {
        if self.state == StreamPhase::Started {
            PulseStream { state: StreamPhase::Draining, drain_timer: Some(deadline), ..self }
        } else {
            self
        }
    }

    pub open spec fn capture_result(self, has_data: bool, size: usize) -> CaptureAction {
        if !self.running() || self.input_spec is None {
            CaptureAction::Stop
        } else if !has_data {
            CaptureAction::Release
        } else {
            let frames = size as nat / self.in_fs();
            match self.output_spec {
                None => CaptureAction::Deliver(frames as usize),
                Some(_) => if frames * self.out_fs() <= usize::MAX {
                    CaptureAction::Forward(new_pass(frames, self.out_fs(), self.in_fs()))
                } else {
                    CaptureAction::Release
                },
            }
        }
    }

    pub open spec fn state_changed_result(self, good: bool) -> (PulseStream, Notice) {
        if good || self.state == StreamPhase::Error {
            (self, Notice { notify: None, release_timer: false })
        } else {
            (
                PulseStream { state: StreamPhase::Error, drain_timer: None, ..self },
                Notice { notify: Some(State::Error), release_timer: self.drain_timer is Some },
            )
        }
    }

    pub open spec fn drain_fired_result(self) -> (PulseStream, Notice) {
        if self.drain_timer is Some {
            (
                PulseStream { state: StreamPhase::Drained, drain_timer: None, ..self },
                Notice { notify: Some(State::Drained), release_timer: true },
            )
        } else {
            (self, Notice { notify: None, release_timer: false })
        }
    }

    pub open spec fn start_result(self) -> (PulseStream, Notice, bool) {
        if self.state == StreamPhase::Error {
            (self, Notice { notify: None, release_timer: false }, false)
        } else {
            (
                PulseStream { state: StreamPhase::Started, drain_timer: None, ..self },
                Notice {
                    notify: if self.state == StreamPhase::Started {
                        None
                    } else {
                        Some(State::Started)
                    },
                    release_timer: self.drain_timer is Some,
                },
                self.output_spec is Some && self.input_spec is None,
            )
        }
    }

    pub open spec fn volume_result(self, flags: u32, gain: u32) -> (PulseStream, Result<
        VolumeAction,
        Error,
    >) {
        if self.output_spec is None {
            (self, Err(Error::Unclassified))
        } else if flags & FLAT_VOLUME_FLAG != 0 {
            (PulseStream { volume: Some(gain), ..self }, Ok(VolumeAction::SoftwareGain))
        } else {
            (self, Ok(VolumeAction::ServiceVolume))
        }
    }

    /// Sets up a stream for the requested directions.
    pub fn init(
        input_stream_params: Option<StreamParams>,
        output_stream_params: Option<StreamParams>,
        latency_frames: u32,
    ) -> (r: Result<(PulseStream, InitPlan), Error>)
        ensures
            r == init_result(input_stream_params, output_stream_params, latency_frames),
            r matches Ok((s, _)) ==> s.wf(),
    {
        let output = match output_stream_params {
            None => None,
            Some(p) => Some(create_pa_stream(&p, latency_frames)?),
        };
        let input = match input_stream_params {
            None => None,
            Some(p) => Some(create_pa_stream(&p, latency_frames)?),
        };
        let output_spec = match output {
            None => None,
            Some(c) => Some(c.spec),
        };
        let input_spec = match input {
            None => None,
            Some(c) => Some(c.spec),
        };
        let stm = PulseStream {
            output_spec,
            input_spec,
            drain_timer: None,
            shutdown: false,
            volume: None,
            state: StreamPhase::Uninitialized,
        };
        Ok((stm, InitPlan { output, input }))
    }

    /// The sample specification of one direction, if the stream has it.
    pub fn get_stream(&self, st: i32) -> (r: Option<SampleSpec>)
        ensures
            r == (if st == INPUT {
                self.input_spec
            } else {
                self.output_spec
            }),
    {
        if st == INPUT {
            self.input_spec
        } else {
            self.output_spec
        }
    }

    /// The service reports a new state of a sub-stream. A sub-stream that is
    /// no longer good puts the stream in error, reported once.
    pub fn stream_state_changed(&mut self, good: bool) -> (r: Notice)
        requires
            old(self).wf(),
        ensures
            (*final(self), r) == old(self).state_changed_result(good),
            final(self).wf(),
    {
        if good || self.state == StreamPhase::Error {
            return Notice { notify: None, release_timer: false };
        }
        let release_timer = self.drain_timer.is_some();
        self.state = StreamPhase::Error;
        self.drain_timer = None;
        Notice { notify: Some(State::Error), release_timer }
    }

    /// The playback sub-stream can take `nbytes` bytes. A running
    /// playback-only stream runs the write path over the whole frames of it;
    /// with capture, writing follows the captured data instead.
    pub fn on_write_ready(&self, nbytes: usize) -> (r: Option<WritePath>)
        requires
            self.wf(),
        ensures
            r == self.write_ready_result(nbytes),
            r matches Some(p) ==> p.wf(),
    {
        if self.shutdown || self.state != StreamPhase::Started || self.input_spec.is_some() {
            return None;
        }
        match &self.output_spec {
            None => None,
            Some(spec) => {
                let fs = frame_size(spec);
                let frames = nbytes / fs;
                proof {
                    let n = nbytes as int;
                    assert(frames * fs <= n) by (nonlinear_arith)
                        requires
                            frames == n / (fs as int),
                            fs > 0,
                            n >= 0,
                    ;
                }
                Some(WritePath::new(frames, fs, 0))
            },
        }
    }

    /// The deferred first write of a started playback-only stream, with
    /// `writable` bytes free.
    pub fn on_deferred_write(&self, writable: usize) -> (r: Option<WritePath>)
        requires
            self.wf(),
        ensures
            r == self.deferred_write_result(writable),
            r matches Some(p) ==> p.wf(),
    {
        if self.shutdown || self.state != StreamPhase::Started {
            return None;
        }
        match &self.output_spec {
            None => None,
            Some(spec) => {
                let fs = frame_size(spec);
                let frames = writable / fs;
                proof {
                    let n = writable as int;
                    assert(frames * fs <= n) by (nonlinear_arith)
                        requires
                            frames == n / (fs as int),
                            fs > 0,
                            n >= 0,
                    ;
                }
                Some(WritePath::new(frames, fs, 0))
            },
        }
    }

    /// One chunk of captured data, `size` bytes, or a hole where it has no
    /// data. In duplex the chunk's frames go to the write path, each scaled
    /// to the output frame size; capture alone hands them to the callback.
    pub fn on_capture_chunk(&self, has_data: bool, size: usize) -> (r: CaptureAction)
        requires
            self.wf(),
        ensures
            r == self.capture_result(has_data, size),
            r matches CaptureAction::Forward(p) ==> p.wf(),
    {
        if self.shutdown || self.state != StreamPhase::Started {
            return CaptureAction::Stop;
        }
        match &self.input_spec {
            None => CaptureAction::Stop,
            Some(ispec) => {
                if !has_data {
                    return CaptureAction::Release;
                }
                let ifs = frame_size(ispec);
                let frames = size / ifs;
                match &self.output_spec {
                    None => CaptureAction::Deliver(frames),
                    Some(ospec) => {
                        let ofs = frame_size(ospec);
                        proof {
                            let n = size as int;
                            assert(frames * ifs <= n) by (nonlinear_arith)
                                requires
                                    frames == n / (ifs as int),
                                    ifs > 0,
                                    n >= 0,
                            ;
                        }
                        assert(frames as u128 * ofs as u128 <= usize::MAX as u128 * 32) by (
                        nonlinear_arith)
                            requires
                                ofs <= 32,
                        ;
                        if frames as u128 * ofs as u128 > usize::MAX as u128 {
                            return CaptureAction::Release;
                        }
                        CaptureAction::Forward(WritePath::new(frames, ofs, ifs))
                    },
                }
            },
        }
    }

    /// The callback of a capture-only stream returned `got` for `frames`
    /// offered frames. Anything but all of them ends the stream: the result
    /// says so, and the shutdown flag is set.
    pub fn capture_delivered(&mut self, frames: usize, got: Result<usize, Error>) -> (r: bool)
        requires
            old(self).wf(),
        ensures
            r == (match got {
                Ok(g) => g != frames,
                Err(_) => true,
            }),
            *final(self) == (if r {
                PulseStream { shutdown: true, ..*old(self) }
            } else {
                *old(self)
            }),
            final(self).wf(),
    {
        let end = match got {
            Ok(g) => g != frames,
            Err(_) => true,
        };
        if end {
            self.shutdown = true;
        }
        end
    }

    /// The data callback returned `got` for the `frames` frames it was offered
    /// in a pass. An error ends the pass and shuts the stream down. Otherwise
    /// the frames it produced (no more than offered) are committed, and fewer
    /// than offered asks for the drain.
    pub fn after_callback(&mut self, pass: &mut WritePath, frames: usize, got: Result<
        usize,
        Error,
    >) -> (r: WriteStep)
        requires
            old(self).wf(),
            old(pass).wf(),
            frames <= old(pass).total_frames - old(pass).frames_done,
        ensures
            final(self).wf(),
            match got {
                Err(_) => r == WriteStep::Abort && *final(self) == (PulseStream {
                    shutdown: true,
                    ..*old(self)
                }) && *final(pass) == *old(pass),
                Ok(g) => r == write_step_result(*old(pass), frames, got) && *final(self) == *old(self) && *final(pass) == old(pass).advanced(
                    frames as nat,
                ) && final(pass).wf(),
            },
    {
        match got {
            Err(_) => {
                self.shutdown = true;
                WriteStep::Abort
            },
            Ok(g) => {
                let w = if g < frames {
                    g
                } else {
                    frames
                };
                proof {
                    let done = pass.frames_done as int;
                    let total = pass.total_frames as int;
                    let ofs = pass.out_frame_size as int;
                    assert(w * ofs <= total * ofs) by (nonlinear_arith)
                        requires
                            w <= total - done,
                            done >= 0,
                            ofs > 0,
                    ;
                }
                let bytes = w * pass.out_frame_size;
                pass.advance(frames);
                WriteStep::Commit { bytes, drain: g < frames }
            },
        }
    }

    /// When the drain timer fires: twice the current latency from `now`, or
    /// twice a guessed 100 ms where the service gave no latency.
    pub fn drain_deadline(now: u64, latency: Option<u64>) -> (r: u64)
        ensures
            r == ({
                let l = match latency {
                    Some(l) => l as int,
                    None => 100 * USEC_PER_MSEC as int,
                };
                if now + 2 * l > u64::MAX {
                    u64::MAX as int
                } else {
                    now + 2 * l
                }
            }),
    {
        let l = match latency {
            Some(l) => l,
            None => 100 * USEC_PER_MSEC,
        };
        now.saturating_add(l).saturating_add(l)
    }

    /// The drain begins with a timer at `deadline`. Only a running stream
    /// drains; the result says whether the timer is to be armed.
    pub fn arm_drain(&mut self, deadline: u64) -> (r: bool)
        requires
            old(self).wf(),
        ensures
            r == (old(self).state == StreamPhase::Started),
            *final(self) == old(self).drain_armed(deadline),
            final(self).wf(),
    {
        if self.state != StreamPhase::Started {
            return false;
        }
        self.state = StreamPhase::Draining;
        self.drain_timer = Some(deadline);
        true
    }

    /// The drain timer fired: the stream is drained, which is reported once,
    /// and the timer is freed.
    pub fn drain_fired(&mut self) -> (r: Notice)
        requires
            old(self).wf(),
        ensures
            (*final(self), r) == old(self).drain_fired_result(),
            final(self).wf(),
    {
        if self.drain_timer.is_none() {
            return Notice { notify: None, release_timer: false };
        }
        self.state = StreamPhase::Drained;
        self.drain_timer = None;
        Notice { notify: Some(State::Drained), release_timer: true }
    }

    /// A start request, before the sub-streams are uncorked: a stream in error
    /// does not start again.
    pub fn begin_start(&mut self) -> (r: Result<(), Error>)
        requires
            old(self).wf(),
        ensures
            old(self).state == StreamPhase::Error ==> r == Err::<(), Error>(Error::Unclassified)
                && *final(self) == *old(self),
            old(self).state != StreamPhase::Error ==> r == Ok::<(), Error>(()) && *final(self)
                == (PulseStream { shutdown: false, ..*old(self) }),
            final(self).wf(),
    {
        if self.state == StreamPhase::Error {
            return Err(Error::Unclassified);
        }
        self.shutdown = false;
        Ok(())
    }

    /// The sub-streams were uncorked. The stream runs; a drain in progress is
    /// abandoned. The flag in the result asks for one deferred write, which a
    /// playback-only stream needs to get going.
    pub fn start_finished(&mut self) -> (r: (Notice, bool))
        requires
            old(self).wf(),
        ensures
            (*final(self), r.0, r.1) == old(self).start_result(),
            final(self).wf(),
    {
        if self.state == StreamPhase::Error {
            return (Notice { notify: None, release_timer: false }, false);
        }
        let notify = if self.state == StreamPhase::Started {
            None
        } else {
            Some(State::Started)
        };
        let release_timer = self.drain_timer.is_some();
        self.state = StreamPhase::Started;
        self.drain_timer = None;
        (
            Notice { notify, release_timer },
            self.output_spec.is_some() && self.input_spec.is_none(),
        )
    }

    /// A stop request: no more data flows from here on.
    pub fn begin_stop(&mut self)
        requires
            old(self).wf(),
        ensures
            *final(self) == (PulseStream { shutdown: true, ..*old(self) }),
            final(self).wf(),
    {
        self.shutdown = true;
    }

    /// Whether a stop has to wait for an armed drain timer to be released.
    pub fn stop_must_wait(&self) -> (r: bool)
        ensures
            r == (self.drain_timer is Some),
    {
        self.drain_timer.is_some()
    }

    /// The sub-streams were corked: the stream is stopped. Stopped is reported
    /// only where the stream was not stopped already.
    pub fn stop_finished(&mut self) -> (r: Notice)
        requires
            old(self).wf(),
        ensures
            (*final(self), r) == stopped(*old(self)),
            final(self).wf(),
    {
        let notify = if self.state == StreamPhase::Stopped {
            None
        } else {
            Some(State::Stopped)
        };
        let release_timer = self.drain_timer.is_some();
        self.shutdown = true;
        self.state = StreamPhase::Stopped;
        self.drain_timer = None;
        Notice { notify, release_timer }
    }

    /// Takes the stream apart: frees the drain timer if armed, and tears down
    /// each sub-stream it has.
    pub fn destroy(self) -> (r: Teardown)
        ensures
            r == (Teardown {
                release_timer: self.drain_timer is Some,
                output: self.output_spec is Some,
                input: self.input_spec is Some,
            }),
    {
        Teardown {
            release_timer: self.drain_timer.is_some(),
            output: self.output_spec.is_some(),
            input: self.input_spec.is_some(),
        }
    }

    /// A volume request with gain `gain` (a fraction of `GAIN_UNITY`), given
    /// the flags of the default output device. Under flat volumes the gain is
    /// kept and applied in the write path; otherwise the service sets it.
    pub fn set_volume(&mut self, flags: u32, gain: u32) -> (r: Result<VolumeAction, Error>)
        requires
            old(self).wf(),
            gain <= GAIN_UNITY,
        ensures
            (*final(self), r) == old(self).volume_result(flags, gain),
            final(self).wf(),
    {
        if self.output_spec.is_none() {
            return Err(Error::Unclassified);
        }
        if flags & FLAT_VOLUME_FLAG != 0 {
            self.volume = Some(gain);
            Ok(VolumeAction::SoftwareGain)
        } else {
            Ok(VolumeAction::ServiceVolume)
        }
    }

    /// A panning request: it needs playback whose channel map can balance.
    pub fn set_panning(&self, can_balance: bool) -> (r: Result<(), Error>)
        ensures
            r == (if self.output_spec is Some && can_balance {
                Ok::<(), Error>(())
            } else {
                Err::<(), Error>(Error::Unclassified)
            }),
    {
        if self.output_spec.is_none() || !can_balance {
            return Err(Error::Unclassified);
        }
        Ok(())
    }

    /// The playback position in frames, from the playback time the service
    /// reported (none where it reported an error).
    pub fn get_position(&self, usec: Option<u64>) -> (r: Result<u64, Error>)
        requires
            self.wf(),
        ensures
            match (self.output_spec, usec) {
                (Some(s), Some(t)) => r == Ok::<u64, Error>(
                    frames_in_usec(t as nat, s.rate as nat) as u64,
                ),
                _ => r == Err::<u64, Error>(Error::Unclassified),
            },
    {
        match (&self.output_spec, usec) {
            (Some(s), Some(t)) => Ok(usec_to_frames(t, s.rate)),
            _ => Err(Error::Unclassified),
        }
    }

    /// The latency in frames, from the latency the service reported (none
    /// where it reported an error). A latency beyond `u32` is an error.
    pub fn get_latency(&self, usec: Option<u64>) -> (r: Result<u32, Error>)
        requires
            self.wf(),
        ensures
            match (self.output_spec, usec) {
                (Some(s), Some(t)) => if frames_in_usec(t as nat, s.rate as nat) <= u32::MAX {
                    r == Ok::<u32, Error>(frames_in_usec(t as nat, s.rate as nat) as u32)
                } else {
                    r == Err::<u32, Error>(Error::Unclassified)
                },
                _ => r == Err::<u32, Error>(Error::Unclassified),
            },
    {
        match (&self.output_spec, usec) {
            (Some(s), Some(t)) => {
                let f = usec_to_frames(t, s.rate);
                if f > u32::MAX as u64 {
                    Err(Error::Unclassified)
                } else {
                    Ok(f as u32)
                }
            },
            _ => Err(Error::Unclassified),
        }
    }

    /// The service does not tell of device changes.
    pub fn set_device_changed_callback(&self) -> (r: Result<(), Error>)
        ensures
            r == Err::<(), Error>(Error::NotSupported),
    {
        Err(Error::NotSupported)
    }

    /// The service does not name the devices of a stream.
    pub fn get_current_device(&self) -> (r: Result<Device, Error>)
        ensures
            r matches Ok(d) && d.output_name@.len() == 0 && d.input_name@.len() == 0,
    {
        Ok(Device { output_name: String::new(), input_name: String::new() })
    }
}

/// Applies the software gain to 16-bit samples, each rounded toward zero.
pub fn apply_gain_s16(samples: &mut Vec<i16>, gain: u32)
    requires
        gain <= GAIN_UNITY,
    ensures
        final(samples)@.len() == old(samples)@.len(),
        forall|i: int|
            0 <= i < old(samples)@.len() ==> final(samples)@[i] as int == scale_sample(
                old(samples)@[i] as int,
                gain as int,
            ),
{
    let n = samples.len();
    let mut i: usize = 0;
    while i < n
        invariant
            n == old(samples)@.len(),
            samples@.len() == n,
            i <= n,
            gain <= GAIN_UNITY,
            forall|j: int|
                0 <= j < i ==> samples@[j] as int == scale_sample(
                    old(samples)@[j] as int,
                    gain as int,
                ),
            forall|j: int| i <= j < n ==> samples@[j] == old(samples)@[j],
        decreases n - i,
    {
        let s = samples[i];
        let m: u64 = if s >= 0 {
            s as u64
        } else {
            (-(s as i64)) as u64
        };
        assert(m * gain as u64 <= 32768 * 65536) by (nonlinear_arith)
            requires
                m <= 32768,
                gain <= 65536,
        ;
        let q: u64 = m * gain as u64 / GAIN_UNITY as u64;
        proof {
            let mi = m as int;
            let g = gain as int;
            assert(mi * g <= mi * (GAIN_UNITY as int)) by (nonlinear_arith)
                requires
                    g <= GAIN_UNITY as int,
                    mi >= 0,
            ;
            assert(mi * g / (GAIN_UNITY as int) <= mi) by (nonlinear_arith)
                requires
                    mi * g <= mi * (GAIN_UNITY as int),
                    mi >= 0,
                    g >= 0,
            ;
        }
        let v: i16 = if s >= 0 {
            q as i16
        } else {
            (-(q as i64)) as i16
        };
        samples.set(i, v);
        i = i + 1;
    }
}

} // verus!
