//! Properties that relate several steps of the engine and of the connection.
use vstd::prelude::*;
use crate::service::sample_bytes;
use crate::context::{open_step, OpenStep, PulseContext};
use crate::stream::{
    init_result, scale_sample, stopped, write_step_result, CaptureAction, PulseStream,
    StreamPhase, VolumeAction, WriteStep, FLAT_VOLUME_FLAG, GAIN_UNITY,
};
use crate::types::{Error, State, StreamParams};
use crate::validation::params_ok;
use crate::write_path::{lemma_advanced_wf, WritePath};

verus! {

/// Whether a stream passes no data to the data callback, whatever the service
/// reports next.
pub open spec fn silent(e: PulseStream) -> bool {
    &&& forall|n: usize| #[trigger] e.write_ready_result(n) is None
    &&& forall|n: usize| #[trigger] e.deferred_write_result(n) is None
    &&& forall|d: bool, n: usize| #[trigger] e.capture_result(d, n) == CaptureAction::Stop
}

/// A stream with playback never has the data callback called without an
/// output buffer: captured data goes through the write path.
pub proof fn lemma_output_never_without_buffer(e: PulseStream, has_data: bool, size: usize)
    requires
        e.wf(),
        e.output_spec is Some,
    ensures
        !(e.capture_result(has_data, size) is Deliver),
{
}

/// A stream built from accepted parameters with playback has its playback
/// sub-stream, and once stopped it hands nothing more to the data callback.
pub proof fn lemma_built_then_stopped_is_silent(
    input: Option<StreamParams>,
    output: StreamParams,
    latency_frames: u32,
)
    requires
        params_ok(output),
        input matches Some(i) ==> params_ok(i),
    ensures
        init_result(input, Some(output), latency_frames) matches Ok((s, plan)) ==> {
            &&& plan.output is Some
            &&& s.output_spec is Some
            &&& silent(stopped(s).0)
        },
{
}

/// Stopping a stopped stream changes nothing and reports nothing.
pub proof fn lemma_stop_idempotent(e: PulseStream)
    requires
        e.wf(),
    ensures
        stopped(e).0.state == StreamPhase::Stopped,
        stopped(stopped(e).0).0 == stopped(e).0,
        stopped(stopped(e).0).1.notify is None,
        !stopped(stopped(e).0).1.release_timer,
        e.state != StreamPhase::Stopped ==> stopped(e).1.notify == Some(State::Stopped),
{
}

/// When the callback returns fewer frames than offered, the pass asks for the
/// drain; the drained state is then reported exactly once, and from the
/// moment the drain begins no data reaches the callback.
pub proof fn lemma_drain(
    e: PulseStream,
    pass: WritePath,
    frames: usize,
    k: usize,
    deadline: u64,
)
    requires
        e.wf(),
        e.running(),
        pass.wf(),
        frames <= pass.total_frames - pass.frames_done,
        0 < k <= frames,
    ensures
        write_step_result(pass, frames, Ok((frames - k) as usize)) matches WriteStep::Commit {
            drain,
            ..
        } && drain,
        ({
            let d = e.drain_armed(deadline);
            let (f, n1) = d.drain_fired_result();
            let (g, n2) = f.drain_fired_result();
            &&& d.state == StreamPhase::Draining
            &&& silent(d)
            &&& n1.notify == Some(State::Drained)
            &&& n1.release_timer
            &&& silent(f)
            &&& n2.notify is None
            &&& g == f
        }),
{
}

/// A sub-stream that degrades puts the stream in error: the error is reported
/// once, later reports of the service add nothing, and no data reaches the
/// callback from then on.
pub proof fn lemma_error_reported_once(e: PulseStream, good: bool)
    requires
        e.wf(),
        e.state != StreamPhase::Error,
    ensures
        e.state_changed_result(false).1.notify == Some(State::Error),
        e.state_changed_result(false).0.state_changed_result(good).1.notify is None,
        silent(e.state_changed_result(false).0),
{
}

/// Offers made along a pass, one after the other.
pub open spec fn run_pass(p: WritePath, offers: Seq<nat>) -> WritePath
    decreases offers.len(),
{
    if offers.len() == 0 {
        p
    } else {
        run_pass(p.advanced(offers[0]), offers.drop_first())
    }
}

/// Whether each offer stays within what the pass still needs.
pub open spec fn offers_fit(p: WritePath, offers: Seq<nat>) -> bool
    decreases offers.len(),
{
    if offers.len() == 0 {
        true
    } else {
        offers[0] <= p.total_frames - p.frames_done && offers_fit(
            p.advanced(offers[0]),
            offers.drop_first(),
        )
    }
}

pub open spec fn total(s: Seq<nat>) -> nat
    decreases s.len(),
{
    if s.len() == 0 {
        0
    } else {
        s[0] + total(s.drop_first())
    }
}

/// Along a pass split into several offers, each offer's input data starts
/// after the input frames of all earlier offers, and the pass ends exactly
/// when all its frames have been offered.
pub proof fn lemma_pass_offsets(p: WritePath, offers: Seq<nat>)
    requires
        p.wf(),
        offers_fit(p, offers),
    ensures
        run_pass(p, offers).wf(),
        run_pass(p, offers).frames_done == p.frames_done + total(offers),
        run_pass(p, offers).read_offset == (p.frames_done + total(offers)) * p.in_frame_size,
        run_pass(p, offers).remaining == 0 <==> run_pass(p, offers).frames_done
            == p.total_frames,
    decreases offers.len(),
{
    if offers.len() == 0 {
        let fs = p.out_frame_size as int;
        let left = (p.total_frames - p.frames_done) as int;
        assert(left * fs == 0 <==> left == 0) by (nonlinear_arith)
            requires
                fs > 0,
                left >= 0,
        ;
    } else {
        lemma_advanced_wf(p, offers[0]);
        lemma_pass_offsets(p.advanced(offers[0]), offers.drop_first());
    }
}

/// In duplex, a captured chunk of `n` frames is offered to the write path as
/// exactly `n` frames of output, with its input read from the chunk's start.
pub proof fn lemma_duplex_routing(e: PulseStream, size: usize)
    requires
        e.wf(),
        e.running(),
        e.input_spec is Some,
        e.output_spec is Some,
        (size as nat / e.in_fs()) * e.out_fs() <= usize::MAX,
    ensures
        e.capture_result(true, size) matches CaptureAction::Forward(p) && p.total_frames == size
            as nat / e.in_fs() && p.remaining == p.total_frames * e.out_fs() && p.read_offset
            == 0 && p.out_frame_size == e.out_fs() && p.in_frame_size == e.in_fs(),
{
    let ispec = e.input_spec.unwrap();
    let ospec = e.output_spec.unwrap();
    let (ic, ib) = (ispec.channels as int, sample_bytes(ispec.format) as int);
    let (oc, ob) = (ospec.channels as int, sample_bytes(ospec.format) as int);
    assert(ic * ib > 0) by (nonlinear_arith)
        requires
            ic >= 1,
            ib >= 2,
    ;
    assert(oc * ob <= 32) by (nonlinear_arith)
        requires
            1 <= oc <= 8,
            ob <= 4,
    ;
    assert(ic * ib <= 32) by (nonlinear_arith)
        requires
            1 <= ic <= 8,
            ib <= 4,
    ;
    assert(oc * ob > 0) by (nonlinear_arith)
        requires
            oc >= 1,
            ob >= 2,
    ;
    let ifs = e.in_fs() as int;
    let n = size as int;
    assert(n / ifs <= n) by (nonlinear_arith)
        requires
            ifs > 0,
            n >= 0,
    ;
    let frames = size as nat / e.in_fs();
    assert(e.capture_result(true, size) == CaptureAction::Forward(
        crate::stream::new_pass(frames, e.out_fs(), e.in_fs()),
    ));
}

/// Under flat volumes, half gain is kept as a software gain and not sent to
/// the service, and the write path then halves every 16-bit sample, rounding
/// toward zero.
pub proof fn lemma_flat_volume_halves(e: PulseStream, flags: u32, s: i16)
    requires
        e.wf(),
        e.output_spec is Some,
        flags & FLAT_VOLUME_FLAG != 0,
    ensures
        e.volume_result(flags, GAIN_UNITY / 2).1 == Ok::<VolumeAction, Error>(
            VolumeAction::SoftwareGain,
        ),
        e.volume_result(flags, GAIN_UNITY / 2).0.volume == Some(GAIN_UNITY / 2),
        scale_sample(s as int, (GAIN_UNITY / 2) as int) == if s >= 0 {
            s / 2
        } else {
            -((-s) / 2)
        },
{
    let si = s as int;
    if si >= 0 {
        assert(si * 32768 / 65536 == si / 2) by (nonlinear_arith)
            requires
                si >= 0,
        ;
    } else {
        assert((-si) * 32768 / 65536 == (-si) / 2) by (nonlinear_arith)
            requires
                si < 0,
        ;
    }
}

/// A failed connection is connected again exactly once per stream request:
/// after the attempt, whatever its outcome, no further attempt is asked for,
/// and a failed attempt fails the request as unclassified before any
/// sub-stream is made.
pub proof fn lemma_reconnect_once(c: PulseContext, outcome: bool)
    requires
        c.error,
    ensures
        open_step(c.error, None) == OpenStep::Reconnect,
        open_step(c.error, Some(outcome)) != OpenStep::Reconnect,
        open_step(c.error, Some(false)) == OpenStep::Fail(Error::Unclassified),
        open_step(c.error, Some(true)) == OpenStep::Proceed,
{
}

} // verus!
