use cubeb::service::{
    set_buffering_attribute, to_cubeb_format, to_pulse_format, usec_to_frames, SampleSpec,
    ServiceSampleFormat,
};
use cubeb::stream::{
    apply_gain_s16, create_pa_stream, CaptureAction, Notice, PulseStream, StreamPhase,
    VolumeAction, WriteStep, FLAT_VOLUME_FLAG, GAIN_UNITY, INPUT, OUTPUT,
};
use cubeb::write_path::WritePath;
use cubeb::{
    ChannelLayout, Error, NullCheck, State, StreamParams, DEVICE_FMT_F32BE, SAMPLE_FLOAT32BE,
    SAMPLE_FLOAT32LE, SAMPLE_S16LE,
};

fn stereo_s16(rate: i32) -> StreamParams {
    StreamParams::new(SAMPLE_S16LE, rate, 2, ChannelLayout::Stereo)
}

fn started(input: Option<StreamParams>, output: Option<StreamParams>) -> PulseStream {
    let (mut s, _) = PulseStream::init(input, output, 1024).unwrap();
    s.begin_start().unwrap();
    let (n, _) = s.start_finished();
    assert_eq!(n.notify, Some(State::Started));
    s
}

#[test]
fn buffering_is_a_quarter_of_the_target() {
    let b = set_buffering_attribute(1024, 4);
    assert_eq!(b.tlength, 4096);
    assert_eq!(b.minreq, 1024);
    assert_eq!(b.fragsize, 1024);
    assert_eq!(b.maxlength, u32::MAX);
    assert_eq!(b.prebuf, u32::MAX);
}

#[test]
fn sub_stream_configuration() {
    let c = create_pa_stream(&StreamParams::new(SAMPLE_FLOAT32LE, 48000, 2, ChannelLayout::Stereo), 480)
        .unwrap();
    assert_eq!(c.spec, SampleSpec { format: ServiceSampleFormat::Float32LE, rate: 48000, channels: 2 });
    assert_eq!(c.buffer_attr.tlength, 3840);
    assert_eq!(c.buffer_attr.minreq, 960);
    assert_eq!(create_pa_stream(&stereo_s16(500), 480), Err(Error::InvalidFormat));
    assert_eq!(create_pa_stream(&stereo_s16(48000), u32::MAX), Err(Error::InvalidParameter));
}

#[test]
fn format_mappings() {
    assert_eq!(to_pulse_format(SAMPLE_FLOAT32BE), ServiceSampleFormat::Float32BE);
    assert_eq!(to_pulse_format(9), ServiceSampleFormat::Other);
    assert_eq!(to_cubeb_format(ServiceSampleFormat::Float32BE), DEVICE_FMT_F32BE);
    assert_eq!(to_cubeb_format(ServiceSampleFormat::Other), 0);
}

#[test]
fn init_reports_first_refusal() {
    let bad = StreamParams::new(5, 48000, 2, ChannelLayout::Stereo);
    assert_eq!(PulseStream::init(None, Some(bad), 256).err(), Some(Error::InvalidFormat));
    assert_eq!(PulseStream::init(Some(bad), Some(stereo_s16(48000)), 256).err(), Some(Error::InvalidFormat));
    let (s, plan) = PulseStream::init(Some(stereo_s16(48000)), None, 256).unwrap();
    assert!(plan.output.is_none() && plan.input.is_some());
    assert_eq!(s.state, StreamPhase::Uninitialized);
    assert_eq!(s.get_stream(INPUT).map(|x| x.rate), Some(48000));
    assert_eq!(s.get_stream(OUTPUT), None);
    assert!(plan.output.is_null() && plan.input.not_null());
}

#[test]
fn constructed_then_stopped_stream_is_silent() {
    let (mut s, plan) = PulseStream::init(None, Some(stereo_s16(44100)), 512).unwrap();
    assert!(plan.output.is_some());
    assert!(s.on_write_ready(4096).is_none());
    s.begin_stop();
    assert!(!s.stop_must_wait());
    let n = s.stop_finished();
    assert_eq!(n, Notice { notify: Some(State::Stopped), release_timer: false });
    assert!(s.on_write_ready(4096).is_none());
    assert!(s.on_deferred_write(4096).is_none());
    let duplex = started(Some(stereo_s16(44100)), Some(stereo_s16(44100)));
    assert!(!matches!(duplex.on_capture_chunk(true, 400), CaptureAction::Deliver(_)));
}

#[test]
fn stop_twice_reports_once() {
    let mut s = started(None, Some(stereo_s16(48000)));
    s.begin_stop();
    let first = s.stop_finished();
    assert_eq!(first.notify, Some(State::Stopped));
    let after_first = s;
    s.begin_stop();
    let second = s.stop_finished();
    assert_eq!(second.notify, None);
    assert_eq!(s, after_first);
    assert_eq!(s.state, StreamPhase::Stopped);
}

#[test]
fn short_callback_drains_once() {
    let mut s = started(None, Some(stereo_s16(48000)));
    let mut pass = s.on_write_ready(400).unwrap();
    assert_eq!(pass.total_frames, 100);
    let frames = pass.offer(400);
    assert_eq!(frames, 100);
    let step = s.after_callback(&mut pass, frames, Ok(60));
    assert_eq!(step, WriteStep::Commit { bytes: 240, drain: true });
    let deadline = PulseStream::drain_deadline(1_000, Some(20_000));
    assert_eq!(deadline, 41_000);
    assert_eq!(PulseStream::drain_deadline(1_000, None), 201_000);
    assert!(s.arm_drain(deadline));
    assert_eq!(s.state, StreamPhase::Draining);
    assert!(s.stop_must_wait());
    assert!(s.on_write_ready(400).is_none());
    assert!(s.on_deferred_write(400).is_none());
    let n1 = s.drain_fired();
    assert_eq!(n1, Notice { notify: Some(State::Drained), release_timer: true });
    let n2 = s.drain_fired();
    assert_eq!(n2, Notice { notify: None, release_timer: false });
    assert!(s.on_write_ready(400).is_none());
}

#[test]
fn callback_error_aborts_the_pass() {
    let mut s = started(None, Some(stereo_s16(48000)));
    let mut pass = s.on_write_ready(40).unwrap();
    let before = pass;
    let step = s.after_callback(&mut pass, 10, Err(Error::Unclassified));
    assert_eq!(step, WriteStep::Abort);
    assert!(s.shutdown);
    assert_eq!(pass, before);
    assert!(s.on_write_ready(40).is_none());
}

#[test]
fn duplex_chunk_is_split_over_writes() {
    // Capture: mono 16-bit (2 bytes a frame); playback: stereo float (8 bytes a frame).
    let input = StreamParams::new(SAMPLE_S16LE, 48000, 1, ChannelLayout::Mono);
    let output = StreamParams::new(SAMPLE_FLOAT32LE, 48000, 2, ChannelLayout::Stereo);
    let mut s = started(Some(input), Some(output));
    assert!(s.on_write_ready(800).is_none());
    let mut pass = match s.on_capture_chunk(true, 200) {
        CaptureAction::Forward(p) => p,
        other => panic!("{:?}", other),
    };
    assert_eq!(pass.total_frames, 100);
    assert_eq!(pass.remaining, 800);
    let mut offsets = Vec::new();
    let mut offered = 0;
    for buffer in [320usize, 10_000] {
        assert!(pass.pending());
        let frames = pass.offer(buffer);
        offsets.push(pass.read_offset);
        offered += frames;
        let step = s.after_callback(&mut pass, frames, Ok(frames));
        assert!(matches!(step, WriteStep::Commit { drain: false, .. }));
    }
    assert!(!pass.pending());
    assert_eq!(offered, 100);
    assert_eq!(offsets, vec![0, 80]);
    assert_eq!(s.on_capture_chunk(false, 64), CaptureAction::Release);
}

#[test]
fn capture_only_end_of_stream() {
    let mut s = started(Some(stereo_s16(48000)), None);
    assert_eq!(s.on_capture_chunk(true, 400), CaptureAction::Deliver(100));
    assert!(!s.capture_delivered(100, Ok(100)));
    assert!(s.capture_delivered(100, Ok(40)));
    assert!(s.shutdown);
    assert_eq!(s.on_capture_chunk(true, 400), CaptureAction::Stop);
}

#[test]
fn flat_volume_halves_samples() {
    let mut s = started(None, Some(stereo_s16(48000)));
    assert_eq!(s.set_volume(FLAT_VOLUME_FLAG, GAIN_UNITY / 2), Ok(VolumeAction::SoftwareGain));
    assert_eq!(s.volume, Some(GAIN_UNITY / 2));
    let mut samples: Vec<i16> = vec![1000, -1000, 3, -3, i16::MAX, i16::MIN, 0];
    apply_gain_s16(&mut samples, s.volume.unwrap());
    assert_eq!(samples, vec![500, -500, 1, -1, 16383, -16384, 0]);
    let mut t = started(None, Some(stereo_s16(48000)));
    assert_eq!(t.set_volume(0, GAIN_UNITY / 2), Ok(VolumeAction::ServiceVolume));
    assert_eq!(t.volume, None);
    let mut unity: Vec<i16> = vec![7, -7];
    apply_gain_s16(&mut unity, GAIN_UNITY);
    assert_eq!(unity, vec![7, -7]);
}

#[test]
fn volume_and_panning_need_playback() {
    let mut s = started(Some(stereo_s16(48000)), None);
    assert_eq!(s.set_volume(FLAT_VOLUME_FLAG, 1), Err(Error::Unclassified));
    assert_eq!(s.set_panning(true), Err(Error::Unclassified));
    let o = started(None, Some(stereo_s16(48000)));
    assert_eq!(o.set_panning(false), Err(Error::Unclassified));
    assert_eq!(o.set_panning(true), Ok(()));
}

#[test]
fn position_and_latency() {
    let s = started(None, Some(stereo_s16(48000)));
    assert_eq!(s.get_position(Some(1_500_000)), Ok(72_000));
    assert_eq!(s.get_position(None), Err(Error::Unclassified));
    assert_eq!(s.get_latency(Some(20_000)), Ok(960));
    assert_eq!(s.get_latency(Some(u64::MAX)), Err(Error::Unclassified));
    assert_eq!(usec_to_frames(1_000_000, 44100), 44100);
    let c = started(Some(stereo_s16(48000)), None);
    assert_eq!(c.get_position(Some(1)), Err(Error::Unclassified));
    let d = s.get_current_device().unwrap();
    assert_eq!((d.output_name.as_str(), d.input_name.as_str()), ("", ""));
}

#[test]
fn error_is_reported_once() {
    let mut s = started(None, Some(stereo_s16(48000)));
    assert!(s.arm_drain(10));
    let n = s.stream_state_changed(false);
    assert_eq!(n, Notice { notify: Some(State::Error), release_timer: true });
    assert_eq!(s.stream_state_changed(false).notify, None);
    assert_eq!(s.stream_state_changed(true).notify, None);
    assert_eq!(s.begin_start(), Err(Error::Unclassified));
    assert!(s.on_write_ready(400).is_none());
}

#[test]
fn start_asks_for_first_write_when_playback_only() {
    let (mut s, _) = PulseStream::init(None, Some(stereo_s16(48000)), 256).unwrap();
    s.begin_start().unwrap();
    let (n, first) = s.start_finished();
    assert_eq!(n.notify, Some(State::Started));
    assert!(first);
    let p = s.on_deferred_write(401).unwrap();
    assert_eq!(p.total_frames, 100);
    let (again, _) = s.start_finished();
    assert_eq!(again.notify, None);
    let (mut d, _) = PulseStream::init(Some(stereo_s16(48000)), Some(stereo_s16(48000)), 256).unwrap();
    d.begin_start().unwrap();
    assert!(!d.start_finished().1);
    let t = d.destroy();
    assert!(t.output && t.input && !t.release_timer);
}

#[test]
fn write_path_offers_whole_frames() {
    let mut p = WritePath::new(10, 4, 2);
    assert_eq!(p.offer(7), 1);
    assert_eq!(p.offer(1000), 10);
    p.advance(3);
    assert_eq!((p.frames_done, p.remaining, p.read_offset), (3, 28, 6));
}

#[test]
fn device_change_notification_is_not_supported() {
    let s = started(None, Some(stereo_s16(48000)));
    assert_eq!(s.set_device_changed_callback(), Err(Error::NotSupported));
}
