use cubeb::context::{enumerate_directions, DefaultInfo, DeviceRecord, OpenStep, SINK_FLAT_VOLUME};
use cubeb::service::OperationState;
use cubeb::service::{
    context_ready_step, stream_ready_step, ContextState, PortAvailability, ReadyStep, SampleSpec,
    ServiceSampleFormat, StreamState,
};
use cubeb::{
    init, ChannelLayout, DeviceState, DeviceType, Error, PulseContext, StreamParams,
    DEVICE_FMT_ALL, DEVICE_FMT_F32LE, DEVICE_FMT_S16LE, DEVICE_PREF_ALL, DEVICE_PREF_NONE,
    DEVICE_TYPE_INPUT, DEVICE_TYPE_OUTPUT, SAMPLE_S16LE,
};

fn sink() -> DefaultInfo {
    DefaultInfo {
        sample_spec: SampleSpec { format: ServiceSampleFormat::Float32LE, rate: 48000, channels: 2 },
        channels: 6,
        flags: SINK_FLAT_VOLUME,
    }
}

#[test]
fn context_name_with_nul_is_refused() {
    assert!(matches!(init("a\0b"), Err(Error::InvalidParameter)));
    let c = init("app").unwrap();
    assert_eq!(c.context_name, "app");
    assert!(!c.error);
}

#[test]
fn default_sink_queries() {
    let mut c = PulseContext::init("app").unwrap();
    assert!(c.must_wait_for_default_sink());
    assert_eq!(c.get_max_channel_count(), Err(Error::Unclassified));
    assert_eq!(c.get_preferred_sample_rate(), Err(Error::Unclassified));
    c.set_default_sink_info(Some(sink()));
    assert!(!c.must_wait_for_default_sink());
    assert_eq!(c.get_max_channel_count(), Ok(6));
    assert_eq!(c.get_preferred_sample_rate(), Ok(48000));
    c.set_default_sink_info(None);
    assert_eq!(c.get_max_channel_count(), Ok(0));
}

#[test]
fn fixed_answers() {
    let c = PulseContext::init("app").unwrap();
    assert_eq!(c.get_backend_id(), "pulse");
    assert_eq!(c.get_preferred_channel_layout(), Err(Error::NotSupported));
    let p = StreamParams::new(SAMPLE_S16LE, 48000, 2, ChannelLayout::Stereo);
    assert_eq!(c.get_min_latency(p), Ok(1200));
    let p = StreamParams::new(SAMPLE_S16LE, 44100, 2, ChannelLayout::Stereo);
    assert_eq!(c.get_min_latency(p), Ok(1102));
    let bad = StreamParams::new(SAMPLE_S16LE, 10, 2, ChannelLayout::Stereo);
    assert_eq!(c.get_min_latency(bad), Err(Error::InvalidFormat));
}

#[test]
fn library_version_features() {
    let mut c = PulseContext::init("app").unwrap();
    c.set_library_version("15.0.0");
    assert!(c.version_2_0_0 && c.version_0_9_8);
    let mut c = PulseContext::init("app").unwrap();
    c.set_library_version("1.1.0");
    assert!(!c.version_2_0_0 && c.version_0_9_8);
    let mut c = PulseContext::init("app").unwrap();
    c.set_library_version("2.0.0-rc1");
    assert!(!c.version_2_0_0 && c.version_0_9_8);
    let mut c = PulseContext::init("app").unwrap();
    c.set_library_version("0.9.7");
    assert!(!c.version_2_0_0 && !c.version_0_9_8);
    let mut c = PulseContext::init("app").unwrap();
    c.set_library_version("16.1");
    assert!(!c.version_2_0_0 && !c.version_0_9_8);
}

#[test]
fn reconnect_scenario() {
    let mut c = PulseContext::init("app").unwrap();
    assert_eq!(c.stream_init_step(None), OpenStep::Proceed);
    c.context_state_changed(false);
    assert!(c.error);
    assert_eq!(c.stream_init_step(None), OpenStep::Reconnect);
    c.connect_finished(false);
    assert!(c.error);
    assert_eq!(c.stream_init_step(Some(false)), OpenStep::Fail(Error::Unclassified));
    assert_eq!(c.stream_init_step(Some(true)), OpenStep::Proceed);
    c.connect_finished(true);
    assert!(!c.error);
    assert_eq!(c.stream_init_step(None), OpenStep::Proceed);
}

#[test]
fn ready_loops() {
    assert_eq!(context_ready_step(ContextState::Connecting), ReadyStep::Wait);
    assert_eq!(context_ready_step(ContextState::Ready), ReadyStep::Ready);
    assert_eq!(context_ready_step(ContextState::Failed), ReadyStep::Failed);
    assert_eq!(context_ready_step(ContextState::Unconnected), ReadyStep::Failed);
    assert_eq!(stream_ready_step(StreamState::Creating), ReadyStep::Wait);
    assert_eq!(stream_ready_step(StreamState::Ready), ReadyStep::Ready);
    assert_eq!(stream_ready_step(StreamState::Terminated), ReadyStep::Failed);
}

#[test]
fn device_records() {
    let mut c = PulseContext::init("app").unwrap();
    c.set_library_version("3.0.0");
    let r = DeviceRecord {
        name: "sink0".to_string(),
        description: "Speakers".to_string(),
        sysfs_path: Some("/devices/x".to_string()),
        vendor_name: None,
        active_port: Some(PortAvailability::No),
        sample_spec: SampleSpec { format: ServiceSampleFormat::S16LE, rate: 44100, channels: 2 },
        channels: 2,
    };
    let d = c.extract_device_info(&r, &"sink0".to_string(), DeviceType::Output);
    assert_eq!(d.device_id, "sink0");
    assert_eq!(d.friendly_name, "Speakers");
    assert_eq!(d.group_id, Some("/devices/x".to_string()));
    assert_eq!(d.vendor_name, None);
    assert_eq!(d.dev_type, DeviceType::Output);
    assert_eq!(d.state, DeviceState::Unplugged);
    assert_eq!(d.preferred, DEVICE_PREF_ALL);
    assert_eq!(d.format, DEVICE_FMT_ALL);
    assert_eq!(d.default_format, DEVICE_FMT_S16LE);
    assert_eq!(d.max_channels, 2);
    assert_eq!((d.min_rate, d.max_rate, d.default_rate), (1, 384000, 44100));
    let other = c.extract_device_info(&r, &"sink1".to_string(), DeviceType::Output);
    assert_eq!(other.preferred, DEVICE_PREF_NONE);
    let r2 = DeviceRecord {
        active_port: None,
        sample_spec: SampleSpec { format: ServiceSampleFormat::Float32LE, rate: 48000, channels: 1 },
        ..r
    };
    let d2 = c.extract_device_info(&r2, &"x".to_string(), DeviceType::Input);
    assert_eq!(d2.state, DeviceState::Disabled);
    assert_eq!(d2.default_format, DEVICE_FMT_F32LE);
}

#[test]
fn direction_masks() {
    assert_eq!(enumerate_directions(DEVICE_TYPE_OUTPUT), (true, false));
    assert_eq!(enumerate_directions(DEVICE_TYPE_INPUT), (false, true));
    assert_eq!(enumerate_directions(DEVICE_TYPE_INPUT | DEVICE_TYPE_OUTPUT), (true, true));
    assert_eq!(enumerate_directions(0), (false, false));
}

#[test]
fn operation_waits() {
    let c = PulseContext::init("app").unwrap();
    let run = OperationState::Running;
    assert_eq!(c.operation_wait(run, ContextState::Ready, false), ReadyStep::Wait);
    assert_eq!(c.operation_wait(OperationState::Done, ContextState::Failed, false), ReadyStep::Ready);
    assert_eq!(c.operation_wait(OperationState::Done, ContextState::Failed, true), ReadyStep::Failed);
    assert_eq!(
        c.operation_wait_stream(run, ContextState::Ready, Some(StreamState::Failed), true),
        ReadyStep::Failed
    );
    assert_eq!(
        c.operation_wait_stream(OperationState::Cancelled, ContextState::Ready, Some(StreamState::Ready), true),
        ReadyStep::Ready
    );
}
