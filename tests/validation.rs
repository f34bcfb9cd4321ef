use cubeb::{
    valid_channel_count, valid_frequency, validate_duplex_stream_params, validate_stream_params,
    ChannelLayout, Error, StreamParams, SAMPLE_FLOAT32LE, SAMPLE_S16LE,
};

#[test]
fn lib_it_works() {}

#[test]
fn valid_frequencies() {
    for hz in 1000..192001 {
        assert!(valid_frequency(hz));
    }
}

#[test]
fn invalid_frequencies() {
    for hz in 0..1000 {
        assert!(!valid_frequency(hz));
    }
    for hz in 192001..193000 {
        assert!(!valid_frequency(hz));
    }
}

#[test]
fn valid_channels() {
    for c in 1..9 {
        assert!(valid_channel_count(c));
    }
}

#[test]
fn invalid_channels() {
    assert!(!valid_channel_count(0));
    assert!(!valid_channel_count(9));
}

fn sample_params_ok(p: &StreamParams) -> bool {
    match validate_stream_params(p) {
        Ok(_) => true,
        _ => false,
    }
}

fn sample_params_err(p: &StreamParams, e: Error) -> bool {
    match validate_stream_params(p) {
        Err(err) => err == e,
        _ => false,
    }
}

#[test]
fn valid_sample_params() {
    let p = StreamParams::new(SAMPLE_FLOAT32LE, 44100, 2, ChannelLayout::Stereo);
    assert!(sample_params_ok(&p));
}

#[test]
fn invalid_sample_params() {
    let zero_hz = StreamParams::new(SAMPLE_FLOAT32LE, 0, 2, ChannelLayout::Stereo);
    assert!(sample_params_err(&zero_hz, Error::InvalidFormat));
    let zero_channels = StreamParams::new(SAMPLE_FLOAT32LE, 44100, 0, ChannelLayout::Stereo);
    assert!(sample_params_err(&zero_channels, Error::InvalidFormat));
}

#[test]
fn valid_duplex_sample_params() {
    let p = StreamParams::new(SAMPLE_FLOAT32LE, 44100, 2, ChannelLayout::Stereo);
    match validate_duplex_stream_params(&p, &p) {
        Ok(_) => {}
        Err(err) => {
            panic!("{:?}", err);
        }
    }
}

#[test]
fn invalid_duplex_sample_params() {
    let i = StreamParams::new(SAMPLE_FLOAT32LE, 44100, 2, ChannelLayout::Stereo);
    let o = StreamParams { rate: 22050, ..i };
    match validate_duplex_stream_params(&i, &o) {
        Ok(_) => {
            panic!();
        }
        Err(Error::InvalidFormat) => {}
        Err(err) => {
            panic!("{:?}", err);
        }
    }
}

#[test]
fn unknown_format_is_refused() {
    let p = StreamParams::new(7, 44100, 2, ChannelLayout::Stereo);
    assert_eq!(validate_stream_params(&p), Err(Error::InvalidFormat));
}

#[test]
fn duplex_with_different_formats_is_refused() {
    let i = StreamParams::new(SAMPLE_FLOAT32LE, 48000, 2, ChannelLayout::Stereo);
    let o = StreamParams::new(SAMPLE_S16LE, 48000, 2, ChannelLayout::Stereo);
    assert_eq!(validate_duplex_stream_params(&i, &o), Err(Error::InvalidFormat));
    assert_eq!(validate_duplex_stream_params(&o, &o), Ok(()));
}

#[test]
fn channel_and_rate_edges() {
    assert!(valid_channel_count(8));
    assert!(!valid_channel_count(-1));
    assert!(valid_frequency(192000));
    assert!(!valid_frequency(i32::MIN));
}
