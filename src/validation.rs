//! Range checks on stream parameters.
use vstd::prelude::*;
use crate::types::{
    Error, StreamParams, SAMPLE_FLOAT32BE, SAMPLE_FLOAT32LE, SAMPLE_S16BE, SAMPLE_S16LE,
};

verus! {

pub open spec fn frequency_ok(hz: int) -> bool {
    1000 <= hz <= 192000
}

pub open spec fn channel_count_ok(c: int) -> bool {
    1 <= c <= 8
}

pub open spec fn format_ok(f: i32) -> bool {
    f == SAMPLE_S16LE || f == SAMPLE_S16BE || f == SAMPLE_FLOAT32LE || f == SAMPLE_FLOAT32BE
}

/// Whether the parameters of one direction are accepted.
pub open spec fn params_ok(p: StreamParams) -> bool {
    frequency_ok(p.rate as int) && channel_count_ok(p.channels as int) && format_ok(p.format)
}

/// Whether the parameters of a duplex stream are accepted: each direction on its
/// own, and the same rate and format in both.
pub open spec fn duplex_params_ok(input: StreamParams, output: StreamParams) -> bool {
    params_ok(input) && params_ok(output) && input.rate == output.rate && input.format
        == output.format
}

pub fn valid_frequency(hz: i32) -> (r: bool)
    ensures
        r == frequency_ok(hz as int),
{
    hz >= 1000 && hz <= 192000
}

pub fn valid_channel_count(channel: i32) -> (r: bool)
    ensures
        r == channel_count_ok(channel as int),
{
    channel > 0 && channel <= 8
}

pub fn validate_stream_params(p: &StreamParams) -> (r: Result<(), Error>)
    ensures
        r is Ok <==> params_ok(*p),
        r is Err ==> r == Err::<(), Error>(Error::InvalidFormat),
{
    if !valid_frequency(p.rate) {
        return Err(Error::InvalidFormat);
    }
    if !valid_channel_count(p.channels) {
        return Err(Error::InvalidFormat);
    }
    if p.format == SAMPLE_S16LE || p.format == SAMPLE_S16BE || p.format == SAMPLE_FLOAT32LE
        || p.format == SAMPLE_FLOAT32BE {
        Ok(())
    } else {
        Err(Error::InvalidFormat)
    }
}

pub fn validate_duplex_stream_params(input: &StreamParams, output: &StreamParams) -> (r: Result<
    (),
    Error,
>)
    ensures
        r is Ok <==> duplex_params_ok(*input, *output),
        r is Err ==> r == Err::<(), Error>(Error::InvalidFormat),
{
    validate_stream_params(output)?;
    validate_stream_params(input)?;
    if input.rate != output.rate || input.format != output.format {
        return Err(Error::InvalidFormat);
    }
    Ok(())
}

} // verus!
