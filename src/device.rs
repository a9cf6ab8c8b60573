use vstd::prelude::*;
use crate::format::{AudioFormat, StreamKey};
use crate::slots::InputBinding;

verus! {

/// Why a device cannot be used now.
#[derive(Clone, Copy, Debug, PartialEq, Eq, Structural)]
pub enum DeviceError {
    /// The device went away before or during binding.
    DeviceUnavailable,
    /// No usable format could be agreed with the device.
    FormatNegotiationFailed,
}

/// Ways in which asking a device for its default capture format fails.
#[derive(Clone, Copy, Debug, PartialEq, Eq, Structural)]
pub enum DefaultFormatFailure {
    DeviceNotAvailable,
    StreamTypeNotSupported,
}

/// Ways in which opening a capture stream fails.
#[derive(Clone, Copy, Debug, PartialEq, Eq, Structural)]
pub enum StreamCreationFailure {
    DeviceNotAvailable,
    FormatNotSupported,
}

pub open spec fn format_failure_spec(e: DefaultFormatFailure) -> DeviceError {
    match e {
        DefaultFormatFailure::DeviceNotAvailable => DeviceError::DeviceUnavailable,
        DefaultFormatFailure::StreamTypeNotSupported => DeviceError::FormatNegotiationFailed,
    }
}

pub open spec fn creation_failure_spec(e: StreamCreationFailure) -> DeviceError {
    match e {
        StreamCreationFailure::DeviceNotAvailable => DeviceError::DeviceUnavailable,
        StreamCreationFailure::FormatNotSupported => DeviceError::FormatNegotiationFailed,
    }
}

/// Turns the device's answer to "what is your default capture format" into
/// a format the pipeline can use: one with at least one channel and a
/// positive rate.
pub fn accept_format(negotiated: Result<(u16, u32), DefaultFormatFailure>) -> (r: Result<
    AudioFormat,
    DeviceError,
>)
    ensures
        match negotiated {
            Err(e) => r == Err::<AudioFormat, DeviceError>(format_failure_spec(e)),
            Ok((channels, rate)) => if channels >= 1 && rate > 0 {
                r == Ok::<AudioFormat, DeviceError>(
                    AudioFormat { channels, sample_rate: rate },
                )
            } else {
                r == Err::<AudioFormat, DeviceError>(DeviceError::FormatNegotiationFailed)
            },
        },
        r matches Ok(f) ==> f.wf(),
{
    match negotiated {
        Err(DefaultFormatFailure::DeviceNotAvailable) => Err(DeviceError::DeviceUnavailable),
        Err(DefaultFormatFailure::StreamTypeNotSupported) => Err(
            DeviceError::FormatNegotiationFailed,
        ),
        Ok((channels, rate)) => match AudioFormat::new(channels, rate) {
            Some(f) => Ok(f),
            None => Err(DeviceError::FormatNegotiationFailed),
        },
    }
}

/// Pairs a freshly opened capture stream with the format it was opened
/// with, or reports why it could not be opened.
pub fn accept_stream(created: Result<StreamKey, StreamCreationFailure>, format: AudioFormat) -> (r:
    Result<InputBinding, DeviceError>)
    ensures
        match created {
            Ok(stream) => r == Ok::<InputBinding, DeviceError>(InputBinding { stream, format }),
            Err(e) => r == Err::<InputBinding, DeviceError>(creation_failure_spec(e)),
        },
{
    match created {
        Ok(stream) => Ok(InputBinding { stream, format }),
        Err(StreamCreationFailure::DeviceNotAvailable) => Err(DeviceError::DeviceUnavailable),
        Err(StreamCreationFailure::FormatNotSupported) => Err(
            DeviceError::FormatNegotiationFailed,
        ),
    }
}

} // verus!
