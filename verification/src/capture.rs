//! The capture source as the pipeline sees it: whether it is delivering
//! audio, and the decisions around opening, starting and stopping the
//! platform's default device. The device itself is driven by the caller.

use vstd::prelude::*;
use vstd::string::StringExecFns;

verus! {

/// The sample format a device delivers. Only 32-bit floating point is
/// captured; any other format is known by its name alone.
#[derive(Debug, PartialEq, Eq)]
pub enum SampleFormat {
    /// 32-bit floating point samples.
    F32,
    /// Any other format, with the name it is reported under.
    Other(String),
}

/// Why capture could not be set up or started.
#[derive(Debug, PartialEq, Eq)]
pub enum DeviceError {
    /// There is no default device to capture from.
    Unavailable,
    /// The device delivers samples in a format that is not captured.
    UnsupportedFormat(String),
    /// The device refused to start, with its own description.
    Stream(String),
}

/// The mathematical value of a [`DeviceError`].
pub enum DeviceErrorModel {
    Unavailable,
    UnsupportedFormat(Seq<char>),
    Stream(Seq<char>),
}

impl View for DeviceError {
    type V = DeviceErrorModel;

    open spec fn view(&self) -> DeviceErrorModel {
        match self {
            DeviceError::Unavailable => DeviceErrorModel::Unavailable,
            DeviceError::UnsupportedFormat(name) => DeviceErrorModel::UnsupportedFormat(name@),
            DeviceError::Stream(text) => DeviceErrorModel::Stream(text@),
        }
    }
}

impl DeviceErrorModel {
    /// The description of an error.
    pub open spec fn message(self) -> Seq<char> {
        match self {
            DeviceErrorModel::Unavailable => "No default audio device found"@,
            DeviceErrorModel::UnsupportedFormat(name) => "Unsupported sample format '"@ + name
                + "'"@,
            DeviceErrorModel::Stream(text) => text,
        }
    }
}

impl DeviceError {
    /// The description of this error, as it is shown to the caller.
    pub fn message(&self) -> (text: String)
        ensures
            text@ == self@.message(),
    {
        match self {
            DeviceError::Unavailable => String::from_str("No default audio device found"),
            DeviceError::UnsupportedFormat(name) => {
                String::from_str("Unsupported sample format '").concat(name.as_str()).concat("'")
            },
            DeviceError::Stream(text) => text.clone(),
        }
    }
}

/// The answer of a device probe that capture can be set up on: there is a
/// device and it delivers 32-bit floating point samples.
pub open spec fn capturable(device: Option<SampleFormat>) -> bool {
    device == Some(SampleFormat::F32)
}

/// The state of the capture source: delivering audio, or stopped.
#[derive(Debug)]
pub struct AudioOutput {
    stopped: bool,
}

impl AudioOutput {
    /// Whether the source is stopped.
    pub closed spec fn stopped(&self) -> bool {
        self.stopped
    }

    /// Sets capture up on the probed default device: `None` where there is
    /// no device, else the format it delivers. Fails at once, and is not
    /// tried again, where there is no device or the format is not 32-bit
    /// floating point. A new source is stopped.
    pub fn new(device: Option<SampleFormat>) -> (output: Result<AudioOutput, DeviceError>)
        ensures
            match output {
                Ok(source) => capturable(device) && source.stopped(),
                Err(error) => match device {
                    None => error@ == DeviceErrorModel::Unavailable,
                    Some(SampleFormat::F32) => false,
                    Some(SampleFormat::Other(name)) => error@
                        == DeviceErrorModel::UnsupportedFormat(name@),
                },
            },
    {
        match device {
            None => Err(DeviceError::Unavailable),
            Some(SampleFormat::F32) => Ok(AudioOutput { stopped: true }),
            Some(SampleFormat::Other(name)) => Err(DeviceError::UnsupportedFormat(name)),
        }
    }

    /// Whether the source is stopped.
    pub fn is_stopped(&self) -> (stopped: bool)
        ensures
            stopped == self.stopped(),
    {
        self.stopped
    }

    /// Asks the source to deliver audio. Returns whether the caller has to
    /// start the device: a source that is already delivering stays as it is.
    pub fn start_recording(&mut self) -> (start_device: bool)
        ensures
            start_device == old(self).stopped(),
            !final(self).stopped(),
    {
        let start_device = self.stopped;
        self.stopped = false;
        start_device
    }

    /// Records that the device refused to start: the source is stopped again
    /// and the error is the device's description.
    pub fn start_failed(&mut self, description: String) -> (error: DeviceError)
        ensures
            final(self).stopped(),
            error@ == DeviceErrorModel::Stream(description@),
    {
        self.stopped = true;
        DeviceError::Stream(description)
    }

    /// Asks the source to stop. Returns whether the caller has to stop the
    /// device and deliver the closing signal: a stopped source stays as it
    /// is, and no second closing signal is sent.
    pub fn stop_recording(&mut self) -> (stop_device: bool)
        ensures
            stop_device == !old(self).stopped(),
            final(self).stopped(),
    {
        let stop_device = !self.stopped;
        self.stopped = true;
        stop_device
    }
}

} // verus!
