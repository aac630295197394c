use vstd::prelude::*;

verus! {

/// What can go wrong when talking to MIDI devices.
#[derive(Clone, Copy, Debug, PartialEq, Eq)]
pub enum Error {
    ConnectionInitializationError,
    DeviceLoadingError,
    DeviceNotFound,
    PortInitializationError,
    ReadError,
    WriteError,
    OutOfBoundIndexError,
    ImageRenderError,
    Unsupported,
}

impl Error {
    /// A sentence that describes the error.
    pub fn message(&self) -> (s: &'static str)
        ensures
            *self == Error::ConnectionInitializationError ==> s == "[midi] error when initializing connections",
            *self == Error::DeviceLoadingError ==> s == "[midi] error when loading devices",
            *self == Error::DeviceNotFound ==> s == "[midi] could not find device",
            *self == Error::PortInitializationError ==> s == "[midi] error when initializing a port",
            *self == Error::ReadError ==> s == "[midi] could not read an event",
            *self == Error::WriteError ==> s == "[midi] could not write an event",
            *self == Error::OutOfBoundIndexError ==> s == "[midi] could not handle index",
            *self == Error::ImageRenderError ==> s == "[midi] could not render an image",
            *self == Error::Unsupported ==> s == "[midi] unsupported operation",
    {
        match self {
            Error::ConnectionInitializationError => "[midi] error when initializing connections",
            Error::DeviceLoadingError => "[midi] error when loading devices",
            Error::DeviceNotFound => "[midi] could not find device",
            Error::PortInitializationError => "[midi] error when initializing a port",
            Error::ReadError => "[midi] could not read an event",
            Error::WriteError => "[midi] could not write an event",
            Error::OutOfBoundIndexError => "[midi] could not handle index",
            Error::ImageRenderError => "[midi] could not render an image",
            Error::Unsupported => "[midi] unsupported operation",
        }
    }
}

} // verus!
