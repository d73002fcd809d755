use vstd::prelude::*;

verus! {

/// Why a recording session could not be started.
#[derive(Debug)]
pub enum StartError {
    /// The host has no default input device.
    NoInputDevice,
    /// The device's configurations could not be queried; the device's own words.
    ConfigQuery(String),
    /// The device delivers samples in a representation the encoder does not handle.
    UnsupportedFormat,
    /// The hardware stream could not be built or started; the device's own words.
    Stream(String),
    /// The connection request could not be formed.
    MalformedRequest,
    /// The connection to the recognition service failed; the cause in words.
    Connect(String),
}

/// The human-readable text for each error.
pub open spec fn error_text(e: StartError) -> Seq<char> {
    match e {
        StartError::NoInputDevice => "No input device"@,
        StartError::ConfigQuery(s) => s@,
        StartError::UnsupportedFormat => "Unsupported format"@,
        StartError::Stream(s) => s@,
        StartError::MalformedRequest => "Malformed connection request"@,
        StartError::Connect(s) => "Failed to connect: "@ + s@,
    }
}

impl StartError {
    /// The text handed back to the caller of `start`.
    pub fn message(&self) -> (r: String)
        ensures
            r@ == error_text(*self),
    {
        match self {
            StartError::NoInputDevice => String::from_str("No input device"),
            StartError::ConfigQuery(s) => s.clone(),
            StartError::UnsupportedFormat => String::from_str("Unsupported format"),
            StartError::Stream(s) => s.clone(),
            StartError::MalformedRequest => String::from_str("Malformed connection request"),
            StartError::Connect(s) => String::from_str("Failed to connect: ").concat(s.as_str()),
        }
    }
}

} // verus!
