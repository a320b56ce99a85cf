use vstd::prelude::*;

verus! {

/// Why a command did not do what was asked.
#[derive(Clone, Debug)]
pub enum MediaError {
    /// A time window that does not end after it starts, or an unknown name of a
    /// recording type, corner or size class.
    InvalidArgument(String),
    /// A recording was asked for while one runs.
    AlreadyRecording,
    /// A recording was to be stopped while none runs.
    NoActiveRecording,
    /// The encoder could not be started.
    ExternalToolUnavailable(String),
    /// The encoder ran and reported failure; holds its diagnostic output.
    ExternalToolFailed(String),
    /// A file could not be read or written.
    Io(String),
}

impl MediaError {
    pub open spec fn message_spec(&self) -> Seq<char> {
        match self {
            MediaError::InvalidArgument(m) => m@,
            MediaError::AlreadyRecording => "Already recording"@,
            MediaError::NoActiveRecording => "No active recording"@,
            MediaError::ExternalToolUnavailable(m) => m@,
            MediaError::ExternalToolFailed(m) => "FFmpeg error: "@ + m@,
            MediaError::Io(m) => m@,
        }
    }

    /// The text shown to the user for this error.
    pub fn message(&self) -> (r: String)
        ensures
            r@ == self.message_spec(),
    {
        match self {
            MediaError::InvalidArgument(m) => m.clone(),
            MediaError::AlreadyRecording => String::from_str("Already recording"),
            MediaError::NoActiveRecording => String::from_str("No active recording"),
            MediaError::ExternalToolUnavailable(m) => m.clone(),
            MediaError::ExternalToolFailed(m) => {
                let mut s = String::from_str("FFmpeg error: ");
                s.append(m.as_str());
                s
            },
            MediaError::Io(m) => m.clone(),
        }
    }
}

} // verus!
