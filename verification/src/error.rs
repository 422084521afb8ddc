use vstd::prelude::*;
use vstd::string::StringExecFns;

verus! {

/// Everything a recording operation can report to its caller.
#[derive(Clone, Copy, Debug, PartialEq, Eq, Structural)]
pub enum RecordingError {
    /// The host platform has no known capture backend.
    UnsupportedPlatform,
    /// A stop was requested while no session holds recording options.
    NoRecordingOptions,
    /// A start was requested while a session is recording or stopping.
    SessionActive,
    /// A stop was requested while an earlier stop is still draining.
    StopInProgress,
}

impl RecordingError {
    /// The text of each error.
    pub open spec fn message_text(self) -> Seq<char> {
        match self {
            RecordingError::UnsupportedPlatform => "Unsupported OS"@,
            RecordingError::NoRecordingOptions => "No recording options provided"@,
            RecordingError::SessionActive => "Recording already in progress"@,
            RecordingError::StopInProgress => "Recording is already stopping"@,
        }
    }

    /// The message shown to the user for this error.
    pub fn message(&self) -> (text: String)
        ensures
            text@ == self.message_text(),
    {
        match self {
            RecordingError::UnsupportedPlatform => String::from_str("Unsupported OS"),
            RecordingError::NoRecordingOptions => String::from_str("No recording options provided"),
            RecordingError::SessionActive => String::from_str("Recording already in progress"),
            RecordingError::StopInProgress => String::from_str("Recording is already stopping"),
        }
    }
}

} // verus!
