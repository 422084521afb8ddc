//! Coordination core of a dual-stream screen and camera recorder: encoder
//! arguments, chunk manifest parsing, live chunk watching, the shutdown drain
//! and the session life cycle.

pub mod args;
pub mod drain;
pub mod error;
pub mod manifest;
pub mod options;
pub mod session;
pub mod text;
pub mod watcher;

pub use args::construct_recording_args;
pub use error::RecordingError;
pub use options::{Platform, RecordingOptions, StreamKind};
pub use session::{start_dual_recording, stop_all_recordings, RecordingState};
