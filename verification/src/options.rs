use vstd::prelude::*;
use vstd::string::StringExecFns;
use crate::text::same_text;

verus! {

/// What one recording session is asked to capture and where its chunks go.
/// A value is never changed after it is made; every task gets its own copy.
#[derive(Debug, PartialEq, Eq)]
pub struct RecordingOptions {
    pub user_id: String,
    pub video_id: String,
    pub screen_index: String,
    pub video_index: String,
    pub aws_region: String,
    pub aws_bucket: String,
    pub framerate: String,
    pub resolution: String,
}

impl Clone for RecordingOptions {
    fn clone(&self) -> (copy: Self)
        ensures
            copy == *self,
    {
        RecordingOptions {
            user_id: self.user_id.clone(),
            video_id: self.video_id.clone(),
            screen_index: self.screen_index.clone(),
            video_index: self.video_index.clone(),
            aws_region: self.aws_region.clone(),
            aws_bucket: self.aws_bucket.clone(),
            framerate: self.framerate.clone(),
            resolution: self.resolution.clone(),
        }
    }
}

/// Which of the two captured sources a chunk belongs to.
#[derive(Clone, Copy, Debug, PartialEq, Eq, Structural)]
pub enum StreamKind {
    Screen,
    Video,
}

impl StreamKind {
    /// The tag that accompanies every upload of this stream.
    pub open spec fn tag_text(self) -> Seq<char> {
        match self {
            StreamKind::Screen => "screen"@,
            StreamKind::Video => "video"@,
        }
    }

    /// The chunk directory of this stream, relative to the working directory.
    pub open spec fn chunk_dir_text(self) -> Seq<char> {
        match self {
            StreamKind::Screen => "chunks/screen"@,
            StreamKind::Video => "chunks/video"@,
        }
    }

    pub fn tag(&self) -> (text: String)
        ensures
            text@ == self.tag_text(),
    {
        match self {
            StreamKind::Screen => String::from_str("screen"),
            StreamKind::Video => String::from_str("video"),
        }
    }

    pub fn chunk_dir(&self) -> (text: String)
        ensures
            text@ == self.chunk_dir_text(),
    {
        match self {
            StreamKind::Screen => String::from_str("chunks/screen"),
            StreamKind::Video => String::from_str("chunks/video"),
        }
    }

    /// The source index that `options` names for this stream.
    pub fn source_index<'a>(&self, options: &'a RecordingOptions) -> (index: &'a String)
        ensures
            *index == match *self {
                StreamKind::Screen => options.screen_index,
                StreamKind::Video => options.video_index,
            },
    {
        match self {
            StreamKind::Screen => &options.screen_index,
            StreamKind::Video => &options.video_index,
        }
    }
}

/// The host platforms with a capture backend.
#[derive(Clone, Copy, Debug, PartialEq, Eq, Structural)]
pub enum Platform {
    MacOs,
    Linux,
    Windows,
}

/// The platform that an operating system name stands for, if any.
pub open spec fn platform_of(name: Seq<char>) -> Option<Platform> {
    if name == "macos"@ {
        Some(Platform::MacOs)
    } else if name == "linux"@ {
        Some(Platform::Linux)
    } else if name == "windows"@ {
        Some(Platform::Windows)
    } else {
        None
    }
}

impl Platform {
    /// Reads an operating system name as the standard library spells it.
    pub fn from_name(name: &str) -> (platform: Option<Platform>)
        ensures
            platform == platform_of(name@),
    {
        if same_text(name, "macos") {
            Some(Platform::MacOs)
        } else if same_text(name, "linux") {
            Some(Platform::Linux)
        } else if same_text(name, "windows") {
            Some(Platform::Windows)
        } else {
            None
        }
    }
}

} // verus!
