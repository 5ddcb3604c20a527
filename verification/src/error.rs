use vstd::prelude::*;

verus! {

/// Why an operation of the player failed. Every failure is final for the
/// operation that reports it: nothing is retried.
#[derive(Clone, Copy, Debug, PartialEq, Eq, Structural)]
pub enum PlayerError {
    /// The file is missing, unreadable, or may not be opened.
    MediaOpen,
    /// No registered container format accepts the stream.
    UnsupportedFormat,
    /// The audio could not be decoded, or the output device could not be set up.
    PlaybackOpen,
    /// Pause or resume was asked for while no session exists.
    NoActiveSession,
}

impl PlayerError {
    /// The text that `message` returns.
    pub open spec fn message_text(self) -> Seq<char> {
        match self {
            PlayerError::MediaOpen => "failed to open media"@,
            PlayerError::UnsupportedFormat => "unsupported format"@,
            PlayerError::PlaybackOpen => "failed to start playback"@,
            PlayerError::NoActiveSession => "no active playback session"@,
        }
    }

    /// A short description of the failure, for the caller to show.
    pub fn message(&self) -> (text: String)
        ensures
            text@ == self.message_text(),
    {
        match self {
            PlayerError::MediaOpen => String::from_str("failed to open media"),
            PlayerError::UnsupportedFormat => String::from_str("unsupported format"),
            PlayerError::PlaybackOpen => String::from_str("failed to start playback"),
            PlayerError::NoActiveSession => String::from_str("no active playback session"),
        }
    }
}

} // verus!
