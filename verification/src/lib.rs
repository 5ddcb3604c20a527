//! The core of a desktop music player: what is shown of an audio file, and
//! what may be done to the one session that plays.
//!
//! * [`reader`] reads the display metadata of a file from its bytes. The
//!   stream is walked from marker to marker with the search and the readers
//!   of symphonia ([`probe`]); which tag fills which field of a record is
//!   decided here ([`metadata`], [`tags`]).
//! * [`screen`] tells the tag header that the tag reader cannot take.
//! * [`display`] shows a record as a line of text.
//! * [`playback`] holds the rules of the one playback session: the owner of
//!   the audio device asks the controller what to do and reports back.
//!
//! Opening files, listing directories and driving the audio device are left
//! to the program around this library.

pub mod display;
pub mod error;
pub mod metadata;
pub mod playback;
pub mod probe;
pub mod reader;
pub mod screen;
pub mod tags;

pub use error::PlayerError;
pub use metadata::{MetaData, MetaDataVisual};
pub use playback::{OpenOutcome, PlayPlan, PlaybackController, PlaybackState, SinkCommand};
pub use probe::Probed;
pub use reader::{find_files, read_mp3_metadata, record_of_probe, MediaFile};
pub use tags::{TagEntry, TagValue};
