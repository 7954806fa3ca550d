//! Core of an audio playback engine: the playback queue and history with the
//! laws that hold of it, the choice of decoder for a file, track metadata,
//! the leading-silence trim of MPEG audio, the backpressured sink that feeds
//! the output ring buffer, and the device side that drains it.

pub mod device;
pub mod dispatch;
pub mod laws;
pub mod mp3;
pub mod opus;
pub mod queue;
pub mod sink;
pub mod tags;
pub mod text;
mod signals;

pub use device::fill_block;
pub use dispatch::{detect_format, AudioFormat, FormatError};
pub use queue::{Playing, PlayerState, PlaylistEntry, QueueModel, Track};
pub use sink::BufferedReader;
pub use tags::{Tags, TagsView};
pub use text::{has_suffix, same_text};
