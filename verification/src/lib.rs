//! Verified core of AudioPass: the audio routing arithmetic, the sample ring,
//! the track list, the playback cursor, the PipeWire registry model and the
//! decisions of the user interface.

pub mod audio;
pub mod constants;
pub mod datastore;
pub mod pipewire;
pub mod playback;
pub mod search;
pub mod state;
pub mod text;
pub mod ui;
