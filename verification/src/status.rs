//! The audio-status record: the whole audio state of the desktop in one
//! value — basic volume state, default devices, what is playing, and which
//! applications hold playback or recording streams.  The surrounding
//! program fills it from the platform's sound server and serializes it;
//! the record itself is plain data.

use vstd::prelude::*;

verus! {

/// Complete audio state in one record.
#[derive(Debug, Clone)]
pub struct AudioStatus {
    /// Master output volume in percent.
    pub volume_percent: u8,
    /// Whether the master output is muted.
    pub muted: bool,
    /// The default output device, when one is configured.
    pub default_output: Option<DeviceInfo>,
    /// The default input device, when one is configured.
    pub default_input: Option<DeviceInfo>,
    /// What is currently playing, when any player is active.
    pub now_playing: Option<NowPlaying>,
    /// Applications with an open playback stream.
    pub apps_playing: Vec<AppAudio>,
    /// Applications with an open recording stream.
    pub apps_recording: Vec<AppAudio>,
}

/// One sound-server device.
#[derive(Debug, Clone)]
pub struct DeviceInfo {
    /// Internal device name.
    pub name: String,
    /// Human-readable description.
    pub description: String,
    /// Device volume in percent.
    pub volume_percent: u32,
    /// Whether the device is muted.
    pub muted: bool,
}

/// What a media player reports as currently playing.
#[derive(Debug, Clone)]
pub struct NowPlaying {
    /// The player's name.
    pub player: String,
    /// Playback status, as the player words it.
    pub status: String,
    /// Track title, when known.
    pub title: Option<String>,
    /// Track artist, when known.
    pub artist: Option<String>,
    /// Track album, when known.
    pub album: Option<String>,
}

/// One application's audio stream.
#[derive(Debug, Clone)]
pub struct AppAudio {
    /// The application's name.
    pub name: String,
    /// The stream's index at the sound server.
    pub index: u32,
    /// Stream volume in percent.
    pub volume_percent: u32,
    /// Whether the stream is muted.
    pub muted: bool,
}

} // verus!
