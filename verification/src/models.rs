//! The request and response records a host shell exchanges with the
//! library, and the plugin-level error taxonomy.

use vstd::prelude::*;
use crate::errors::Error;

verus! {

/// The plugin layer's error taxonomy; each variant carries a description.
#[derive(Debug, Clone)]
pub enum PluginError {
    /// A transport-level failure.
    Io(String),
    /// A failure the player reported.
    MpvError(String),
    /// A configuration problem.
    ConfigError(String),
    /// Malformed or unexpected JSON.
    JsonError(String),
    /// A malformed instance identifier.
    VideoIdError(String),
}

impl PluginError {
    /// The library error this plugin error stands for.
    pub fn into_error(self) -> (r: Error)
        ensures
            (match self {
                PluginError::Io(m) => r == Error::Io(crate::errors::IoErrorKind::Other, m),
                PluginError::MpvError(m) => r == Error::MpvError(m),
                PluginError::ConfigError(m) => r == Error::ConfigError(m),
                PluginError::JsonError(m) => r == Error::JsonError(m),
                PluginError::VideoIdError(m) => r == Error::VideoIdError(m),
            }),
    {
        match self {
            PluginError::Io(m) => Error::Io(crate::errors::IoErrorKind::Other, m),
            PluginError::MpvError(m) => Error::MpvError(m),
            PluginError::ConfigError(m) => Error::ConfigError(m),
            PluginError::JsonError(m) => Error::JsonError(m),
            PluginError::VideoIdError(m) => Error::VideoIdError(m),
        }
    }
}

/// The answer to a successful play request.
#[derive(Debug, Clone)]
pub struct PlayResponse {
    /// The textual identifier of the instance now playing.
    pub video_id: String,
}

/// A request for information about one instance.
#[derive(Debug, Clone)]
pub struct InfoRequest {
    /// The textual identifier of the instance.
    pub video_id: String,
}

/// A request to close one instance.
#[derive(Debug, Clone)]
pub struct CloseRequest {
    /// The textual identifier of the instance.
    pub video_id: String,
}

/// The answer to a close request.
#[derive(Debug, Clone)]
pub struct CloseResponse {
    /// Whether the instance was closed.
    pub success: bool,
}

/// A request for the available presets.
#[derive(Debug, Clone)]
pub struct ListPresetsRequest {}

/// The answer to a preset listing.
#[derive(Debug, Clone)]
pub struct ListPresetsResponse {
    /// Every available preset name.
    pub presets: Vec<String>,
    /// The preset recommended for this system, when one was detected.
    pub recommended: Option<String>,
}

/// The playback progress of one instance. Times are whole milliseconds; the
/// percentage is in thousandths.
#[derive(Debug, Clone)]
pub struct PlaybackProgress {
    /// The playback position.
    pub position_ms: i64,
    /// The duration.
    pub duration_ms: i64,
    /// The position as thousandths of a percent of the duration.
    pub percent_mill: i64,
    /// Whether playback is paused.
    pub is_paused: bool,
}

/// Assembles a progress report from the polled properties, with the
/// percentage computed from position and duration.
pub fn make_progress(position_ms: i64, duration_ms: i64, is_paused: bool) -> (r: PlaybackProgress)
    ensures
        r.position_ms == position_ms,
        r.duration_ms == duration_ms,
        r.percent_mill as int == crate::manager::spec_percent_mill(
            position_ms as int,
            duration_ms as int,
        ),
        r.is_paused == is_paused,
{
    PlaybackProgress {
        position_ms,
        duration_ms,
        percent_mill: crate::manager::percent_mill(position_ms, duration_ms),
        is_paused,
    }
}

} // verus!
