//! The speaker's configuration: a human-chosen display name and the device
//! identifier derived from it, plus the playback sample format.

use vstd::prelude::*;
use crate::audio::AudioFormat;
use crate::hashing::{device_id, hex_lower_of, sha1_of};

verus! {

/// The configuration the session core is built from. The device id is always
/// the lowercase-hex SHA-1 digest of the display name, so one display name
/// maps to one identity across runs.
pub struct SpotifyConfig {
    pub device_name: String,
    pub device_id: String,
    pub audio_format: AudioFormat,
}

/// Abstract value of a [`SpotifyConfig`].
#[verifier::ext_equal]
pub struct ConfigModel {
    pub device_name: Seq<char>,
    pub device_id: Seq<char>,
    pub audio_format: AudioFormat,
}

impl View for SpotifyConfig {
    type V = ConfigModel;

    open spec fn view(&self) -> ConfigModel {
        ConfigModel {
            device_name: self.device_name@,
            device_id: self.device_id@,
            audio_format: self.audio_format,
        }
    }
}

impl SpotifyConfig {
    /// Builds the configuration for a display name: the name itself, the
    /// derived device identifier, and 16-bit output as the playback format.
    pub fn new(display_name: &str) -> (s: Self)
        ensures
            s@.device_name == display_name@,
            s@.device_id == hex_lower_of(sha1_of(display_name@)),
            s@.audio_format == AudioFormat::S16,
    {
        let id = device_id(display_name);
        SpotifyConfig { device_name: display_name.to_owned(), device_id: id, audio_format: AudioFormat::S16 }
    }
}

/// Decides the display name to run under: a stored name is used as it is; when
/// none is stored, the fallback name is used and must be persisted (the second
/// component says so).
pub fn resolve_display_name(stored: Option<String>) -> (r: (String, bool))
    ensures
        match stored {
            Some(name) => r.0@ == name@ && !r.1,
            None => r.0@ == "SPEAKER"@ && r.1,
        },
{
    match stored {
        Some(name) => (name, false),
        None => ("SPEAKER".to_owned(), true),
    }
}

} // verus!
