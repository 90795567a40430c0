//! Audio commands.

use vstd::prelude::*;

verus! {

/// Sets the speaker volume (0-9).
pub const AT_SPEAKER_VOLUME: &'static str = "AT+CLVL=";
/// Sets the microphone gain (0-15).
pub const AT_MICROPHONE_GAIN: &'static str = "AT+CMIC=";
/// Routes audio to the handset.
pub const AT_AUDIO_PATH_HANDSET: &'static str = "AT+CHFA=0";
/// Routes audio to the headset.
pub const AT_AUDIO_PATH_HEADSET: &'static str = "AT+CHFA=1";
/// Routes audio to the loudspeaker.
pub const AT_AUDIO_PATH_SPEAKER: &'static str = "AT+CHFA=2";
/// Speaks a text.
pub const AT_TTS_PLAY: &'static str = "AT+CTTS=";
/// Stops speaking.
pub const AT_TTS_STOP: &'static str = "AT+CTTS=0";
/// Sets the text-to-speech volume.
pub const AT_TTS_VOLUME: &'static str = "AT+CTTSV=";
/// Sets the ring volume.
pub const AT_RING_VOLUME: &'static str = "AT+CRSL=";
/// Sets the ring tone.
pub const AT_RING_TONE: &'static str = "AT+CRTONE=";
/// Starts recording audio.
pub const AT_AUDIO_RECORD: &'static str = "AT+AREC=";
/// Plays an audio file.
pub const AT_AUDIO_PLAY: &'static str = "AT+APLAY=";
/// Stops audio.
pub const AT_AUDIO_STOP: &'static str = "AT+ASTOP";

} // verus!
