//! Core of a terminal music player: the sample queue and analysis window
//! that connect the decoder to the spectrum view, the integer side of PCM
//! normalisation and playback timing, the layout of the spectrum view, the
//! decode loop's decisions, the music library and its cursor, the cassette
//! animation and the display settings with their colour themes.

pub mod queue;
pub mod window;
pub mod pcm;
pub mod spectrum;
pub mod decode;
pub mod cassette;
pub mod theme;
pub mod text;
pub mod library;
