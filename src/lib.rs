//! Input and action core of a one-button push-to-talk device: debounced
//! gestures, Morse-coded commands, the exclusive action slot, and the audio
//! buffers that recordings and playback run through.
pub mod button;
pub mod morse;
pub mod action;
pub mod audio;
pub mod status;
pub mod pins;
