//! Verified core of a keystroke-driven tone player.
//!
//! Key presses are classified into notes, queued on an ordered channel and
//! played back one at a time. Everything here is plain data and decisions on
//! it: the terminal, the audio device and the sine function itself are left
//! to the program built around this library.

pub mod capture;
pub mod channel;
pub mod dispatch;
pub mod mix;
pub mod note;
pub mod play;
pub mod sink;
pub mod wave;
