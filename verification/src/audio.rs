//! The rules of the audio side: which device to capture from, in which
//! format, and how samples become the bytes of the stream.

pub mod capture;
pub mod device;
pub mod playback;
