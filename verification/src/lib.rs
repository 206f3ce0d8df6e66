//! Verified core of an audio stem-separation suite: the integer and
//! structural logic around chunked neural separation of stereo audio.

pub mod shift;
pub mod window;
pub mod audio;
pub mod chunks;
pub mod config;
pub mod model;
pub mod decode;
pub mod files;
