//! The logic of a screen capturer, verified: which pixel formats a capture stream offers
//! and how their frames are decoded, what the callbacks of the stream decide, how a capture
//! is started and stopped, and how frames are converted to luminance and chrominance.
pub mod binary64;
pub mod control;
pub mod format;
pub mod frame;
pub mod listener;
pub mod meta;
pub mod offer;
pub mod process;
pub mod win;
pub mod yuv;
