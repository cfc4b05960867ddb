//! Sample buffers for multi-channel acquisition and generation devices.
//!
//! A [`Buffer`] owns a fixed region of interleaved sample frames, tracks
//! whether transfers are still permitted, and turns the raw status words of
//! a transport driver into results. An [`IntoIter`] walks the samples of
//! one channel through that region with a fixed stride.

pub mod error;
pub mod sample;
pub mod buffer;
pub mod iter;

pub use buffer::{Buffer, BufferView, Channel};
pub use error::{sys_result, Error, CANCELLED_CODE};
pub use iter::{IntoIter, IterView};
pub use sample::Sample;
