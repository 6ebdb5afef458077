//! Streaming video encode pipeline and timestamp-ordered multiplexer.
//!
//! The native codec and container are external services: the pipeline and
//! the multiplexer are state machines that decide what to ask of them next
//! and what to do with their answers.

mod codec_name;
mod error;
mod format;
mod frame;
mod log_level;
mod muxer;
mod output;
mod packet;
mod pipeline;
mod queue;
mod presets;
mod rational;
mod video_config;
mod video_context_builder;

pub use codec_name::{Id, Name};
pub use error::{AVERROR_EAGAIN, AVERROR_EOF, EAGAIN, Error, averror, fferrtag};
pub use format::Format;
pub use frame::{Frame, FrameData, expected_len};
pub use log_level::Level;
pub use muxer::{MuxAction, Muxer, Slot, Stage, StreamBinding};
pub use output::output_url;
pub use packet::EncodedPacket;
pub use pipeline::{Drain, INPUT_CAPACITY, PacketIterator, Poll, Submit};
pub use presets::{Framerate, Resolution, Timebase};
pub use rational::{Rational, compare_ts, rescale_ts};
pub use video_config::{Codec, PixelFormat, VideoConfig, VideoConfigError};
pub use video_context_builder::VideoContextBuilder;

