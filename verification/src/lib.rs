//! Treats a video source as a sequence of still-image frames.
//!
//! The decoding engine pushes encoded frames from a context of its own; the
//! caller pulls them one at a time. This crate holds everything that is decided
//! between the two: the single-slot channel that carries at most one frame, the
//! rule by which the producer reacts to each sample, the order in which a pull
//! merges the channel with the engine's control bus, the texts of the graph
//! descriptions, and the lifecycle that stops the graph exactly once.
//!
//! The engine itself is driven by the embedding program, which hands this crate
//! plain values (bytes, strings, flags) and performs the actions it returns.
pub mod frame;
pub mod channel;
pub mod producer;
pub mod video_stream;
pub mod file;

pub use crate::channel::{ChannelState, FrameChannel, RecvOutcome, SendOutcome};
pub use crate::frame::{ErrorText, FrameData, GstErrorMessage, StreamError, StreamItem};
pub use crate::producer::{on_sample, CaptureFault, FlowSignal, SampleOutcome};
pub use crate::video_stream::{
    BusMessage, IteratorState, PullInput, PullStep, StartFailure, VideoStream,
    VideoStreamIterator,
};
pub use crate::file::{CaptureError, FileSource, IoFailure, IoFailureKind, SourceView};
