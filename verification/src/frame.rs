//! The values that travel from the producer to the consumer.
use vstd::prelude::*;

verus! {

/// One encoded still image, as an owned byte sequence.
pub type FrameData = Vec<u8>;

/// What one pull hands to the caller: a frame, "no data yet" (`Ok(None)`), or
/// an error that does not end the sequence.
pub type StreamItem = Result<Option<FrameData>, StreamError>;

/// An error message taken from the engine's control bus.
#[derive(Debug, Clone, PartialEq, Eq)]
pub struct GstErrorMessage {
    /// Path of the element that posted the message, or `"None"`.
    pub src: String,
    /// The human-readable error text.
    pub error: String,
    /// Diagnostic detail, where the engine gave any.
    pub debug: Option<String>,
}

/// Errors that occur while the stream is running. Neither ends the sequence.
#[derive(Debug, Clone, PartialEq, Eq)]
pub enum StreamError {
    /// The engine reported an error on its bus.
    GstError(GstErrorMessage),
    /// A single sample could not be extracted.
    FrameCaptureError,
}

/// The text of a [`GstErrorMessage`].
pub struct ErrorText {
    pub src: Seq<char>,
    pub error: Seq<char>,
    pub debug: Option<Seq<char>>,
}

impl View for GstErrorMessage {
    type V = ErrorText;

    open spec fn view(&self) -> ErrorText {
        ErrorText {
            src: self.src@,
            error: self.error@,
            debug: match self.debug {
                Some(d) => Some(d@),
                None => None,
            },
        }
    }
}

} // verus!
