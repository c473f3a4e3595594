//! The rule by which the producer callback reacts to one sample.
use vstd::prelude::*;
use crate::channel::{ChannelState, FrameChannel, SendOutcome};
use crate::frame::{FrameData, StreamError, StreamItem};

verus! {

/// Why a sample that the engine announced could not be turned into a frame.
#[derive(Debug, Clone, Copy, PartialEq, Eq)]
pub enum CaptureFault {
    /// The sample carried no buffer.
    MissingBuffer,
    /// The buffer could not be mapped for reading.
    UnreadableBuffer,
}

/// What the callback found when it asked the sink for the sample.
#[derive(Debug, Clone, PartialEq, Eq)]
pub enum SampleOutcome {
    /// The sink had no sample to give: the normal sign that work is over.
    Unavailable,
    /// A sample was there, but its bytes could not be read.
    Faulty(CaptureFault),
    /// The bytes of the sample, copied out of the engine's buffer.
    Bytes(FrameData),
}

/// The callback's answer to the engine.
#[derive(Debug, Clone, Copy, PartialEq, Eq)]
pub enum FlowSignal {
    /// Keep producing.
    Continue,
    /// Stop producing: there is no more work.
    EndOfStream,
    /// Stop producing: the sample could not be handled.
    Failure,
}

impl CaptureFault {
    /// The text posted on the engine's bus for this fault.
    pub fn describe(&self) -> (text: &'static str)
        ensures
            text@ == self.description(),
    {
        match self {
            CaptureFault::MissingBuffer => "Failed to get buffer from appsink",
            CaptureFault::UnreadableBuffer => "Failed to map buffer readable",
        }
    }

    /// The text of [`CaptureFault::describe`].
    pub open spec fn description(&self) -> Seq<char> {
        match self {
            CaptureFault::MissingBuffer => "Failed to get buffer from appsink"@,
            CaptureFault::UnreadableBuffer => "Failed to map buffer readable"@,
        }
    }
}

impl SampleOutcome {
    /// The fault to post on the engine's bus before the sample is handled, if
    /// the sample was faulty.
    pub fn fault(&self) -> (fault: Option<CaptureFault>)
        ensures
            fault == (match *self {
                SampleOutcome::Faulty(f) => Some(f),
                _ => None,
            }),
    {
        match self {
            SampleOutcome::Faulty(f) => Some(*f),
            _ => None,
        }
    }

    /// The item that the callback offers to the channel for this sample, if any.
    pub open spec fn offered(self) -> Option<StreamItem> {
        match self {
            SampleOutcome::Unavailable => None,
            SampleOutcome::Faulty(_) => Some(Err(StreamError::FrameCaptureError)),
            SampleOutcome::Bytes(bytes) => Some(Ok(Some(bytes))),
        }
    }

    /// The answer that the callback gives the engine for this sample, when the
    /// channel is in state `channel` as the sample arrives.
    pub open spec fn signal(self, channel: ChannelState) -> FlowSignal {
        match self {
            SampleOutcome::Unavailable => FlowSignal::EndOfStream,
            SampleOutcome::Faulty(_) => FlowSignal::Failure,
            SampleOutcome::Bytes(_) => if channel.receiver_alive {
                FlowSignal::Continue
            } else {
                FlowSignal::EndOfStream
            },
        }
    }

    /// The state of the channel after the callback has handled this sample.
    pub open spec fn channel_after(self, channel: ChannelState) -> ChannelState {
        match self.offered() {
            Some(item) => channel.after_send(item),
            None => channel,
        }
    }
}

/// Handles one sample on behalf of the producer callback.
///
/// No sample: nothing is sent and the engine is told that the stream is over.
/// A faulty sample: a capture error is offered to the channel, and dropped
/// there if the slot is taken or the receiver is gone; the engine is told to
/// halt. Bytes: the frame is offered; delivered or discarded because the slot
/// is taken, the engine goes on; with the receiver gone it is told that the
/// stream is over. The producer is never made to wait.
pub fn on_sample(channel: &mut FrameChannel, sample: SampleOutcome) -> (signal: FlowSignal)
    ensures
        signal == sample.signal(old(channel)@),
        final(channel)@ == sample.channel_after(old(channel)@),
{
    match sample {
        SampleOutcome::Unavailable => FlowSignal::EndOfStream,
        SampleOutcome::Faulty(_) => {
            let _ = channel.try_send(Err(StreamError::FrameCaptureError));
            FlowSignal::Failure
        },
        SampleOutcome::Bytes(bytes) => {
            match channel.try_send(Ok(Some(bytes))) {
                SendOutcome::Delivered => FlowSignal::Continue,
                SendOutcome::Full => FlowSignal::Continue,
                SendOutcome::Disconnected => FlowSignal::EndOfStream,
            }
        },
    }
}

/// Whatever the samples, the callback never leaves more than one item in the
/// channel, and never replaces one that is waiting.
pub proof fn lemma_producer_keeps_waiting_item(channel: ChannelState, sample: SampleOutcome)
    ensures
        sample.channel_after(channel).buffered_count() <= 1,
        channel.buffered.is_some() ==> sample.channel_after(channel) == channel,
        sample.channel_after(channel).sender_alive == channel.sender_alive,
        sample.channel_after(channel).receiver_alive == channel.receiver_alive,
{
}

/// With the receiver gone, a frame makes the callback tell the engine to stop.
pub proof fn lemma_producer_stops_without_receiver(channel: ChannelState, bytes: FrameData)
    requires
        !channel.receiver_alive,
    ensures
        SampleOutcome::Bytes(bytes).signal(channel) == FlowSignal::EndOfStream,
        SampleOutcome::Bytes(bytes).channel_after(channel) == channel,
{
}

} // verus!
