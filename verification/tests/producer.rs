use vid2img::{
    on_sample, CaptureFault, FlowSignal, FrameChannel, RecvOutcome, SampleOutcome, StreamError,
};

#[test]
fn missing_sample_ends_the_stream() {
    let mut channel = FrameChannel::new();
    assert_eq!(on_sample(&mut channel, SampleOutcome::Unavailable), FlowSignal::EndOfStream);
    assert_eq!(channel.try_recv(), RecvOutcome::Empty);
}

#[test]
fn faulty_sample_reports_capture_error() {
    let mut channel = FrameChannel::new();
    let sample = SampleOutcome::Faulty(CaptureFault::MissingBuffer);
    assert_eq!(on_sample(&mut channel, sample), FlowSignal::Failure);
    assert_eq!(channel.try_recv(), RecvOutcome::Item(Err(StreamError::FrameCaptureError)));
}

#[test]
fn unreadable_buffer_reports_capture_error() {
    let mut channel = FrameChannel::new();
    let sample = SampleOutcome::Faulty(CaptureFault::UnreadableBuffer);
    assert_eq!(on_sample(&mut channel, sample), FlowSignal::Failure);
    assert_eq!(channel.try_recv(), RecvOutcome::Item(Err(StreamError::FrameCaptureError)));
}

#[test]
fn capture_error_is_dropped_when_slot_is_taken() {
    let mut channel = FrameChannel::new();
    assert_eq!(on_sample(&mut channel, SampleOutcome::Bytes(vec![5, 6])), FlowSignal::Continue);
    let sample = SampleOutcome::Faulty(CaptureFault::UnreadableBuffer);
    assert_eq!(on_sample(&mut channel, sample), FlowSignal::Failure);
    assert_eq!(channel.try_recv(), RecvOutcome::Item(Ok(Some(vec![5, 6]))));
    assert_eq!(channel.try_recv(), RecvOutcome::Empty);
}

#[test]
fn frame_is_delivered_into_empty_slot() {
    let mut channel = FrameChannel::new();
    assert_eq!(on_sample(&mut channel, SampleOutcome::Bytes(vec![1, 2])), FlowSignal::Continue);
    assert_eq!(channel.try_recv(), RecvOutcome::Item(Ok(Some(vec![1, 2]))));
}

#[test]
fn frame_is_discarded_when_slot_is_taken() {
    let mut channel = FrameChannel::new();
    assert_eq!(on_sample(&mut channel, SampleOutcome::Bytes(vec![1])), FlowSignal::Continue);
    assert_eq!(on_sample(&mut channel, SampleOutcome::Bytes(vec![2])), FlowSignal::Continue);
    assert_eq!(on_sample(&mut channel, SampleOutcome::Bytes(vec![3])), FlowSignal::Continue);
    assert_eq!(channel.try_recv(), RecvOutcome::Item(Ok(Some(vec![1]))));
    assert_eq!(channel.try_recv(), RecvOutcome::Empty);
}

#[test]
fn frame_after_receiver_is_gone_ends_the_stream() {
    let mut channel = FrameChannel::new();
    channel.close_receiver();
    assert_eq!(on_sample(&mut channel, SampleOutcome::Bytes(vec![1])), FlowSignal::EndOfStream);
    assert!(!channel.has_item());
}

#[test]
fn faulty_sample_after_receiver_is_gone_still_fails() {
    let mut channel = FrameChannel::new();
    channel.close_receiver();
    let sample = SampleOutcome::Faulty(CaptureFault::MissingBuffer);
    assert_eq!(on_sample(&mut channel, sample), FlowSignal::Failure);
    assert!(!channel.has_item());
}

#[test]
fn fault_is_told_apart_from_other_samples() {
    assert_eq!(SampleOutcome::Unavailable.fault(), None);
    assert_eq!(SampleOutcome::Bytes(vec![1]).fault(), None);
    assert_eq!(
        SampleOutcome::Faulty(CaptureFault::MissingBuffer).fault(),
        Some(CaptureFault::MissingBuffer)
    );
    assert_eq!(
        SampleOutcome::Faulty(CaptureFault::UnreadableBuffer).fault(),
        Some(CaptureFault::UnreadableBuffer)
    );
}

#[test]
fn fault_descriptions() {
    assert_eq!(CaptureFault::MissingBuffer.describe(), "Failed to get buffer from appsink");
    assert_eq!(CaptureFault::UnreadableBuffer.describe(), "Failed to map buffer readable");
}
