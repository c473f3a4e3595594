//! The pipeline session and the pull side of a running stream.
//!
//! A [`VideoStream`] owns a graph description. Once the embedding program has
//! brought the graph up, [`VideoStream::start`] turns the session into a
//! [`VideoStreamIterator`], which decides what every pull returns and when the
//! graph has to be stopped.
//!
//! A pull looks at the channel first and takes a message off the engine's bus
//! only when the channel had nothing. [`VideoStreamIterator::next`] does both,
//! given a way to poll the bus. The two steps are also there on their own:
//! [`VideoStreamIterator::begin_pull`] settles the pull from the channel or
//! asks for the bus, and [`VideoStreamIterator::finish_pull`] settles it from
//! what the bus gave.
use vstd::prelude::*;
use vstd::string::*;
use crate::channel::{ChannelState, FrameChannel, RecvOutcome};
use crate::frame::{ErrorText, FrameData, GstErrorMessage, StreamError, StreamItem};
use crate::producer::{FlowSignal, SampleOutcome};

verus! {

/// One message taken off the engine's control bus.
#[derive(Debug, Clone, PartialEq, Eq)]
pub enum BusMessage {
    /// The stream is over.
    EndOfStream,
    /// An element reported an error.
    Error {
        /// Path of the element that posted the message, where it is known.
        src: Option<String>,
        /// The human-readable error text.
        error: String,
        /// Diagnostic detail, where the engine gave any.
        debug: Option<String>,
    },
    /// Any other message.
    Other,
}

/// The step at which bringing the graph up failed.
#[derive(Debug, Clone, Copy, PartialEq, Eq)]
pub enum StartFailure {
    /// The engine could not build a graph from the description.
    InvalidDescription,
    /// What the engine built is not a pipeline.
    NotAPipeline,
    /// The graph holds no element with the sink's name.
    SinkNotFound,
    /// The element with the sink's name is not an application sink.
    SinkNotAppSink,
    /// The sink's output-timing synchronization could not be switched off.
    SyncNotDisabled,
    /// The graph has no control bus.
    BusMissing,
    /// The graph refused to go to the running state.
    NotStarted,
}

/// What [`VideoStreamIterator::begin_pull`] decided.
#[derive(Debug, PartialEq, Eq)]
pub enum PullStep {
    /// The pull is settled: this is what it returns.
    Settled(Option<StreamItem>),
    /// The channel had nothing: take one message off the bus, if one is
    /// pending, and hand it to [`VideoStreamIterator::finish_pull`].
    PollBus,
}

/// What one pull finds outside the iterator: the channel as the pull begins,
/// and the message that the bus gives if it is polled.
pub struct PullInput {
    pub channel: ChannelState,
    pub message: Option<BusMessage>,
}

/// The mathematical state of a [`VideoStreamIterator`].
pub struct IteratorState {
    /// The graph description that the session was created with.
    pub description: Seq<char>,
    /// Whether the sequence has terminated.
    pub ended: bool,
    /// Whether the graph is in the running state.
    pub graph_running: bool,
}

/// The stage appended to every description: the encoder and the named sink.
pub open spec fn sink_stage() -> Seq<char> {
    " ! pngenc snapshot=false ! appsink name=sink"@
}

/// The error event that a pull returns for a bus error with these parts.
pub open spec fn error_event(
    src: Option<Seq<char>>,
    error: Seq<char>,
    debug: Option<Seq<char>>,
) -> ErrorText {
    ErrorText {
        src: match src {
            Some(path) => path,
            None => "None"@,
        },
        error,
        debug,
    }
}

/// The view of an optional string.
pub open spec fn text_of(s: Option<String>) -> Option<Seq<char>> {
    match s {
        Some(t) => Some(t@),
        None => None,
    }
}

impl StartFailure {
    /// The text with which the failure is reported.
    pub open spec fn message_text(self) -> Seq<char> {
        match self {
            StartFailure::InvalidDescription => "Pipeline description invalid, cannot create"@,
            StartFailure::NotAPipeline => "Expected a gst::Pipeline"@,
            StartFailure::SinkNotFound => "Sink element not found"@,
            StartFailure::SinkNotAppSink => "Sink element is expected to be an appsink!"@,
            StartFailure::SyncNotDisabled => "Failed to disable gst pipeline sync"@,
            StartFailure::BusMissing => "Pipeline without bus. Shouldn't happen!"@,
            StartFailure::NotStarted => "Cannot start pipeline"@,
        }
    }

    /// The text with which the failure is reported.
    pub fn message(&self) -> (text: &'static str)
        ensures
            text@ == self.message_text(),
    {
        match self {
            StartFailure::InvalidDescription => "Pipeline description invalid, cannot create",
            StartFailure::NotAPipeline => "Expected a gst::Pipeline",
            StartFailure::SinkNotFound => "Sink element not found",
            StartFailure::SinkNotAppSink => "Sink element is expected to be an appsink!",
            StartFailure::SyncNotDisabled => "Failed to disable gst pipeline sync",
            StartFailure::BusMissing => "Pipeline without bus. Shouldn't happen!",
            StartFailure::NotStarted => "Cannot start pipeline",
        }
    }
}

impl IteratorState {
    /// What the first step of a pull decides in this state, given the channel.
    pub open spec fn begin_step(self, channel: ChannelState) -> PullStep {
        if self.ended {
            PullStep::Settled(None)
        } else {
            match channel.recv_outcome() {
                RecvOutcome::Item(item) => PullStep::Settled(Some(item)),
                RecvOutcome::Empty => PullStep::PollBus,
                RecvOutcome::Disconnected => PullStep::Settled(None),
            }
        }
    }

    /// The state after the first step of a pull.
    pub open spec fn after_begin(self, channel: ChannelState) -> IteratorState {
        if !self.ended && channel.recv_outcome() == RecvOutcome::Disconnected {
            IteratorState { ended: true, ..self }
        } else {
            self
        }
    }

    /// The channel after the first step of a pull.
    pub open spec fn channel_after_begin(self, channel: ChannelState) -> ChannelState {
        if self.ended {
            channel
        } else {
            channel.after_recv()
        }
    }

    /// Whether the second step of a pull, given what the bus had, returns
    /// `item`.
    pub open spec fn finish_yields(
        self,
        message: Option<BusMessage>,
        item: Option<StreamItem>,
    ) -> bool {
        if self.ended {
            item.is_none()
        } else {
            match message {
                Some(BusMessage::EndOfStream) => item.is_none(),
                Some(BusMessage::Error { src, error, debug }) => match item {
                    Some(Err(StreamError::GstError(event))) => event@ == error_event(
                        text_of(src),
                        error@,
                        text_of(debug),
                    ),
                    _ => false,
                },
                _ => item == Some(Ok::<Option<Vec<u8>>, StreamError>(None)),
            }
        }
    }

    /// The state after the second step of a pull.
    pub open spec fn after_finish(self, message: Option<BusMessage>) -> IteratorState {
        if !self.ended && message == Some(BusMessage::EndOfStream) {
            IteratorState { ended: true, ..self }
        } else {
            self
        }
    }

    /// The state after teardown.
    pub open spec fn after_teardown(self) -> IteratorState {
        IteratorState { ended: true, graph_running: false, ..self }
    }

    /// What holds of every iterator from its start on: while the sequence is
    /// open the graph runs, so a stopped graph yields nothing.
    pub open spec fn well_formed(self) -> bool {
        !self.graph_running ==> self.ended
    }

    /// Whether the bus is polled by a pull in this state, given the channel.
    pub open spec fn polls_bus(self, channel: ChannelState) -> bool {
        self.begin_step(channel) == PullStep::PollBus
    }

    /// The state after one whole pull: the first step and, where that asked
    /// for the bus, the second step with `message`.
    pub open spec fn after_pull(self, input: PullInput) -> IteratorState {
        if self.polls_bus(input.channel) {
            self.after_begin(input.channel).after_finish(input.message)
        } else {
            self.after_begin(input.channel)
        }
    }

    /// Whether one whole pull returns `item`.
    pub open spec fn pull_yields(self, input: PullInput, item: Option<StreamItem>) -> bool {
        match self.begin_step(input.channel) {
            PullStep::Settled(settled) => item == settled,
            PullStep::PollBus => self.after_begin(input.channel).finish_yields(input.message, item),
        }
    }

    /// The state after a series of whole pulls.
    pub open spec fn after_pulls(self, inputs: Seq<PullInput>) -> IteratorState
        decreases inputs.len(),
    {
        if inputs.len() == 0 {
            self
        } else {
            self.after_pulls(inputs.drop_last()).after_pull(inputs.last())
        }
    }
}

/// A pipeline session: a graph description that has not been started yet.
#[derive(Debug, Clone, PartialEq, Eq)]
pub struct VideoStream {
    pipeline_description: String,
}

impl View for VideoStream {
    type V = Seq<char>;

    closed spec fn view(&self) -> Seq<char> {
        self.pipeline_description@
    }
}

impl VideoStream {
    /// Creates a session for `pipeline_description`. Nothing is allocated in
    /// the engine yet.
    pub fn new(pipeline_description: &str) -> (stream: VideoStream)
        ensures
            stream@ == pipeline_description@,
    {
        VideoStream { pipeline_description: String::from_str(pipeline_description) }
    }

    /// The description that the session was created with.
    pub fn description(&self) -> (text: &str)
        ensures
            text@ == self@,
    {
        self.pipeline_description.as_str()
    }

    /// The name under which the sink is found in the graph.
    pub fn sink_name() -> (name: &'static str)
        ensures
            name@ == "sink"@,
    {
        "sink"
    }

    /// The description from which the engine builds the graph: the session's
    /// own, followed by the encoder and the named sink.
    pub fn launch_description(&self) -> (text: String)
        ensures
            text@ == self@ + sink_stage(),
    {
        let mut text = self.pipeline_description.clone();
        text.append(" ! pngenc snapshot=false ! appsink name=sink");
        text
    }

    /// Turns the session into an iterator once the graph has been brought up.
    /// `setup` says how that went: on a failure no iterator is returned, and
    /// the failure is handed back.
    pub fn start(self, setup: Result<(), StartFailure>) -> (started: Result<
        VideoStreamIterator,
        StartFailure,
    >)
        ensures
            match setup {
                Ok(_) => started.is_ok() && started.unwrap()@.well_formed() && started.unwrap()@
                    == (IteratorState { description: self@, ended: false, graph_running: true }),
                Err(failure) => started == Err::<VideoStreamIterator, StartFailure>(failure),
            },
    {
        match setup {
            Ok(_) => Ok(
                VideoStreamIterator {
                    description: self.pipeline_description,
                    ended: false,
                    graph_running: true,
                },
            ),
            Err(failure) => Err(failure),
        }
    }
}

/// The pull side of a running stream. It owns the graph's running lifetime:
/// created when the graph starts playing, and torn down once.
#[derive(Debug)]
pub struct VideoStreamIterator {
    description: String,
    ended: bool,
    graph_running: bool,
}

impl View for VideoStreamIterator {
    type V = IteratorState;

    closed spec fn view(&self) -> IteratorState {
        IteratorState {
            description: self.description@,
            ended: self.ended,
            graph_running: self.graph_running,
        }
    }
}

impl VideoStreamIterator {
    /// The description that the session was created with.
    pub fn description(&self) -> (text: &str)
        ensures
            text@ == self@.description,
    {
        self.description.as_str()
    }

    /// Whether the sequence has terminated.
    pub fn is_ended(&self) -> (ended: bool)
        ensures
            ended == self@.ended,
    {
        self.ended
    }

    /// Whether the graph is in the running state.
    pub fn is_running(&self) -> (running: bool)
        ensures
            running == self@.graph_running,
    {
        self.graph_running
    }

    /// First step of a pull: a non-blocking look at the channel.
    ///
    /// A waiting item, frame or error, settles the pull. A channel whose
    /// sending end is gone terminates the sequence. An empty channel asks for
    /// the bus. Once the sequence has terminated the pull is settled with
    /// `None` and the channel is not touched.
    pub fn begin_pull(&mut self, channel: &mut FrameChannel) -> (step: PullStep)
        ensures
            step == old(self)@.begin_step(old(channel)@),
            final(self)@ == old(self)@.after_begin(old(channel)@),
            final(channel)@ == old(self)@.channel_after_begin(old(channel)@),
    {
        if self.ended {
            return PullStep::Settled(None);
        }
        match channel.try_recv() {
            RecvOutcome::Item(item) => PullStep::Settled(Some(item)),
            RecvOutcome::Empty => PullStep::PollBus,
            RecvOutcome::Disconnected => {
                self.ended = true;
                PullStep::Settled(None)
            },
        }
    }

    /// Second step of a pull, with the message that the bus had, if any.
    ///
    /// End of stream terminates the sequence. An error becomes an error event
    /// and leaves the sequence open. Anything else, or no message, gives "no
    /// data yet". Once the sequence has terminated the result is `None`.
    pub fn finish_pull(&mut self, message: Option<BusMessage>) -> (item: Option<StreamItem>)
        ensures
            old(self)@.finish_yields(message, item),
            final(self)@ == old(self)@.after_finish(message),
    {
        if self.ended {
            return None;
        }
        match message {
            Some(BusMessage::EndOfStream) => {
                self.ended = true;
                None
            },
            Some(BusMessage::Error { src, error, debug }) => {
                let src = match src {
                    Some(path) => path,
                    None => String::from_str("None"),
                };
                Some(Err(StreamError::GstError(GstErrorMessage { src, error, debug })))
            },
            _ => Some(Ok(None)),
        }
    }

    /// One whole pull. The channel is looked at first; `poll_bus`, which takes
    /// one pending message off the bus, is called only if the channel had
    /// nothing and the sequence is still open.
    pub fn next<F: FnOnce() -> Option<BusMessage>>(
        &mut self,
        channel: &mut FrameChannel,
        poll_bus: F,
    ) -> (item: Option<StreamItem>)
        requires
            call_requires(poll_bus, ()),
        ensures
            final(channel)@ == old(self)@.channel_after_begin(old(channel)@),
            !old(self)@.polls_bus(old(channel)@) ==> {
                &&& old(self)@.begin_step(old(channel)@) == PullStep::Settled(item)
                &&& final(self)@ == old(self)@.after_begin(old(channel)@)
            },
            old(self)@.polls_bus(old(channel)@) ==> exists|message: Option<BusMessage>|
                {
                    &&& #[trigger] call_ensures(poll_bus, (), message)
                    &&& old(self)@.finish_yields(message, item)
                    &&& final(self)@ == old(self)@.after_finish(message)
                },
    {
        match self.begin_pull(channel) {
            PullStep::Settled(item) => item,
            PullStep::PollBus => {
                let message = poll_bus();
                let ghost polled = message;
                let item = self.finish_pull(message);
                assert(call_ensures(poll_bus, (), polled));
                item
            },
        }
    }

    /// Ends the iterator's life: the sequence is terminated, the receiving end
    /// of the channel is closed, and the result says whether the graph has to
    /// be stopped now. That is so exactly on the first call.
    pub fn teardown(&mut self, channel: &mut FrameChannel) -> (stop_graph: bool)
        ensures
            stop_graph == old(self)@.graph_running,
            final(self)@ == old(self)@.after_teardown(),
            final(channel)@ == old(channel)@.after_receiver_closed(),
    {
        let stop_graph = self.graph_running;
        self.graph_running = false;
        self.ended = true;
        channel.close_receiver();
        stop_graph
    }
}

/// Once the sequence has terminated it never resumes: whatever the channel and
/// the bus hold afterwards, and however many pulls follow, every pull returns
/// `None`, leaves the channel alone and does not poll the bus.
pub proof fn lemma_terminated_never_resumes(
    state: IteratorState,
    inputs: Seq<PullInput>,
    next: PullInput,
    item: Option<StreamItem>,
)
    requires
        state.ended,
    ensures
        state.after_pulls(inputs) == state,
        !state.after_pulls(inputs).polls_bus(next.channel),
        state.after_pulls(inputs).channel_after_begin(next.channel) == next.channel,
        state.after_pulls(inputs).pull_yields(next, item) <==> item.is_none(),
    decreases inputs.len(),
{
    if inputs.len() > 0 {
        lemma_terminated_never_resumes(state, inputs.drop_last(), inputs.last(), item);
    }
}

/// An end-of-stream message on the bus, met while the channel is empty,
/// terminates the sequence: that pull returns `None`, and so does every later
/// one.
pub proof fn lemma_end_of_stream_terminates(
    state: IteratorState,
    channel: ChannelState,
    later: Seq<PullInput>,
    next: PullInput,
    item: Option<StreamItem>,
)
    requires
        !state.ended,
        channel.recv_outcome() == RecvOutcome::Empty,
    ensures
        ({
            let input = PullInput { channel, message: Some(BusMessage::EndOfStream) };
            &&& state.pull_yields(input, item) <==> item.is_none()
            &&& state.after_pull(input).ended
            &&& state.after_pull(input).after_pulls(later).pull_yields(next, item)
                <==> item.is_none()
        }),
{
    let input = PullInput { channel, message: Some(BusMessage::EndOfStream) };
    lemma_terminated_never_resumes(state.after_pull(input), later, next, item);
}

/// A sending end that is gone, with nothing left in the channel, terminates
/// the sequence without the bus being polled.
pub proof fn lemma_disconnection_terminates(state: IteratorState, input: PullInput)
    requires
        !state.ended,
        input.channel.recv_outcome() == RecvOutcome::Disconnected,
    ensures
        !state.polls_bus(input.channel),
        state.pull_yields(input, None),
        state.after_pull(input).ended,
{
}

/// An error message on the bus is returned as an error event with the
/// message's parts, and does not terminate the sequence.
pub proof fn lemma_bus_error_keeps_sequence_open(
    state: IteratorState,
    channel: ChannelState,
    src: Option<String>,
    error: String,
    debug: Option<String>,
    item: Option<StreamItem>,
)
    requires
        !state.ended,
        channel.recv_outcome() == RecvOutcome::Empty,
    ensures
        ({
            let message = Some(BusMessage::Error { src, error, debug });
            let input = PullInput { channel, message };
            &&& state.after_pull(input) == state
            &&& !state.after_pull(input).ended
            &&& state.pull_yields(input, item) ==> (match item {
                Some(Err(StreamError::GstError(event))) => event@ == error_event(
                    text_of(src),
                    error@,
                    text_of(debug),
                ),
                _ => false,
            })
        }),
{
}

/// With neither an item in the channel nor a message that matters on the bus,
/// a pull returns "no data yet" and the sequence stays open.
pub proof fn lemma_idle_pull_yields_no_data(
    state: IteratorState,
    input: PullInput,
    item: Option<StreamItem>,
)
    requires
        !state.ended,
        input.channel.recv_outcome() == RecvOutcome::Empty,
        input.message.is_none() || input.message == Some(BusMessage::Other),
    ensures
        state.pull_yields(input, item) <==> item == Some(
            Ok::<Option<FrameData>, StreamError>(None),
        ),
        state.after_pull(input) == state,
{
}

/// Data comes before control: an item that waits in the channel is what the
/// pull returns, whatever the bus holds, and the bus is not polled.
pub proof fn lemma_waiting_item_settles_pull(
    state: IteratorState,
    input: PullInput,
    waiting: StreamItem,
    item: Option<StreamItem>,
)
    requires
        !state.ended,
        input.channel.buffered == Some(waiting),
    ensures
        !state.polls_bus(input.channel),
        state.pull_yields(input, item) <==> item == Some(waiting),
        state.after_pull(input) == state,
        state.channel_after_begin(input.channel).buffered.is_none(),
{
}

/// A frame that the producer delivers into an empty channel is what the next
/// pull returns, byte for byte; samples that arrive before that pull are
/// discarded and do not replace it.
pub proof fn lemma_delivered_frame_is_pulled(
    state: IteratorState,
    channel: ChannelState,
    bytes: FrameData,
    later: SampleOutcome,
    message: Option<BusMessage>,
    item: Option<StreamItem>,
)
    requires
        !state.ended,
        channel.receiver_alive,
        channel.buffered.is_none(),
    ensures
        ({
            let sent = SampleOutcome::Bytes(bytes).channel_after(channel);
            let crowded = later.channel_after(sent);
            let frame = Some(Ok::<Option<FrameData>, StreamError>(Some(bytes)));
            &&& SampleOutcome::Bytes(bytes).signal(channel) == FlowSignal::Continue
            &&& crowded == sent
            &&& state.pull_yields(PullInput { channel: sent, message }, item) <==> item == frame
            &&& state.pull_yields(PullInput { channel: crowded, message }, item) <==> item == frame
        }),
{
}

/// The graph is stopped exactly once. Pulls never change whether the graph
/// runs, so the first teardown of a started iterator asks for the stop; every
/// later teardown asks for nothing. A frame that was waiting in the channel is
/// discarded, and the producer's next frame makes it tell the engine to stop.
pub proof fn lemma_teardown_stops_graph_once(
    state: IteratorState,
    inputs: Seq<PullInput>,
    channel: ChannelState,
    bytes: FrameData,
)
    ensures
        state.after_pulls(inputs).graph_running == state.graph_running,
        !state.after_teardown().graph_running,
        state.after_teardown().ended,
        state.after_teardown().after_teardown() == state.after_teardown(),
        channel.after_receiver_closed().buffered.is_none(),
        SampleOutcome::Bytes(bytes).signal(channel.after_receiver_closed())
            == FlowSignal::EndOfStream,
    decreases inputs.len(),
{
    if inputs.len() > 0 {
        lemma_teardown_stops_graph_once(state, inputs.drop_last(), channel, bytes);
    }
}

/// Pulls and teardown keep an iterator well formed, and once the graph is
/// stopped no pull returns an item or polls the bus.
pub proof fn lemma_stopped_graph_yields_nothing(
    state: IteratorState,
    input: PullInput,
    item: Option<StreamItem>,
)
    requires
        state.well_formed(),
    ensures
        state.after_pull(input).well_formed(),
        state.after_teardown().well_formed(),
        !state.graph_running ==> !state.polls_bus(input.channel) && (state.pull_yields(input, item)
            <==> item.is_none()),
        state.after_teardown().pull_yields(input, item) <==> item.is_none(),
{
}

/// The sink that the appended stage declares carries the name under which
/// [`VideoStream::sink_name`] looks it up.
pub proof fn lemma_sink_stage_names_the_sink()
    ensures
        sink_stage() == " ! pngenc snapshot=false ! appsink name="@ + "sink"@,
{
    reveal_strlit(" ! pngenc snapshot=false ! appsink name=sink");
    reveal_strlit(" ! pngenc snapshot=false ! appsink name=");
    reveal_strlit("sink");
    assert(sink_stage() =~= " ! pngenc snapshot=false ! appsink name="@ + "sink"@);
}

} // verus!
