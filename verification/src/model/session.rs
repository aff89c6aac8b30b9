//! One streaming prediction: the events that the inference engine reports
//! while it generates, and what the session makes of each.

use crate::error::{Error, ErrorView};
use crate::sync::{Channel, SignalView, SyncBus, SyncBusView};
use vstd::prelude::*;
use vstd::std_specs::cmp::PartialEqSpecImpl;
use vstd::string::*;

verus! {

/// A length of time, as whole seconds and the nanoseconds beyond them.
#[derive(Clone, Copy, Debug, PartialEq, Eq, Structural)]
pub struct TimeSpan {
    pub secs: u64,
    pub nanos: u32,
}

impl TimeSpan {
    /// The whole milliseconds in a length of time.
    pub open spec fn spec_as_millis(self) -> int {
        self.secs * 1000 + self.nanos / 1_000_000
    }

    /// No time at all.
    pub fn zero() -> (span: Self)
        ensures
            span == (TimeSpan { secs: 0, nanos: 0 }),
    {
        TimeSpan { secs: 0, nanos: 0 }
    }

    /// The whole milliseconds in this length of time; what is left of a
    /// millisecond is dropped.
    pub fn as_millis(&self) -> (millis: u128)
        ensures
            millis == self.spec_as_millis(),
    {
        let secs: u128 = self.secs as u128;
        let nanos: u128 = (self.nanos / 1_000_000) as u128;
        secs * 1000 + nanos
    }
}

/// What the inference engine measured during one completed prediction.
#[derive(Clone, Copy, Debug, PartialEq, Eq, Structural)]
pub struct InferenceStats {
    /// How long it took to feed the prompt.
    pub feed_prompt_duration: TimeSpan,
    /// How many tokens the prompt was.
    pub prompt_tokens: usize,
    /// How long it took to predict new tokens.
    pub predict_duration: TimeSpan,
    /// The number of predicted tokens.
    pub predict_tokens: usize,
}

impl InferenceStats {
    /// The statistics of a prediction that did nothing.
    pub open spec fn spec_default() -> InferenceStats {
        InferenceStats {
            feed_prompt_duration: TimeSpan { secs: 0, nanos: 0 },
            prompt_tokens: 0,
            predict_duration: TimeSpan { secs: 0, nanos: 0 },
            predict_tokens: 0,
        }
    }
}

impl Default for InferenceStats {
    fn default() -> (stats: Self)
        ensures
            stats == InferenceStats::spec_default(),
    {
        InferenceStats {
            feed_prompt_duration: TimeSpan::zero(),
            prompt_tokens: 0,
            predict_duration: TimeSpan::zero(),
            predict_tokens: 0,
        }
    }
}

/// What the inference engine reports to a session while it generates.
#[derive(Debug)]
pub enum InferenceResponse {
    /// A token replayed from an earlier snapshot of the engine's state.
    SnapshotToken(String),
    /// A token of the prompt, echoed back.
    PromptToken(String),
    /// A newly inferred token.
    InferredToken(String),
    /// The end of the text: nothing follows.
    EotToken,
}

/// Mathematical value of an [`InferenceResponse`].
pub enum InferenceResponseView {
    SnapshotToken(Seq<char>),
    PromptToken(Seq<char>),
    InferredToken(Seq<char>),
    EotToken,
}

impl View for InferenceResponse {
    type V = InferenceResponseView;

    open spec fn view(&self) -> InferenceResponseView {
        match self {
            InferenceResponse::SnapshotToken(token) => InferenceResponseView::SnapshotToken(token@),
            InferenceResponse::PromptToken(token) => InferenceResponseView::PromptToken(token@),
            InferenceResponse::InferredToken(token) => InferenceResponseView::InferredToken(token@),
            InferenceResponse::EotToken => InferenceResponseView::EotToken,
        }
    }
}

impl Clone for InferenceResponse {
    fn clone(&self) -> (copy: Self)
        ensures
            copy@ == self@,
    {
        match self {
            InferenceResponse::SnapshotToken(token) => InferenceResponse::SnapshotToken(
                token.clone(),
            ),
            InferenceResponse::PromptToken(token) => InferenceResponse::PromptToken(token.clone()),
            InferenceResponse::InferredToken(token) => InferenceResponse::InferredToken(
                token.clone(),
            ),
            InferenceResponse::EotToken => InferenceResponse::EotToken,
        }
    }
}

impl PartialEq for InferenceResponse {
    fn eq(&self, other: &Self) -> (equal: bool) {
        match (self, other) {
            (InferenceResponse::SnapshotToken(left), InferenceResponse::SnapshotToken(right)) => *left
                == *right,
            (InferenceResponse::PromptToken(left), InferenceResponse::PromptToken(right)) => *left
                == *right,
            (InferenceResponse::InferredToken(left), InferenceResponse::InferredToken(right)) => *left
                == *right,
            (InferenceResponse::EotToken, InferenceResponse::EotToken) => true,
            _ => false,
        }
    }
}

impl PartialEqSpecImpl for InferenceResponse {
    open spec fn obeys_eq_spec() -> bool {
        true
    }

    open spec fn eq_spec(&self, other: &Self) -> bool {
        self@ == other@
    }
}

/// What a session answers to the inference engine after each event.
#[derive(Clone, Copy, Debug, PartialEq, Eq, Structural)]
pub enum InferenceFeedback {
    /// Go on generating.
    Continue,
    /// Stop generating.
    Halt,
}

/// How far a session has come.
#[derive(Clone, Copy, Debug, PartialEq, Eq, Structural)]
pub enum SessionStatus {
    /// Tokens are still expected.
    Streaming,
    /// The engine reported the end of the text.
    Completed,
    /// The listener asked the session to stop before the end of the text.
    Cancelled,
}

/// One prediction, from the prompt to the end of the text, a cancellation or a
/// failure. It gathers the inferred tokens into the response and hands each
/// one to the bus as it arrives.
#[derive(Debug)]
pub struct StreamingInferenceSession {
    prompt: String,
    response: String,
    status: SessionStatus,
}

/// Mathematical value of a [`StreamingInferenceSession`].
pub struct SessionView {
    pub prompt: Seq<char>,
    pub response: Seq<char>,
    pub status: SessionStatus,
}

impl SessionView {
    /// A session that has seen no event yet.
    pub open spec fn fresh(prompt: Seq<char>) -> SessionView {
        SessionView { prompt, response: Seq::empty(), status: SessionStatus::Streaming }
    }

    /// The text that an event adds to the response and sends over the bus:
    /// that of an inferred token, while the session streams and was not asked
    /// to stop.
    pub open spec fn emits(self, event: InferenceResponseView, cancel: bool) -> Option<Seq<char>> {
        match event {
            InferenceResponseView::InferredToken(token) if self.status
                == SessionStatus::Streaming && !cancel => Some(token),
            _ => None,
        }
    }

    /// The session after an event. A session that no longer streams ignores
    /// it. A request to stop wins over the event. Otherwise an inferred
    /// token is appended to the response, the end of the text completes the
    /// session, and every other event leaves it as it is.
    pub open spec fn step(self, event: InferenceResponseView, cancel: bool) -> SessionView {
        if self.status != SessionStatus::Streaming {
            self
        } else if cancel {
            SessionView { status: SessionStatus::Cancelled, ..self }
        } else {
            match event {
                InferenceResponseView::InferredToken(token) => SessionView {
                    response: self.response + token,
                    ..self
                },
                InferenceResponseView::EotToken => SessionView {
                    status: SessionStatus::Completed,
                    ..self
                },
                _ => self,
            }
        }
    }

    /// What the engine is told after an event: to go on exactly while the
    /// session still streams afterwards.
    pub open spec fn feedback(self, event: InferenceResponseView, cancel: bool) -> InferenceFeedback {
        if self.step(event, cancel).status == SessionStatus::Streaming {
            InferenceFeedback::Continue
        } else {
            InferenceFeedback::Halt
        }
    }

    /// The bus after an event: the emitted token, if there is one, was
    /// published on it.
    pub open spec fn step_bus(self, bus: SyncBusView, event: InferenceResponseView, cancel: bool) -> SyncBusView {
        match self.emits(event, cancel) {
            Some(token) => bus.publish(SignalView::TokenProduced(token)),
            None => bus,
        }
    }
}

impl SessionView {
    /// The session after a run of events during which nobody asked it to
    /// stop.
    pub open spec fn run(self, events: Seq<InferenceResponseView>) -> SessionView
        decreases events.len(),
    {
        if events.len() == 0 {
            self
        } else {
            self.run(events.drop_last()).step(events.last(), false)
        }
    }

    /// The texts that the session sends over the bus during such a run, in
    /// the order in which it sends them.
    pub open spec fn emitted(self, events: Seq<InferenceResponseView>) -> Seq<Seq<char>>
        decreases events.len(),
    {
        if events.len() == 0 {
            Seq::empty()
        } else {
            let earlier = self.emitted(events.drop_last());
            match self.run(events.drop_last()).emits(events.last(), false) {
                Some(token) => earlier.push(token),
                None => earlier,
            }
        }
    }

    /// The bus after such a run.
    pub open spec fn run_bus(self, bus: SyncBusView, events: Seq<InferenceResponseView>) -> SyncBusView
        decreases events.len(),
    {
        if events.len() == 0 {
            bus
        } else {
            self.run(events.drop_last()).step_bus(
                self.run_bus(bus, events.drop_last()),
                events.last(),
                false,
            )
        }
    }
}

/// Whether the engine reported the end of the text among these events.
pub open spec fn ended(events: Seq<InferenceResponseView>) -> bool {
    exists|k: int| 0 <= k < events.len() && events[k] is EotToken
}

/// The texts of the inferred tokens that the engine reported before it
/// first reported the end of the text, in the order of the reports.
pub open spec fn inferred_before_end(events: Seq<InferenceResponseView>) -> Seq<Seq<char>>
    decreases events.len(),
{
    if events.len() == 0 {
        Seq::empty()
    } else {
        let earlier = inferred_before_end(events.drop_last());
        match events.last() {
            InferenceResponseView::InferredToken(token) if !ended(events.drop_last()) => earlier.push(
                token,
            ),
            _ => earlier,
        }
    }
}

/// The texts joined into one, in order.
pub open spec fn joined(texts: Seq<Seq<char>>) -> Seq<char>
    decreases texts.len(),
{
    if texts.len() == 0 {
        Seq::empty()
    } else {
        joined(texts.drop_last()) + texts.last()
    }
}

/// The signals that carry the given token texts, in the same order.
pub open spec fn token_signals(texts: Seq<Seq<char>>) -> Seq<SignalView> {
    texts.map_values(|token: Seq<char>| SignalView::TokenProduced(token))
}

/// A session that streams before a run of events still streams after it
/// exactly if the end of the text was not among them.
pub proof fn lemma_streams_until_end(session: SessionView, events: Seq<InferenceResponseView>)
    requires
        session.status == SessionStatus::Streaming,
    ensures
        session.run(events).status == SessionStatus::Streaming <==> !ended(events),
        session.run(events).status == SessionStatus::Streaming || session.run(events).status
            == SessionStatus::Completed,
        session.run(events).prompt == session.prompt,
    decreases events.len(),
{
    if events.len() > 0 {
        let earlier = events.drop_last();
        lemma_streams_until_end(session, earlier);
        if ended(earlier) {
            let k: int = choose|k: int| 0 <= k < earlier.len() && earlier[k] is EotToken;
            assert(events[k] is EotToken);
        } else if events.last() is EotToken {
            assert(events[events.len() - 1] is EotToken);
        } else {
            assert forall|k: int| 0 <= k < events.len() implies !(events[k] is EotToken) by {
                if k < earlier.len() {
                    assert(earlier[k] == events[k]);
                }
            }
        }
    }
}

/// The tokens that a streaming session sends over the bus are the inferred
/// tokens that the engine reported before the end of the text, each one
/// once and in the order of the reports.
pub proof fn lemma_tokens_in_order(session: SessionView, events: Seq<InferenceResponseView>)
    requires
        session.status == SessionStatus::Streaming,
    ensures
        session.emitted(events) == inferred_before_end(events),
    decreases events.len(),
{
    if events.len() > 0 {
        lemma_tokens_in_order(session, events.drop_last());
        lemma_streams_until_end(session, events.drop_last());
    }
}

/// The response that a session has gathered after a run of events is what
/// it had before, followed by the tokens it sent over the bus, joined in
/// the order in which it sent them.
pub proof fn lemma_response_is_joined_tokens(
    session: SessionView,
    events: Seq<InferenceResponseView>,
)
    ensures
        session.run(events).response == session.response + joined(session.emitted(events)),
    decreases events.len(),
{
    if events.len() > 0 {
        let earlier = events.drop_last();
        lemma_response_is_joined_tokens(session, earlier);
        match session.run(earlier).emits(events.last(), false) {
            Some(token) => {
                let sent = session.emitted(earlier);
                assert(sent.push(token).drop_last() =~= sent);
            },
            None => {},
        }
    }
}

/// What a run of events does to the bus is to publish the tokens that the
/// session sends, one after the other.
pub proof fn lemma_bus_gets_emitted_tokens(
    session: SessionView,
    bus: SyncBusView,
    events: Seq<InferenceResponseView>,
)
    ensures
        session.run_bus(bus, events) == bus.publish_all(token_signals(session.emitted(events))),
    decreases events.len(),
{
    if events.len() > 0 {
        let earlier = events.drop_last();
        lemma_bus_gets_emitted_tokens(session, bus, earlier);
        match session.run(earlier).emits(events.last(), false) {
            Some(token) => {
                let sent = session.emitted(earlier);
                assert(token_signals(sent.push(token)).drop_last() =~= token_signals(sent));
            },
            None => {},
        }
    }
}

/// During one prediction, a listener of the token channel receives the
/// inferred tokens in the exact order in which the engine produced them,
/// after whatever it held before, and their texts joined in that order are
/// the response that the session reports at its end. A listener of the
/// other channel receives nothing.
pub proof fn lemma_stream_delivery(
    prompt: Seq<char>,
    bus: SyncBusView,
    events: Seq<InferenceResponseView>,
    subscriber: int,
)
    requires
        0 <= subscriber < bus.listeners.len(),
    ensures
        ({
            let session = SessionView::fresh(prompt);
            let tokens = inferred_before_end(events);
            let after = session.run_bus(bus, events);
            &&& session.run(events).response == joined(tokens)
            &&& after.pending(subscriber) == if bus.listeners[subscriber].channel
                == Channel::TokenProduced {
                bus.pending(subscriber) + token_signals(tokens)
            } else {
                bus.pending(subscriber)
            }
        }),
{
    let session = SessionView::fresh(prompt);
    let tokens = inferred_before_end(events);
    lemma_tokens_in_order(session, events);
    lemma_response_is_joined_tokens(session, events);
    lemma_bus_gets_emitted_tokens(session, bus, events);
    crate::sync::lemma_publish_all_in_order(
        bus,
        token_signals(tokens),
        Channel::TokenProduced,
        subscriber,
    );
}

/// A request to stop ends the stream at the next event: the session is
/// cancelled, the engine is told to halt, nothing is added to the response
/// and nothing is sent over the bus. Until such a request arrives,
/// nothing is different.
pub proof fn lemma_cancel_halts(session: SessionView, bus: SyncBusView, event: InferenceResponseView)
    requires
        session.status == SessionStatus::Streaming,
    ensures
        session.step(event, true).status == SessionStatus::Cancelled,
        session.step(event, true).response == session.response,
        session.feedback(event, true) == InferenceFeedback::Halt,
        session.step_bus(bus, event, true) == bus,
{
}

/// What a session has sent after some of the events stays what it sent
/// first, whatever follows: later events only add at the end.
pub proof fn lemma_earlier_tokens_stay(
    session: SessionView,
    events: Seq<InferenceResponseView>,
    count: int,
)
    requires
        0 <= count <= events.len(),
    ensures
        session.emitted(events.take(count)).is_prefix_of(session.emitted(events)),
    decreases events.len() - count,
{
    if count == events.len() {
        assert(events.take(count) =~= events);
    } else {
        lemma_earlier_tokens_stay(session, events, count + 1);
        assert(events.take(count + 1).drop_last() =~= events.take(count));
    }
}

/// A stream that is stopped when the event at `at` arrives ends there: the
/// session is cancelled, and its response is made of exactly the tokens
/// that were inferred before, in their order. These are the tokens that the
/// stream would have begun with, had nobody stopped it; the result is
/// marked as partial.
pub proof fn lemma_cancelled_stream(
    prompt: Seq<char>,
    events: Seq<InferenceResponseView>,
    at: int,
    stats: InferenceStats,
)
    requires
        0 <= at < events.len(),
        !ended(events.take(at)),
    ensures
        ({
            let session = SessionView::fresh(prompt);
            let stopped = session.run(events.take(at)).step(events[at], true);
            let tokens = inferred_before_end(events.take(at));
            &&& stopped.status == SessionStatus::Cancelled
            &&& stopped.response == joined(tokens)
            &&& tokens.is_prefix_of(inferred_before_end(events))
            &&& stopped.finish(Ok(stats)) == Ok::<CompletionView, ErrorView>(
                CompletionView { response: joined(tokens), stats, partial: true },
            )
        }),
{
    let session = SessionView::fresh(prompt);
    let earlier = events.take(at);
    lemma_streams_until_end(session, earlier);
    lemma_tokens_in_order(session, earlier);
    lemma_tokens_in_order(session, events);
    lemma_response_is_joined_tokens(session, earlier);
    lemma_earlier_tokens_stay(session, events, at);
}

/// A session that has halted stays as it is: every further event is answered
/// with `Halt`, adds nothing to the response and sends nothing.
pub proof fn lemma_halted_stays_halted(
    session: SessionView,
    bus: SyncBusView,
    event: InferenceResponseView,
    cancel: bool,
)
    requires
        session.status != SessionStatus::Streaming,
    ensures
        session.step(event, cancel) == session,
        session.feedback(event, cancel) == InferenceFeedback::Halt,
        session.step_bus(bus, event, cancel) == bus,
{
}

impl View for StreamingInferenceSession {
    type V = SessionView;

    closed spec fn view(&self) -> SessionView {
        SessionView { prompt: self.prompt@, response: self.response@, status: self.status }
    }
}

/// How a prediction ended, when the engine did not fail.
#[derive(Debug)]
pub struct Completion {
    /// The inferred tokens, joined in the order in which they arrived.
    pub response: String,
    /// What the engine measured.
    pub stats: InferenceStats,
    /// Whether the listener stopped the prediction before the end of the text.
    pub partial: bool,
}

/// Mathematical value of a [`Completion`].
pub struct CompletionView {
    pub response: Seq<char>,
    pub stats: InferenceStats,
    pub partial: bool,
}

impl View for Completion {
    type V = CompletionView;

    open spec fn view(&self) -> CompletionView {
        CompletionView { response: self.response@, stats: self.stats, partial: self.partial }
    }
}

impl Clone for Completion {
    fn clone(&self) -> (copy: Self)
        ensures
            copy@ == self@,
    {
        Completion { response: self.response.clone(), stats: self.stats, partial: self.partial }
    }
}

impl PartialEq for Completion {
    fn eq(&self, other: &Self) -> (equal: bool) {
        self.response == other.response && self.stats == other.stats && self.partial
            == other.partial
    }
}

impl PartialEqSpecImpl for Completion {
    open spec fn obeys_eq_spec() -> bool {
        true
    }

    open spec fn eq_spec(&self, other: &Self) -> bool {
        self@ == other@
    }
}

impl SessionView {
    /// How a session ends for a given report of the engine: with the gathered
    /// response and the engine's statistics, or with the engine's failure.
    pub open spec fn finish(self, outcome: Result<InferenceStats, Seq<char>>) -> Result<
        CompletionView,
        ErrorView,
    > {
        match outcome {
            Ok(stats) => Ok(
                CompletionView {
                    response: self.response,
                    stats,
                    partial: self.status == SessionStatus::Cancelled,
                },
            ),
            Err(reason) => Err(ErrorView::InferenceFailure(reason)),
        }
    }
}

/// The plain value of an engine's report on a prediction.
pub open spec fn outcome_view(outcome: Result<InferenceStats, String>) -> Result<
    InferenceStats,
    Seq<char>,
> {
    match outcome {
        Ok(stats) => Ok(stats),
        Err(reason) => Err(reason@),
    }
}

/// The plain value of the end of a prediction.
pub open spec fn completion_view(ended: Result<Completion, Error>) -> Result<
    CompletionView,
    ErrorView,
> {
    match ended {
        Ok(completion) => Ok(completion@),
        Err(error) => Err(error@),
    }
}

impl StreamingInferenceSession {
    /// Starts a session for a prompt.
    pub fn new(prompt: &str) -> (session: Self)
        ensures
            session@ == SessionView::fresh(prompt@),
    {
        StreamingInferenceSession {
            prompt: prompt.to_owned(),
            response: String::new(),
            status: SessionStatus::Streaming,
        }
    }

    /// The prompt that the session was started for.
    pub fn prompt(&self) -> (prompt: &str)
        ensures
            prompt@ == self@.prompt,
    {
        self.prompt.as_str()
    }

    /// The inferred tokens gathered so far, joined in order.
    pub fn response(&self) -> (response: &str)
        ensures
            response@ == self@.response,
    {
        self.response.as_str()
    }

    /// How far the session has come.
    pub fn status(&self) -> (status: SessionStatus)
        ensures
            status == self@.status,
    {
        self.status
    }

    /// Takes one event from the inference engine and answers whether the
    /// engine should go on. `cancel` is the listener's request to stop, as it
    /// stands when the event arrives.
    pub fn on_response(&mut self, response: InferenceResponse, cancel: bool, bus: &mut SyncBus) -> (feedback: InferenceFeedback)
        ensures
            final(self)@ == old(self)@.step(response@, cancel),
            feedback == old(self)@.feedback(response@, cancel),
            final(bus)@ == old(self)@.step_bus(old(bus)@, response@, cancel),
            old(bus)@.wf() ==> final(bus)@.wf(),
    {
        if self.status != SessionStatus::Streaming {
            return InferenceFeedback::Halt;
        }
        if cancel {
            self.status = SessionStatus::Cancelled;
            return InferenceFeedback::Halt;
        }
        match response {
            InferenceResponse::InferredToken(token) => {
                self.response.append(token.as_str());
                bus.emit_token(token.as_str());
                InferenceFeedback::Continue
            },
            InferenceResponse::EotToken => {
                self.status = SessionStatus::Completed;
                InferenceFeedback::Halt
            },
            InferenceResponse::PromptToken(_) => InferenceFeedback::Continue,
            InferenceResponse::SnapshotToken(_) => InferenceFeedback::Continue,
        }
    }

    /// Ends the session with the engine's report. Tokens that were already
    /// sent over the bus stay sent, whatever the report says.
    pub fn finish(self, outcome: Result<InferenceStats, String>) -> (ended: Result<Completion, Error>)
        ensures
            completion_view(ended) == self@.finish(outcome_view(outcome)),
    {
        match outcome {
            Ok(stats) => Ok(
                Completion {
                    response: self.response,
                    stats,
                    partial: self.status == SessionStatus::Cancelled,
                },
            ),
            Err(reason) => Err(Error::InferenceFailure(reason)),
        }
    }
}

} // verus!
