//! The notification bus between the backend and whoever presents its state.

use vstd::prelude::*;
use vstd::std_specs::cmp::PartialEqSpecImpl;

verus! {

/// The two channels of the bus.
#[derive(Clone, Copy, Debug, PartialEq, Eq, Hash, Structural)]
pub enum Channel {
    /// Fired after every successful change of the configuration store.
    ConfigChanged,
    /// Fired once for every token that a prediction infers.
    TokenProduced,
}

/// A notification travelling on the bus.
#[derive(Debug)]
pub enum Signal {
    /// The stored configurations changed; listeners fetch the list again.
    ConfigChanged,
    /// A prediction inferred a token; listeners append its text.
    TokenProduced(String),
}

/// Mathematical value of a [`Signal`].
pub enum SignalView {
    ConfigChanged,
    TokenProduced(Seq<char>),
}

impl SignalView {
    /// The channel on which a signal travels.
    pub open spec fn channel(self) -> Channel {
        match self {
            SignalView::ConfigChanged => Channel::ConfigChanged,
            SignalView::TokenProduced(_) => Channel::TokenProduced,
        }
    }
}

impl View for Signal {
    type V = SignalView;

    open spec fn view(&self) -> SignalView {
        match self {
            Signal::ConfigChanged => SignalView::ConfigChanged,
            Signal::TokenProduced(token) => SignalView::TokenProduced(token@),
        }
    }
}

impl Clone for Signal {
    fn clone(&self) -> (copy: Self)
        ensures
            copy@ == self@,
    {
        match self {
            Signal::ConfigChanged => Signal::ConfigChanged,
            Signal::TokenProduced(token) => Signal::TokenProduced(token.clone()),
        }
    }
}

impl PartialEq for Signal {
    fn eq(&self, other: &Self) -> (equal: bool) {
        match (self, other) {
            (Signal::ConfigChanged, Signal::ConfigChanged) => true,
            (Signal::TokenProduced(left), Signal::TokenProduced(right)) => *left == *right,
            _ => false,
        }
    }
}

impl PartialEqSpecImpl for Signal {
    open spec fn obeys_eq_spec() -> bool {
        true
    }

    open spec fn eq_spec(&self, other: &Self) -> bool {
        self@ == other@
    }
}

impl Signal {
    /// The channel on which this signal travels.
    pub fn channel(&self) -> (channel: Channel)
        ensures
            channel == self@.channel(),
    {
        match self {
            Signal::ConfigChanged => Channel::ConfigChanged,
            Signal::TokenProduced(_) => Channel::TokenProduced,
        }
    }
}

/// The views of a sequence of signals, in the same order.
pub open spec fn signal_views(signals: Seq<Signal>) -> Seq<SignalView> {
    signals.map_values(|signal: Signal| signal@)
}

/// One listener: the channel it listens on and the signals it has not yet
/// collected, oldest first.
#[derive(Debug)]
struct Subscription {
    channel: Channel,
    inbox: Vec<Signal>,
}

/// Mathematical value of a listener.
pub struct SubscriptionView {
    pub channel: Channel,
    pub pending: Seq<SignalView>,
}

impl SubscriptionView {
    /// A listener only ever holds signals of its own channel.
    pub open spec fn wf(self) -> bool {
        forall|k: int|
            0 <= k < self.pending.len() ==> (#[trigger] self.pending[k]).channel() == self.channel
    }

    /// What a listener holds after a signal was published: the signal comes
    /// last in its inbox if it travels on the listener's channel.
    pub open spec fn deliver(self, signal: SignalView) -> SubscriptionView {
        if self.channel == signal.channel() {
            SubscriptionView { channel: self.channel, pending: self.pending.push(signal) }
        } else {
            self
        }
    }

    /// A listener whose inbox was collected.
    pub open spec fn emptied(self) -> SubscriptionView {
        SubscriptionView { channel: self.channel, pending: Seq::empty() }
    }
}

impl View for Subscription {
    type V = SubscriptionView;

    closed spec fn view(&self) -> SubscriptionView {
        SubscriptionView { channel: self.channel, pending: signal_views(self.inbox@) }
    }
}

/// The bus: an ordered list of listeners, each with its own inbox. A listener
/// is known by its position in the list.
#[derive(Debug)]
pub struct SyncBus {
    subscriptions: Vec<Subscription>,
}

/// Mathematical value of a [`SyncBus`].
pub struct SyncBusView {
    pub listeners: Seq<SubscriptionView>,
}

impl SyncBusView {
    /// Every listener only holds signals of its own channel.
    pub open spec fn wf(self) -> bool {
        forall|k: int| 0 <= k < self.listeners.len() ==> (#[trigger] self.listeners[k]).wf()
    }

    /// The bus with one more listener, which has heard nothing yet.
    pub open spec fn subscribe(self, channel: Channel) -> SyncBusView {
        SyncBusView {
            listeners: self.listeners.push(SubscriptionView { channel, pending: Seq::empty() }),
        }
    }

    /// The bus after a signal was published: every listener of the signal's
    /// channel has it at the end of its inbox, nobody else notices anything.
    pub open spec fn publish(self, signal: SignalView) -> SyncBusView {
        SyncBusView {
            listeners: self.listeners.map_values(
                |listener: SubscriptionView| listener.deliver(signal),
            ),
        }
    }

    /// The bus after a run of signals was published one after the other.
    pub open spec fn publish_all(self, signals: Seq<SignalView>) -> SyncBusView
        decreases signals.len(),
    {
        if signals.len() == 0 {
            self
        } else {
            self.publish_all(signals.drop_last()).publish(signals.last())
        }
    }

    /// The bus after a listener collected its inbox. A number that no
    /// listener has changes nothing.
    pub open spec fn drain(self, subscriber: int) -> SyncBusView {
        if 0 <= subscriber < self.listeners.len() {
            SyncBusView {
                listeners: self.listeners.update(subscriber, self.listeners[subscriber].emptied()),
            }
        } else {
            self
        }
    }

    /// What a listener has not yet collected, oldest first. A number that no
    /// listener has holds nothing.
    pub open spec fn pending(self, subscriber: int) -> Seq<SignalView> {
        if 0 <= subscriber < self.listeners.len() {
            self.listeners[subscriber].pending
        } else {
            Seq::empty()
        }
    }
}

/// Signals reach a listener in the order in which they were published.
/// After a run of signals of one channel, a listener of that channel holds
/// what it held before, followed by the whole run in order; a listener of
/// the other channel holds what it held before.
pub proof fn lemma_publish_all_in_order(
    bus: SyncBusView,
    signals: Seq<SignalView>,
    channel: Channel,
    subscriber: int,
)
    requires
        0 <= subscriber < bus.listeners.len(),
        forall|k: int| 0 <= k < signals.len() ==> (#[trigger] signals[k]).channel() == channel,
    ensures
        bus.publish_all(signals).listeners.len() == bus.listeners.len(),
        bus.publish_all(signals).listeners[subscriber].channel
            == bus.listeners[subscriber].channel,
        bus.publish_all(signals).pending(subscriber) == if bus.listeners[subscriber].channel
            == channel {
            bus.pending(subscriber) + signals
        } else {
            bus.pending(subscriber)
        },
    decreases signals.len(),
{
    if signals.len() > 0 {
        lemma_publish_all_in_order(bus, signals.drop_last(), channel, subscriber);
    }
}

/// A signal that is published while nobody listens on its channel is lost:
/// the bus is as it was.
pub proof fn lemma_unheard_signal_is_lost(bus: SyncBusView, signal: SignalView)
    requires
        forall|k: int|
            0 <= k < bus.listeners.len() ==> (#[trigger] bus.listeners[k]).channel
                != signal.channel(),
    ensures
        bus.publish(signal) == bus,
{
    assert(bus.publish(signal).listeners =~= bus.listeners);
}

/// A listener hears nothing of what was published before it subscribed, and
/// everything of its channel that is published afterwards.
pub proof fn lemma_subscriber_hears_from_now_on(
    bus: SyncBusView,
    channel: Channel,
    signal: SignalView,
)
    ensures
        bus.subscribe(channel).pending(bus.listeners.len() as int) == Seq::<SignalView>::empty(),
        bus.subscribe(channel).publish(signal).pending(bus.listeners.len() as int) == if channel
            == signal.channel() {
            seq![signal]
        } else {
            Seq::<SignalView>::empty()
        },
{
}

/// A new listener leaves every inbox to the signals of its own channel.
pub proof fn lemma_subscribe_keeps_wf(bus: SyncBusView, channel: Channel)
    requires
        bus.wf(),
    ensures
        bus.subscribe(channel).wf(),
{
    assert forall|k: int| 0 <= k < bus.subscribe(channel).listeners.len() implies (
    #[trigger] bus.subscribe(channel).listeners[k]).wf() by {}
}

/// A published signal reaches no inbox of the other channel.
pub proof fn lemma_publish_keeps_wf(bus: SyncBusView, signal: SignalView)
    requires
        bus.wf(),
    ensures
        bus.publish(signal).wf(),
{
    assert forall|k: int| 0 <= k < bus.publish(signal).listeners.len() implies (
    #[trigger] bus.publish(signal).listeners[k]).wf() by {}
}

/// Collecting an inbox leaves every inbox to the signals of its own channel.
pub proof fn lemma_drain_keeps_wf(bus: SyncBusView, subscriber: int)
    requires
        bus.wf(),
    ensures
        bus.drain(subscriber).wf(),
{
    assert forall|k: int| 0 <= k < bus.drain(subscriber).listeners.len() implies (
    #[trigger] bus.drain(subscriber).listeners[k]).wf() by {}
}

impl View for SyncBus {
    type V = SyncBusView;

    closed spec fn view(&self) -> SyncBusView {
        SyncBusView {
            listeners: self.subscriptions@.map_values(|subscription: Subscription| subscription@),
        }
    }
}

impl SyncBus {
    /// A bus nobody listens to yet.
    pub fn new() -> (bus: Self)
        ensures
            bus@.listeners == Seq::<SubscriptionView>::empty(),
            bus@.wf(),
    {
        let bus = SyncBus { subscriptions: Vec::new() };
        bus
    }

    /// The number of listeners, on both channels together.
    pub fn subscriber_count(&self) -> (count: usize)
        ensures
            count == self@.listeners.len(),
    {
        self.subscriptions.len()
    }

    /// Adds a listener to a channel and returns the number by which it
    /// collects its signals. It hears only what is published from now on.
    pub fn subscribe(&mut self, channel: Channel) -> (subscriber: usize)
        ensures
            subscriber == old(self)@.listeners.len(),
            final(self)@ == old(self)@.subscribe(channel),
            old(self)@.wf() ==> final(self)@.wf(),
    {
        let subscriber: usize = self.subscriptions.len();
        let subscription = Subscription { channel, inbox: Vec::new() };
        assert(subscription@.pending =~= Seq::<SignalView>::empty());
        self.subscriptions.push(subscription);
        assert(self@.listeners =~= old(self)@.subscribe(channel).listeners);
        proof {
            if old(self)@.wf() {
                lemma_subscribe_keeps_wf(old(self)@, channel);
            }
        }
        subscriber
    }

    /// Publishes a signal: it is appended to the inbox of every listener of
    /// its channel. With no such listener the signal is lost.
    pub fn publish(&mut self, signal: Signal)
        ensures
            final(self)@ == old(self)@.publish(signal@),
            old(self)@.wf() ==> final(self)@.wf(),
    {
        let channel = signal.channel();
        let mut index: usize = 0;
        while index < self.subscriptions.len()
            invariant
                index <= self.subscriptions.len(),
                self.subscriptions.len() == old(self).subscriptions.len(),
                channel == signal@.channel(),
                forall|k: int|
                    0 <= k < index ==> (#[trigger] self.subscriptions@[k])@ == old(
                        self,
                    ).subscriptions@[k]@.deliver(signal@),
                forall|k: int|
                    index <= k < self.subscriptions.len() ==> (#[trigger] self.subscriptions@[k])@
                        == old(self).subscriptions@[k]@,
            decreases self.subscriptions.len() - index,
        {
            if self.subscriptions[index].channel == channel {
                let copy = signal.clone();
                let ghost before = self.subscriptions@[index as int].inbox@;
                self.subscriptions[index].inbox.push(copy);
                assert(signal_views(self.subscriptions@[index as int].inbox@) =~= signal_views(
                    before,
                ).push(signal@));
            }
            index += 1;
        }
        assert(self@.listeners =~= old(self)@.publish(signal@).listeners);
        proof {
            if old(self)@.wf() {
                lemma_publish_keeps_wf(old(self)@, signal@);
            }
        }
    }

    /// Tells every listener of the configuration channel that the stored
    /// configurations changed.
    pub fn notify_config_changed(&mut self)
        ensures
            final(self)@ == old(self)@.publish(SignalView::ConfigChanged),
            old(self)@.wf() ==> final(self)@.wf(),
    {
        self.publish(Signal::ConfigChanged)
    }

    /// Hands the text of an inferred token to every listener of the token
    /// channel.
    pub fn emit_token(&mut self, token: &str)
        ensures
            final(self)@ == old(self)@.publish(SignalView::TokenProduced(token@)),
            old(self)@.wf() ==> final(self)@.wf(),
    {
        self.publish(Signal::TokenProduced(token.to_owned()))
    }

    /// The number of signals that a listener has not yet collected.
    pub fn pending_count(&self, subscriber: usize) -> (count: usize)
        ensures
            count == self@.pending(subscriber as int).len(),
    {
        if subscriber < self.subscriptions.len() {
            self.subscriptions[subscriber].inbox.len()
        } else {
            0
        }
    }

    /// Hands a listener everything it has not yet collected, oldest first, and
    /// empties its inbox. A number that no listener has yields nothing.
    pub fn drain(&mut self, subscriber: usize) -> (signals: Vec<Signal>)
        ensures
            signal_views(signals@) == old(self)@.pending(subscriber as int),
            final(self)@ == old(self)@.drain(subscriber as int),
            old(self)@.wf() ==> final(self)@.wf(),
    {
        let mut signals: Vec<Signal> = Vec::new();
        if subscriber < self.subscriptions.len() {
            std::mem::swap(&mut signals, &mut self.subscriptions[subscriber].inbox);
            assert(signal_views(self.subscriptions@[subscriber as int].inbox@) =~= Seq::<
                SignalView,
            >::empty());
            assert(self@.listeners =~= old(self)@.drain(subscriber as int).listeners);
            proof {
                if old(self)@.wf() {
                    lemma_drain_keeps_wf(old(self)@, subscriber as int);
                }
            }
        }
        signals
    }
}

} // verus!
