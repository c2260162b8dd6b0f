use vstd::prelude::*;

use crate::hash_text::{extrinsic_hash_text, hash_text};

verus! {

/// How many extrinsic hashes the broadcast channel between the listener and
/// the subscribers holds before a slow subscriber lags behind.
pub const EXTRINSIC_CHANNEL_CAPACITY: usize = 1000;

// ---------------------------------------------------------------------------
// The listener: transaction pool import notifications -> broadcast channel.
// ---------------------------------------------------------------------------

/// Where the listener stands in its loop over the pool's import notifications.
#[derive(PartialEq, Eq, Structural, Clone, Copy, Debug)]
pub enum ListenerState {
    /// Waiting for the next import notification.
    AwaitingNotification,
    /// Handing a hash to the broadcast channel.
    Broadcasting,
    /// The notification stream has ended.
    Finished,
}

/// What happened since the listener last acted.
#[derive(PartialEq, Eq, Clone, Copy, Debug)]
pub enum ListenerEvent {
    /// The pool imported an extrinsic with this hash.
    Notification([u8; 32]),
    /// The pool's notification stream is exhausted.
    StreamEnded,
    /// The broadcast reached this many subscribers.
    Broadcasted(usize),
    /// The broadcast failed because nobody is subscribed.
    NoSubscribers,
}

/// What the listener asks its runner to do next.
#[derive(PartialEq, Eq, Clone, Copy, Debug)]
pub enum ListenerAction {
    /// Wait for the next import notification.
    AwaitNotification,
    /// Send this hash on the broadcast channel.
    Broadcast([u8; 32]),
    /// Log that there is no active subscriber, then wait for the next notification.
    WarnNoSubscribersThenAwait,
    /// Stop listening.
    Finish,
}

impl ListenerState {
    /// The events that can follow the action this state was entered with.
    pub open spec fn expects(self, event: ListenerEvent) -> bool {
        match self {
            ListenerState::AwaitingNotification => event is Notification || event is StreamEnded,
            ListenerState::Broadcasting => event is Broadcasted || event is NoSubscribers,
            ListenerState::Finished => false,
        }
    }

    /// The transition of the listener: its next state and action.
    pub open spec fn next(self, event: ListenerEvent) -> (ListenerState, ListenerAction) {
        match event {
            ListenerEvent::Notification(hash) => (
                ListenerState::Broadcasting,
                ListenerAction::Broadcast(hash),
            ),
            ListenerEvent::StreamEnded => (ListenerState::Finished, ListenerAction::Finish),
            ListenerEvent::Broadcasted(_) => (
                ListenerState::AwaitingNotification,
                ListenerAction::AwaitNotification,
            ),
            ListenerEvent::NoSubscribers => (
                ListenerState::AwaitingNotification,
                ListenerAction::WarnNoSubscribersThenAwait,
            ),
        }
    }
}

/// The listener that forwards every extrinsic the transaction pool imports to
/// the broadcast channel of the subscription API.
pub struct ExtrinsicListener {
    state: ListenerState,
}

impl ExtrinsicListener {
    pub closed spec fn state(&self) -> ListenerState {
        self.state
    }

    /// A listener that waits for the first import notification.
    pub fn new() -> (listener: ExtrinsicListener)
        ensures
            listener.state() == ListenerState::AwaitingNotification,
    {
        ExtrinsicListener { state: ListenerState::AwaitingNotification }
    }

    /// Whether the notification stream has ended.
    pub fn is_finished(&self) -> (finished: bool)
        ensures
            finished == (self.state() == ListenerState::Finished),
    {
        match self.state {
            ListenerState::Finished => true,
            _ => false,
        }
    }

    /// Takes in what happened and says what to do next: a notification is
    /// broadcast unchanged, a failed broadcast is only logged, and the listener
    /// stops when, and only when, the notification stream ends.
    pub fn step(&mut self, event: ListenerEvent) -> (action: ListenerAction)
        requires
            old(self).state().expects(event),
        ensures
            (final(self).state(), action) == old(self).state().next(event),
    {
        match event {
            ListenerEvent::Notification(hash) => {
                self.state = ListenerState::Broadcasting;
                ListenerAction::Broadcast(hash)
            },
            ListenerEvent::StreamEnded => {
                self.state = ListenerState::Finished;
                ListenerAction::Finish
            },
            ListenerEvent::Broadcasted(_) => {
                self.state = ListenerState::AwaitingNotification;
                ListenerAction::AwaitNotification
            },
            ListenerEvent::NoSubscribers => {
                self.state = ListenerState::AwaitingNotification;
                ListenerAction::WarnNoSubscribersThenAwait
            },
        }
    }
}

// ---------------------------------------------------------------------------
// A subscription: broadcast channel -> one RPC subscriber.
// ---------------------------------------------------------------------------

/// Where one subscription stands.
#[derive(PartialEq, Eq, Structural, Clone, Copy, Debug)]
pub enum ForwarderState {
    /// The pending subscription has not been accepted yet.
    AwaitingAccept,
    /// Waiting for the next hash on the broadcast channel.
    Receiving,
    /// Sending a message to the subscriber.
    Delivering,
    /// The subscription is over.
    Finished,
}

/// What happened since the subscription last acted.
#[derive(PartialEq, Eq, Clone, Copy, Debug)]
pub enum ForwarderEvent {
    /// The pending subscription was accepted.
    Accepted,
    /// Accepting the pending subscription failed.
    Rejected,
    /// The broadcast channel handed over this hash.
    Received([u8; 32]),
    /// The subscriber fell behind by this many hashes.
    Lagged(u64),
    /// The broadcast channel is closed.
    ChannelClosed,
    /// The message reached the subscriber.
    Delivered,
    /// The subscriber is gone.
    DeliveryFailed,
}

/// What the subscription asks its runner to do next.
#[derive(PartialEq, Eq, Debug)]
pub enum ForwarderAction {
    /// Wait for the next hash on the broadcast channel.
    Receive,
    /// Send this text to the subscriber.
    Deliver(String),
    /// End the subscription.
    Finish,
}

/// The view of an action, with the text as a sequence of characters.
pub ghost enum ForwarderActionView {
    Receive,
    Deliver(Seq<char>),
    Finish,
}

impl View for ForwarderAction {
    type V = ForwarderActionView;

    open spec fn view(&self) -> ForwarderActionView {
        match self {
            ForwarderAction::Receive => ForwarderActionView::Receive,
            ForwarderAction::Deliver(text) => ForwarderActionView::Deliver(text@),
            ForwarderAction::Finish => ForwarderActionView::Finish,
        }
    }
}

impl ForwarderState {
    /// The events that can follow the action this state was entered with.
    pub open spec fn expects(self, event: ForwarderEvent) -> bool {
        match self {
            ForwarderState::AwaitingAccept => event is Accepted || event is Rejected,
            ForwarderState::Receiving => event is Received || event is Lagged
                || event is ChannelClosed,
            ForwarderState::Delivering => event is Delivered || event is DeliveryFailed,
            ForwarderState::Finished => false,
        }
    }

    /// The transition of a subscription: its next state and action.
    pub open spec fn next(self, event: ForwarderEvent) -> (ForwarderState, ForwarderActionView) {
        match event {
            ForwarderEvent::Accepted => (ForwarderState::Receiving, ForwarderActionView::Receive),
            ForwarderEvent::Received(hash) => (
                ForwarderState::Delivering,
                ForwarderActionView::Deliver(hash_text(hash@)),
            ),
            ForwarderEvent::Delivered => (ForwarderState::Receiving, ForwarderActionView::Receive),
            _ => (ForwarderState::Finished, ForwarderActionView::Finish),
        }
    }
}

/// One subscriber's relay of extrinsic hashes from the broadcast channel.
pub struct SubscriptionForwarder {
    state: ForwarderState,
}

impl SubscriptionForwarder {
    pub closed spec fn state(&self) -> ForwarderState {
        self.state
    }

    /// A subscription that is still to be accepted.
    pub fn new() -> (forwarder: SubscriptionForwarder)
        ensures
            forwarder.state() == ForwarderState::AwaitingAccept,
    {
        SubscriptionForwarder { state: ForwarderState::AwaitingAccept }
    }

    /// Whether the subscription is over.
    pub fn is_finished(&self) -> (finished: bool)
        ensures
            finished == (self.state() == ForwarderState::Finished),
    {
        match self.state {
            ForwarderState::Finished => true,
            _ => false,
        }
    }

    /// Takes in what happened and says what to do next: every received hash is
    /// delivered as its full text; a failed accept, a lag, a closed
    /// channel or a failed delivery ends the subscription.
    pub fn step(&mut self, event: ForwarderEvent) -> (action: ForwarderAction)
        requires
            old(self).state().expects(event),
        ensures
            (final(self).state(), action@) == old(self).state().next(event),
    {
        match event {
            ForwarderEvent::Accepted => {
                self.state = ForwarderState::Receiving;
                ForwarderAction::Receive
            },
            ForwarderEvent::Received(hash) => {
                self.state = ForwarderState::Delivering;
                ForwarderAction::Deliver(extrinsic_hash_text(&hash))
            },
            ForwarderEvent::Delivered => {
                self.state = ForwarderState::Receiving;
                ForwarderAction::Receive
            },
            _ => {
                self.state = ForwarderState::Finished;
                ForwarderAction::Finish
            },
        }
    }
}

// ---------------------------------------------------------------------------
// Runs: what a sequence of events makes the listener and a subscription do.
// ---------------------------------------------------------------------------

/// The events can happen one after another from the given listener state.
pub open spec fn listener_run_is_possible(state: ListenerState, events: Seq<ListenerEvent>) -> bool
    decreases events.len(),
{
    events.len() == 0 || (state.expects(events[0]) && listener_run_is_possible(
        state.next(events[0]).0,
        events.drop_first(),
    ))
}

/// The actions the listener takes on the events, one per event.
pub open spec fn listener_run_actions(state: ListenerState, events: Seq<ListenerEvent>) -> Seq<
    ListenerAction,
>
    decreases events.len(),
{
    if events.len() == 0 {
        seq![]
    } else {
        seq![state.next(events[0]).1] + listener_run_actions(
            state.next(events[0]).0,
            events.drop_first(),
        )
    }
}

/// Over any run, the listener broadcasts every notified hash unchanged, keeps
/// going when nobody is subscribed, and finishes only on the end of the
/// notification stream, which is the last event it ever takes.
pub proof fn law_listener_run(state: ListenerState, events: Seq<ListenerEvent>)
    requires
        listener_run_is_possible(state, events),
    ensures
        listener_run_actions(state, events).len() == events.len(),
        forall|i: int|
            0 <= i < events.len() ==> {
                &&& (events[i] matches ListenerEvent::Notification(h) ==> #[trigger] listener_run_actions(state, events)[i]
                    == ListenerAction::Broadcast(h))
                &&& (events[i] is NoSubscribers ==> listener_run_actions(state, events)[i]
                    == ListenerAction::WarnNoSubscribersThenAwait)
                &&& (events[i] is Broadcasted ==> listener_run_actions(state, events)[i]
                    == ListenerAction::AwaitNotification)
                &&& (listener_run_actions(state, events)[i] == ListenerAction::Finish
                    <==> events[i] is StreamEnded)
                &&& (events[i] is StreamEnded ==> i == events.len() - 1)
            },
    decreases events.len(),
{
    if events.len() > 0 {
        let (next_state, action) = state.next(events[0]);
        let rest = events.drop_first();
        law_listener_run(next_state, rest);
        let actions = listener_run_actions(state, events);
        assert(actions == seq![action] + listener_run_actions(next_state, rest));
        assert forall|i: int| 0 <= i < events.len() implies {
            &&& (events[i] matches ListenerEvent::Notification(h) ==> #[trigger] actions[i]
                == ListenerAction::Broadcast(h))
            &&& (events[i] is NoSubscribers ==> actions[i]
                == ListenerAction::WarnNoSubscribersThenAwait)
            &&& (events[i] is Broadcasted ==> actions[i] == ListenerAction::AwaitNotification)
            &&& (actions[i] == ListenerAction::Finish <==> events[i] is StreamEnded)
            &&& (events[i] is StreamEnded ==> i == events.len() - 1)
        } by {
            if i > 0 {
                assert(events[i] == rest[i - 1]);
                assert(actions[i] == listener_run_actions(next_state, rest)[i - 1]);
            } else {
                assert(actions[0] == action);
                if events[0] is StreamEnded && events.len() > 1 {
                    assert(next_state == ListenerState::Finished);
                    assert(listener_run_is_possible(next_state, rest));
                    assert(!next_state.expects(rest[0]));
                }
            }
        }
    }
}

/// The events can happen one after another from the given subscription state.
pub open spec fn forwarder_run_is_possible(state: ForwarderState, events: Seq<ForwarderEvent>) -> bool
    decreases events.len(),
{
    events.len() == 0 || (state.expects(events[0]) && forwarder_run_is_possible(
        state.next(events[0]).0,
        events.drop_first(),
    ))
}

/// The actions a subscription takes on the events, one per event.
pub open spec fn forwarder_run_actions(state: ForwarderState, events: Seq<ForwarderEvent>) -> Seq<
    ForwarderActionView,
>
    decreases events.len(),
{
    if events.len() == 0 {
        seq![]
    } else {
        seq![state.next(events[0]).1] + forwarder_run_actions(
            state.next(events[0]).0,
            events.drop_first(),
        )
    }
}

/// Over any run of a subscription, each hash taken from the channel is
/// delivered, in order, as its full text and nothing else is
/// delivered; the subscription ends on a failed accept, a lag, a closed
/// channel or a failed delivery, and nothing happens after it has ended.
pub proof fn law_forwarder_run(state: ForwarderState, events: Seq<ForwarderEvent>)
    requires
        forwarder_run_is_possible(state, events),
    ensures
        forwarder_run_actions(state, events).len() == events.len(),
        forall|i: int|
            0 <= i < events.len() ==> {
                &&& (events[i] matches ForwarderEvent::Received(h) <==> #[trigger] forwarder_run_actions(state, events)[i]
                    matches ForwarderActionView::Deliver(_))
                &&& (events[i] matches ForwarderEvent::Received(h) ==> forwarder_run_actions(state, events)[i]
                    == ForwarderActionView::Deliver(hash_text(h@)))
                &&& (forwarder_run_actions(state, events)[i] == ForwarderActionView::Finish
                    <==> (events[i] is Rejected || events[i] is Lagged || events[i] is ChannelClosed
                    || events[i] is DeliveryFailed))
                &&& (forwarder_run_actions(state, events)[i] == ForwarderActionView::Finish ==> i
                    == events.len() - 1)
            },
    decreases events.len(),
{
    if events.len() > 0 {
        let (next_state, action) = state.next(events[0]);
        let rest = events.drop_first();
        law_forwarder_run(next_state, rest);
        let actions = forwarder_run_actions(state, events);
        assert(actions == seq![action] + forwarder_run_actions(next_state, rest));
        assert forall|i: int| 0 <= i < events.len() implies {
            &&& (events[i] matches ForwarderEvent::Received(h) <==> #[trigger] actions[i] matches ForwarderActionView::Deliver(_))
            &&& (events[i] matches ForwarderEvent::Received(h) ==> actions[i]
                == ForwarderActionView::Deliver(hash_text(h@)))
            &&& (actions[i] == ForwarderActionView::Finish <==> (events[i] is Rejected
                || events[i] is Lagged || events[i] is ChannelClosed || events[i] is DeliveryFailed))
            &&& (actions[i] == ForwarderActionView::Finish ==> i == events.len() - 1)
        } by {
            if i > 0 {
                assert(events[i] == rest[i - 1]);
                assert(actions[i] == forwarder_run_actions(next_state, rest)[i - 1]);
            } else {
                assert(actions[0] == action);
                if action == ForwarderActionView::Finish && events.len() > 1 {
                    assert(next_state == ForwarderState::Finished);
                    assert(forwarder_run_is_possible(next_state, rest));
                    assert(!next_state.expects(rest[0]));
                }
            }
        }
    }
}

/// The hashes a subscription takes from the channel, in order.
pub open spec fn received_hashes(events: Seq<ForwarderEvent>) -> Seq<Seq<u8>>
    decreases events.len(),
{
    if events.len() == 0 {
        seq![]
    } else {
        (match events[0] {
            ForwarderEvent::Received(h) => seq![h@],
            _ => seq![],
        }) + received_hashes(events.drop_first())
    }
}

/// The texts a subscription delivers, in order.
pub open spec fn delivered_texts(actions: Seq<ForwarderActionView>) -> Seq<Seq<char>>
    decreases actions.len(),
{
    if actions.len() == 0 {
        seq![]
    } else {
        (match actions[0] {
            ForwarderActionView::Deliver(text) => seq![text],
            _ => seq![],
        }) + delivered_texts(actions.drop_first())
    }
}

/// What a subscriber is sent is exactly the text of each hash the
/// subscription took from the channel, in the same order: no hash is
/// skipped, repeated or reordered.
pub proof fn law_forwarder_delivers_what_it_received(
    state: ForwarderState,
    events: Seq<ForwarderEvent>,
)
    ensures
        delivered_texts(forwarder_run_actions(state, events)) == received_hashes(events).map_values(
            |h: Seq<u8>| hash_text(h),
        ),
    decreases events.len(),
{
    if events.len() > 0 {
        let (next_state, action) = state.next(events[0]);
        let rest = events.drop_first();
        law_forwarder_delivers_what_it_received(next_state, rest);
        let rest_actions = forwarder_run_actions(next_state, rest);
        let actions = forwarder_run_actions(state, events);
        assert(actions == seq![action] + rest_actions);
        assert(actions.drop_first() =~= rest_actions);
        let head: Seq<Seq<u8>> = match events[0] {
            ForwarderEvent::Received(h) => seq![h@],
            _ => seq![],
        };
        let f = |h: Seq<u8>| hash_text(h);
        assert((head + received_hashes(rest)).map_values(f) =~= head.map_values(f)
            + received_hashes(rest).map_values(f));
    } else {
        assert(received_hashes(events).map_values(|h: Seq<u8>| hash_text(h)) =~= seq![]);
    }
}

/// `a` is a prefix of `b`.
pub open spec fn is_prefix<T>(a: Seq<T>, b: Seq<T>) -> bool {
    a.len() <= b.len() && forall|i: int| 0 <= i < a.len() ==> a[i] == b[i]
}

/// When the channel hands a subscription the hashes broadcast since it
/// subscribed, in order (a lag is reported, and ends the subscription), the
/// subscriber is sent the texts of a prefix of the broadcast hashes, in
/// order, with no gap and no repeat.
pub proof fn law_subscriber_gets_prefix_of_broadcast(
    state: ForwarderState,
    events: Seq<ForwarderEvent>,
    broadcast: Seq<Seq<u8>>,
)
    requires
        is_prefix(received_hashes(events), broadcast),
    ensures
        is_prefix(
            delivered_texts(forwarder_run_actions(state, events)),
            broadcast.map_values(|h: Seq<u8>| hash_text(h)),
        ),
{
    law_forwarder_delivers_what_it_received(state, events);
}

/// One step of the listener: a notification is broadcast unchanged and the
/// listener then awaits the broadcast's outcome; a broadcast that reached
/// subscribers is followed by waiting for the next notification, with no
/// warning; a broadcast that reached nobody is followed by the warning and
/// then by waiting; and the listener finishes exactly when the stream ends.
pub proof fn law_listener_step(state: ListenerState, event: ListenerEvent)
    requires
        state.expects(event),
    ensures
        event matches ListenerEvent::Notification(h) ==> state.next(event) == (
            ListenerState::Broadcasting,
            ListenerAction::Broadcast(h),
        ),
        event is Broadcasted ==> state.next(event) == (
            ListenerState::AwaitingNotification,
            ListenerAction::AwaitNotification,
        ),
        event is NoSubscribers ==> state.next(event) == (
            ListenerState::AwaitingNotification,
            ListenerAction::WarnNoSubscribersThenAwait,
        ),
        state.next(event).0 == ListenerState::Finished <==> event is StreamEnded,
        state.next(event).1 == ListenerAction::Finish <==> event is StreamEnded,
        state.next(event).1 == ListenerAction::WarnNoSubscribersThenAwait <==> event is NoSubscribers,
{
}

/// The listener starts waiting for a notification; from there it expects a
/// notification or the end of the stream, and after a broadcast it expects
/// its outcome.
pub proof fn law_listener_expects()
    ensures
        forall|e: ListenerEvent|
            ListenerState::AwaitingNotification.expects(e) <==> (e is Notification
                || e is StreamEnded),
        forall|e: ListenerEvent|
            ListenerState::Broadcasting.expects(e) <==> (e is Broadcasted || e is NoSubscribers),
        forall|e: ListenerEvent| !ListenerState::Finished.expects(e),
{
}

/// One step of a subscription: an accepted subscription and a delivered
/// message are followed by waiting for the next hash; a received hash is
/// delivered as its text; and the subscription is over exactly after a failed
/// accept, a lag, a closed channel or a failed delivery.
pub proof fn law_forwarder_step(state: ForwarderState, event: ForwarderEvent)
    requires
        state.expects(event),
    ensures
        event is Accepted ==> state.next(event) == (
            ForwarderState::Receiving,
            ForwarderActionView::Receive,
        ),
        event is Delivered ==> state.next(event) == (
            ForwarderState::Receiving,
            ForwarderActionView::Receive,
        ),
        event matches ForwarderEvent::Received(h) ==> state.next(event) == (
            ForwarderState::Delivering,
            ForwarderActionView::Deliver(hash_text(h@)),
        ),
        state.next(event).0 == ForwarderState::Finished <==> (event is Rejected || event is Lagged
            || event is ChannelClosed || event is DeliveryFailed),
        state.next(event).0 == ForwarderState::Finished ==> state.next(event).1
            == ForwarderActionView::Finish,
{
}

/// A subscription starts waiting to be accepted; while receiving it expects a
/// hash, a lag or the channel's end; while delivering, the delivery's outcome.
pub proof fn law_forwarder_expects()
    ensures
        forall|e: ForwarderEvent|
            ForwarderState::AwaitingAccept.expects(e) <==> (e is Accepted || e is Rejected),
        forall|e: ForwarderEvent|
            ForwarderState::Receiving.expects(e) <==> (e is Received || e is Lagged
                || e is ChannelClosed),
        forall|e: ForwarderEvent|
            ForwarderState::Delivering.expects(e) <==> (e is Delivered || e is DeliveryFailed),
        forall|e: ForwarderEvent| !ForwarderState::Finished.expects(e),
{
}

} // verus!
