//! Incoming notifications and the event-dispatch layer.
//!
//! A connection yields a stream of notifications.  Four incoming kinds are
//! interpreted — connected, message published to us, publish acknowledged,
//! and everything else — and the dispatch functions route each recognized
//! kind to the matching handler callback, in notification order.  Empty
//! notifications and poll errors are ignored and never stop dispatching.

use vstd::prelude::*;

verus! {

/// A message delivered to one of our subscriptions.
#[derive(Clone, PartialEq, Eq, Debug)]
pub struct PublishedMessage {
    pub topic: String,
    pub payload: Vec<u8>,
}

/// The mathematical content of a [`PublishedMessage`].
pub struct PublishedMessageView {
    pub topic: Seq<char>,
    pub payload: Seq<u8>,
}

impl View for PublishedMessage {
    type V = PublishedMessageView;

    open spec fn view(&self) -> PublishedMessageView {
        PublishedMessageView { topic: self.topic@, payload: self.payload@ }
    }
}

/// The broker's acknowledgement of a publish we sent at a quality-of-service
/// level that acknowledges.
#[derive(Clone, Copy, PartialEq, Eq, Debug)]
pub struct Acknowledgement {
    pub packet_id: u16,
}

/// The incoming kinds a notification can carry.  Every packet other than the
/// three interpreted ones is `Other` and is ignored by dispatch.
#[derive(Clone, PartialEq, Eq, Debug)]
pub enum IncomingEvent {
    Connected,
    MessagePublished(PublishedMessage),
    PublishAcknowledged(Acknowledgement),
    Other,
}

/// One step of the notification stream, as the listener loop hands it to
/// dispatch: an incoming event, a notification that carried no incoming
/// payload, or a failed poll (whose error is discarded).
#[derive(Clone, PartialEq, Eq, Debug)]
pub enum Notification {
    Event(IncomingEvent),
    Empty,
    Failed,
}

/// A record of one handler callback invocation, in mathematical form.
pub enum CallRecord {
    Connect,
    Publish(PublishedMessageView),
    PubAck(u16),
}

/// The callback, if any, that the blocking dispatch owes a notification:
/// published messages and connection events are dispatched, everything else
/// — acknowledgements included — is ignored.
pub open spec fn blocking_action(n: Notification) -> Option<CallRecord> {
    match n {
        Notification::Event(IncomingEvent::Connected) => Some(CallRecord::Connect),
        Notification::Event(IncomingEvent::MessagePublished(m)) => Some(
            CallRecord::Publish(m@),
        ),
        _ => None,
    }
}

/// The callback, if any, that the concurrent dispatch owes a notification:
/// as the blocking one, but acknowledgements are dispatched too.
pub open spec fn async_action(n: Notification) -> Option<CallRecord> {
    match n {
        Notification::Event(IncomingEvent::PublishAcknowledged(a)) => Some(
            CallRecord::PubAck(a.packet_id),
        ),
        _ => blocking_action(n),
    }
}

/// The empty or singleton call sequence an optional action stands for.
pub open spec fn action_calls(a: Option<CallRecord>) -> Seq<CallRecord> {
    match a {
        Some(c) => seq![c],
        None => Seq::empty(),
    }
}

/// The exact sequence of callbacks the blocking dispatch owes a
/// notification stream.
pub open spec fn blocking_call_log(ns: Seq<Notification>) -> Seq<CallRecord>
    decreases ns.len(),
{
    if ns.len() == 0 {
        Seq::empty()
    } else {
        action_calls(blocking_action(ns[0])) + blocking_call_log(ns.drop_first())
    }
}

/// The exact sequence of callbacks the concurrent dispatch owes a
/// notification stream.
pub open spec fn async_call_log(ns: Seq<Notification>) -> Seq<CallRecord>
    decreases ns.len(),
{
    if ns.len() == 0 {
        Seq::empty()
    } else {
        action_calls(async_action(ns[0])) + async_call_log(ns.drop_first())
    }
}

/// The event-handler capability of the blocking variant.  An implementer
/// exposes the log of callback invocations it has recorded so far as
/// `call_log`, and each callback appends exactly its own record.
pub trait AWSEventHandler {
    /// The calls this handler has received, oldest first.
    spec fn call_log(&self) -> Seq<CallRecord>;

    /// Invoked when the connection to the broker is (re)established.
    fn on_connect(&mut self)
        ensures
            final(self).call_log() == old(self).call_log().push(CallRecord::Connect),
    ;

    /// Invoked when a message arrives on a subscribed topic.
    fn on_publish(&mut self, message: PublishedMessage)
        ensures
            final(self).call_log() == old(self).call_log().push(CallRecord::Publish(message@)),
    ;

    /// Invoked when the broker acknowledges a publish of ours.
    fn on_puback(&mut self, message: Acknowledgement)
        ensures
            final(self).call_log() == old(self).call_log().push(
                CallRecord::PubAck(message.packet_id),
            ),
    ;
}

/// The event-handler capability of the concurrent variant.  The contract is
/// the same as the blocking one; the two differ in which dispatch routine
/// drives them and in whether acknowledgements are dispatched.
pub trait AWSAsyncEventHandler {
    /// The calls this handler has received, oldest first.
    spec fn call_log(&self) -> Seq<CallRecord>;

    /// Invoked when the connection to the broker is (re)established.
    fn on_connect(&mut self)
        ensures
            final(self).call_log() == old(self).call_log().push(CallRecord::Connect),
    ;

    /// Invoked when a message arrives on a subscribed topic.
    fn on_publish(&mut self, message: PublishedMessage)
        ensures
            final(self).call_log() == old(self).call_log().push(CallRecord::Publish(message@)),
    ;

    /// Invoked when the broker acknowledges a publish of ours.
    fn on_puback(&mut self, message: Acknowledgement)
        ensures
            final(self).call_log() == old(self).call_log().push(
                CallRecord::PubAck(message.packet_id),
            ),
    ;
}

/// Routes one notification of the blocking stream: published messages and
/// connection events reach their callback, everything else is ignored and
/// the handler's log is unchanged.  Never panics, whatever the notification.
pub fn dispatch_notification<H: AWSEventHandler>(handler: &mut H, notification: Notification)
    ensures
        final(handler).call_log() == old(handler).call_log() + action_calls(
            blocking_action(notification),
        ),
{
    let ghost pre = handler.call_log();
    match notification {
        Notification::Event(IncomingEvent::Connected) => {
            handler.on_connect();
            proof {
                assert(handler.call_log() =~= pre + action_calls(
                    blocking_action(notification),
                ));
            }
        },
        Notification::Event(IncomingEvent::MessagePublished(message)) => {
            let ghost record = CallRecord::Publish(message@);
            handler.on_publish(message);
            proof {
                assert(handler.call_log() =~= pre + seq![record]);
            }
        },
        _ => {
            proof {
                assert(handler.call_log() =~= pre + action_calls(
                    blocking_action(notification),
                ));
            }
        },
    }
}

/// Routes one notification of the concurrent stream: as the blocking
/// dispatch, and acknowledgements reach `on_puback`.
pub fn dispatch_async_notification<H: AWSAsyncEventHandler>(
    handler: &mut H,
    notification: Notification,
)
    ensures
        final(handler).call_log() == old(handler).call_log() + action_calls(
            async_action(notification),
        ),
{
    let ghost pre = handler.call_log();
    match notification {
        Notification::Event(IncomingEvent::Connected) => {
            handler.on_connect();
            proof {
                assert(handler.call_log() =~= pre + action_calls(async_action(notification)));
            }
        },
        Notification::Event(IncomingEvent::MessagePublished(message)) => {
            let ghost record = CallRecord::Publish(message@);
            handler.on_publish(message);
            proof {
                assert(handler.call_log() =~= pre + seq![record]);
            }
        },
        Notification::Event(IncomingEvent::PublishAcknowledged(ack)) => {
            handler.on_puback(ack);
            proof {
                assert(handler.call_log() =~= pre + action_calls(async_action(notification)));
            }
        },
        _ => {
            proof {
                assert(handler.call_log() =~= pre + action_calls(async_action(notification)));
            }
        },
    }
}

/// Splitting a stream after its first notification splits its owed calls.
proof fn lemma_blocking_call_log_first(ns: Seq<Notification>)
    requires
        ns.len() > 0,
    ensures
        blocking_call_log(ns) == action_calls(blocking_action(ns[0])) + blocking_call_log(
            ns.drop_first(),
        ),
{
}

/// Routes a whole batch of notifications of the blocking stream, in order.
/// The handler's log grows by exactly the owed calls of the batch: each
/// recognized notification is dispatched once, in stream order, and the
/// ignored ones leave no trace.
pub fn dispatch_notifications<H: AWSEventHandler>(
    handler: &mut H,
    mut notifications: Vec<Notification>,
)
    ensures
        final(handler).call_log() == old(handler).call_log() + blocking_call_log(
            notifications@,
        ),
{
    let ghost pre = handler.call_log();
    let ghost stream = notifications@;
    let ghost mut done: int = 0;
    while notifications.len() > 0
        invariant
            0 <= done <= stream.len(),
            notifications@ == stream.skip(done),
            handler.call_log() + blocking_call_log(notifications@) =~= pre + blocking_call_log(
                stream,
            ),
        decreases notifications.len(),
    {
        let ghost before = handler.call_log();
        let ghost remaining = notifications@;
        let next = notifications.remove(0);
        dispatch_notification(handler, next);
        proof {
            lemma_blocking_call_log_first(remaining);
            assert(notifications@ =~= remaining.drop_first());
            assert(handler.call_log() + blocking_call_log(notifications@) =~= before
                + blocking_call_log(remaining));
            done = done + 1;
            assert(notifications@ =~= stream.skip(done));
        }
    }
    proof {
        assert(blocking_call_log(notifications@) =~= Seq::<CallRecord>::empty());
        assert(handler.call_log() =~= pre + blocking_call_log(stream));
    }
}

/// Splitting a stream after its first notification splits its owed calls.
proof fn lemma_async_call_log_first(ns: Seq<Notification>)
    requires
        ns.len() > 0,
    ensures
        async_call_log(ns) == action_calls(async_action(ns[0])) + async_call_log(
            ns.drop_first(),
        ),
{
}

/// Routes a whole batch of notifications of the concurrent stream, in
/// order, with the same exactness as the blocking batch dispatch.
pub fn dispatch_async_notifications<H: AWSAsyncEventHandler>(
    handler: &mut H,
    mut notifications: Vec<Notification>,
)
    ensures
        final(handler).call_log() == old(handler).call_log() + async_call_log(notifications@),
{
    let ghost pre = handler.call_log();
    let ghost stream = notifications@;
    let ghost mut done: int = 0;
    while notifications.len() > 0
        invariant
            0 <= done <= stream.len(),
            notifications@ == stream.skip(done),
            handler.call_log() + async_call_log(notifications@) =~= pre + async_call_log(
                stream,
            ),
        decreases notifications.len(),
    {
        let ghost before = handler.call_log();
        let ghost remaining = notifications@;
        let next = notifications.remove(0);
        dispatch_async_notification(handler, next);
        proof {
            lemma_async_call_log_first(remaining);
            assert(notifications@ =~= remaining.drop_first());
            assert(handler.call_log() + async_call_log(notifications@) =~= before
                + async_call_log(remaining));
            done = done + 1;
            assert(notifications@ =~= stream.skip(done));
        }
    }
    proof {
        assert(async_call_log(notifications@) =~= Seq::<CallRecord>::empty());
        assert(handler.call_log() =~= pre + async_call_log(stream));
    }
}

/// Whether a notification announces a (re)established connection.
pub open spec fn is_connected_notification(n: Notification) -> bool {
    n matches Notification::Event(IncomingEvent::Connected)
}

/// Whether a notification announces a publish acknowledgement.
pub open spec fn is_ack_notification(n: Notification) -> bool {
    n matches Notification::Event(IncomingEvent::PublishAcknowledged(_))
}

/// How many notifications of a stream announce a connection.
pub open spec fn connected_count(ns: Seq<Notification>) -> nat
    decreases ns.len(),
{
    if ns.len() == 0 {
        0
    } else {
        (if is_connected_notification(ns[0]) {
            1nat
        } else {
            0nat
        }) + connected_count(ns.drop_first())
    }
}

/// How many notifications of a stream announce an acknowledgement.
pub open spec fn ack_count(ns: Seq<Notification>) -> nat
    decreases ns.len(),
{
    if ns.len() == 0 {
        0
    } else {
        (if is_ack_notification(ns[0]) {
            1nat
        } else {
            0nat
        }) + ack_count(ns.drop_first())
    }
}

/// How many records of a call log are `on_connect` invocations.
pub open spec fn connect_call_count(cs: Seq<CallRecord>) -> nat
    decreases cs.len(),
{
    if cs.len() == 0 {
        0
    } else {
        (if cs[0] is Connect {
            1nat
        } else {
            0nat
        }) + connect_call_count(cs.drop_first())
    }
}

/// How many records of a call log are `on_puback` invocations.
pub open spec fn puback_call_count(cs: Seq<CallRecord>) -> nat
    decreases cs.len(),
{
    if cs.len() == 0 {
        0
    } else {
        (if cs[0] is PubAck {
            1nat
        } else {
            0nat
        }) + puback_call_count(cs.drop_first())
    }
}

proof fn lemma_action_connect_count(a: Option<CallRecord>)
    ensures
        connect_call_count(action_calls(a)) == (if a matches Some(CallRecord::Connect) {
            1nat
        } else {
            0nat
        }),
{
    match a {
        Some(c) => {
            assert(action_calls(a).drop_first() =~= Seq::<CallRecord>::empty());
            assert(connect_call_count(Seq::<CallRecord>::empty()) == 0);
        },
        None => {
        },
    }
}

proof fn lemma_action_puback_count(a: Option<CallRecord>)
    ensures
        puback_call_count(action_calls(a)) == (if a matches Some(c) && c is PubAck {
            1nat
        } else {
            0nat
        }),
{
    match a {
        Some(c) => {
            assert(action_calls(a).drop_first() =~= Seq::<CallRecord>::empty());
            assert(puback_call_count(Seq::<CallRecord>::empty()) == 0);
        },
        None => {
        },
    }
}

proof fn lemma_connect_call_count_add(a: Seq<CallRecord>, b: Seq<CallRecord>)
    ensures
        connect_call_count(a + b) == connect_call_count(a) + connect_call_count(b),
    decreases a.len(),
{
    if a.len() == 0 {
        assert(a + b =~= b);
    } else {
        assert((a + b).drop_first() =~= a.drop_first() + b);
        lemma_connect_call_count_add(a.drop_first(), b);
    }
}

proof fn lemma_puback_call_count_add(a: Seq<CallRecord>, b: Seq<CallRecord>)
    ensures
        puback_call_count(a + b) == puback_call_count(a) + puback_call_count(b),
    decreases a.len(),
{
    if a.len() == 0 {
        assert(a + b =~= b);
    } else {
        assert((a + b).drop_first() =~= a.drop_first() + b);
        lemma_puback_call_count_add(a.drop_first(), b);
    }
}

/// Law: the concurrent dispatch invokes `on_connect` exactly once per
/// connection notification — the calls a stream owes hold exactly as many
/// connection callbacks as the stream holds connection notifications.
/// Their placement is fixed, too: `async_call_log` pins the whole call
/// order to the notification order.
pub proof fn lemma_connect_once_per_event(ns: Seq<Notification>)
    ensures
        connect_call_count(async_call_log(ns)) == connected_count(ns),
    decreases ns.len(),
{
    if ns.len() == 0 {
    } else {
        lemma_connect_once_per_event(ns.drop_first());
        lemma_action_connect_count(async_action(ns[0]));
        lemma_connect_call_count_add(
            action_calls(async_action(ns[0])),
            async_call_log(ns.drop_first()),
        );
    }
}

/// Law: the blocking dispatch, too, invokes `on_connect` exactly once
/// per connection notification.
pub proof fn lemma_blocking_connect_once_per_event(ns: Seq<Notification>)
    ensures
        connect_call_count(blocking_call_log(ns)) == connected_count(ns),
    decreases ns.len(),
{
    if ns.len() == 0 {
    } else {
        lemma_blocking_connect_once_per_event(ns.drop_first());
        lemma_action_connect_count(blocking_action(ns[0]));
        lemma_connect_call_count_add(
            action_calls(blocking_action(ns[0])),
            blocking_call_log(ns.drop_first()),
        );
    }
}

/// Law: the concurrent dispatch invokes `on_puback` exactly once per
/// acknowledgement notification.
pub proof fn lemma_puback_once_per_ack(ns: Seq<Notification>)
    ensures
        puback_call_count(async_call_log(ns)) == ack_count(ns),
    decreases ns.len(),
{
    if ns.len() == 0 {
    } else {
        lemma_puback_once_per_ack(ns.drop_first());
        lemma_action_puback_count(async_action(ns[0]));
        lemma_puback_call_count_add(
            action_calls(async_action(ns[0])),
            async_call_log(ns.drop_first()),
        );
    }
}

proof fn lemma_no_ack_zero_count(ns: Seq<Notification>)
    requires
        forall|i: int| 0 <= i < ns.len() ==> !is_ack_notification(#[trigger] ns[i]),
    ensures
        ack_count(ns) == 0,
    decreases ns.len(),
{
    if ns.len() == 0 {
    } else {
        assert(!is_ack_notification(ns[0]));
        assert(forall|i: int|
            0 <= i < ns.drop_first().len() ==> !is_ack_notification(
                #[trigger] ns.drop_first()[i],
            ));
        lemma_no_ack_zero_count(ns.drop_first());
    }
}

/// Law: a stream free of acknowledgement notifications triggers no
/// `on_puback` dispatch.  The broker never acknowledges a delivery sent
/// at `AtMostOnce`, so a publish at that level cannot lead to an
/// acknowledgement callback.
pub proof fn lemma_no_ack_no_puback(ns: Seq<Notification>)
    requires
        forall|i: int| 0 <= i < ns.len() ==> !is_ack_notification(#[trigger] ns[i]),
    ensures
        puback_call_count(async_call_log(ns)) == 0,
{
    lemma_puback_once_per_ack(ns);
    lemma_no_ack_zero_count(ns);
}

/// Law: the blocking dispatch never invokes `on_puback`, whatever the
/// stream holds — acknowledgements are among the notification kinds it
/// ignores.
pub proof fn lemma_blocking_never_puback(ns: Seq<Notification>)
    ensures
        puback_call_count(blocking_call_log(ns)) == 0,
    decreases ns.len(),
{
    if ns.len() == 0 {
    } else {
        lemma_blocking_never_puback(ns.drop_first());
        lemma_action_puback_count(blocking_action(ns[0]));
        lemma_puback_call_count_add(
            action_calls(blocking_action(ns[0])),
            blocking_call_log(ns.drop_first()),
        );
    }
}

/// A call record in executable form, as a recording handler keeps it.
#[derive(Clone, PartialEq, Eq, Debug)]
pub enum RecordedCall {
    Connect,
    Publish(PublishedMessage),
    PubAck(u16),
}

impl View for RecordedCall {
    type V = CallRecord;

    open spec fn view(&self) -> CallRecord {
        match self {
            RecordedCall::Connect => CallRecord::Connect,
            RecordedCall::Publish(m) => CallRecord::Publish(m@),
            RecordedCall::PubAck(id) => CallRecord::PubAck(*id),
        }
    }
}

/// The log a recording handler has accumulated: its recorded calls, in
/// mathematical form.
pub open spec fn recorded_log(h: &RecordingHandler) -> Seq<CallRecord> {
    h.calls@.map_values(|c: RecordedCall| c@)
}

/// An event handler that records every callback invocation, in order.
/// It implements both handler capabilities, so either dispatch variant
/// can drive it; its recorded calls are exactly its contract's log.
pub struct RecordingHandler {
    /// Every callback received so far, oldest first.
    pub calls: Vec<RecordedCall>,
}

impl RecordingHandler {
    /// A handler that has recorded nothing yet.
    pub fn new() -> (r: RecordingHandler)
        ensures
            r.calls@ == Seq::<RecordedCall>::empty(),
    {
        RecordingHandler { calls: Vec::new() }
    }
}

impl AWSEventHandler for RecordingHandler {
    open spec fn call_log(&self) -> Seq<CallRecord> {
        recorded_log(self)
    }

    fn on_connect(&mut self) {
        self.calls.push(RecordedCall::Connect);
        proof {
            assert(recorded_log(self) =~= recorded_log(old(self)).push(CallRecord::Connect));
        }
    }

    fn on_publish(&mut self, message: PublishedMessage) {
        let ghost record = CallRecord::Publish(message@);
        self.calls.push(RecordedCall::Publish(message));
        proof {
            assert(recorded_log(self) =~= recorded_log(old(self)).push(record));
        }
    }

    fn on_puback(&mut self, message: Acknowledgement) {
        self.calls.push(RecordedCall::PubAck(message.packet_id));
        proof {
            assert(recorded_log(self) =~= recorded_log(old(self)).push(
                CallRecord::PubAck(message.packet_id),
            ));
        }
    }
}

impl AWSAsyncEventHandler for RecordingHandler {
    open spec fn call_log(&self) -> Seq<CallRecord> {
        recorded_log(self)
    }

    fn on_connect(&mut self) {
        self.calls.push(RecordedCall::Connect);
        proof {
            assert(recorded_log(self) =~= recorded_log(old(self)).push(CallRecord::Connect));
        }
    }

    fn on_publish(&mut self, message: PublishedMessage) {
        let ghost record = CallRecord::Publish(message@);
        self.calls.push(RecordedCall::Publish(message));
        proof {
            assert(recorded_log(self) =~= recorded_log(old(self)).push(record));
        }
    }

    fn on_puback(&mut self, message: Acknowledgement) {
        self.calls.push(RecordedCall::PubAck(message.packet_id));
        proof {
            assert(recorded_log(self) =~= recorded_log(old(self)).push(
                CallRecord::PubAck(message.packet_id),
            ));
        }
    }
}

} // verus!
