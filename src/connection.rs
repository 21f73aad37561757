//! The callback side of one connection: the decoder and the notifier that the
//! transport's events are fed through, each registered once at connect time
//! and released when the connection closes.
use vstd::prelude::*;
use crate::status::{WebSocketStatus, OPENED_CODE, CLOSED_CODE, is_status_code, status_of};

verus! {

/// An event fired by the transport on its own event loop.
#[derive(Debug, PartialEq, Eq)]
pub enum TransportEvent {
    /// The connection has been opened.
    Open,
    /// A frame with this raw payload has arrived.
    Message(String),
    /// The connection has been closed.
    Close,
    /// The connection has failed; handled as a close.
    Error,
}

/// The event that a status code of the transport reports, `None` for a code
/// that the transport should never report.
pub open spec fn event_of_code(code: u32) -> Option<TransportEvent> {
    if !is_status_code(code) {
        None
    } else if status_of(code) == WebSocketStatus::Opened {
        Some(TransportEvent::Open)
    } else {
        Some(TransportEvent::Close)
    }
}

impl TransportEvent {
    /// Classifies a status code of the transport as an open or a close event;
    /// any other code is refused.
    pub fn from_status_code(code: u32) -> (r: Option<TransportEvent>)
        ensures
            r == event_of_code(code),
    {
        match WebSocketStatus::try_from_code(code) {
            Some(WebSocketStatus::Opened) => Some(TransportEvent::Open),
            Some(WebSocketStatus::Closed) => Some(TransportEvent::Close),
            None => None,
        }
    }
}

/// What an event asks to be dispatched, before conversion to a message.
pub enum Notice {
    /// A status change, to go through the notifier.
    Status(WebSocketStatus),
    /// An inbound payload, to go through the decoder.
    Data(String),
}

/// Which of the two callbacks are still registered.
pub struct Registrations {
    /// The decoder, fed by message events.
    pub data: bool,
    /// The notifier, fed by open and close events.
    pub status: bool,
}

/// Both callbacks registered, as right after connecting.
pub open spec fn registered() -> Registrations {
    Registrations { data: true, status: true }
}

/// Both callbacks released, as after the connection has closed.
pub open spec fn released() -> Registrations {
    Registrations { data: false, status: false }
}

/// How one event changes the registrations, and what it dispatches.
///
/// An open reports `Opened`; a message goes through the decoder; a close (or
/// an error, which the transport treats as one) first releases the decoder,
/// then reports `Closed`, then releases the notifier. A callback that has
/// been released dispatches nothing, so a close is reported at most once.
pub open spec fn step(w: Registrations, e: TransportEvent) -> (Registrations, Seq<Notice>) {
    match e {
        TransportEvent::Open => (
            w,
            if w.status {
                seq![Notice::Status(WebSocketStatus::Opened)]
            } else {
                Seq::empty()
            },
        ),
        TransportEvent::Message(p) => (
            w,
            if w.data {
                seq![Notice::Data(p)]
            } else {
                Seq::empty()
            },
        ),
        TransportEvent::Close | TransportEvent::Error => (
            released(),
            if w.status {
                seq![Notice::Status(WebSocketStatus::Closed)]
            } else {
                Seq::empty()
            },
        ),
    }
}

/// The registrations after a sequence of events, and everything the events
/// dispatched, in order.
pub open spec fn run(w: Registrations, events: Seq<TransportEvent>) -> (
    Registrations,
    Seq<Notice>,
)
    decreases events.len(),
{
    if events.len() == 0 {
        (w, Seq::empty())
    } else {
        let (w1, first) = step(w, events[0]);
        let (w2, rest) = run(w1, events.drop_first());
        (w2, first + rest)
    }
}

/// A message event for each payload.
pub open spec fn messages(payloads: Seq<String>) -> Seq<TransportEvent> {
    payloads.map_values(|p: String| TransportEvent::Message(p))
}

/// A data notice for each payload.
pub open spec fn data(payloads: Seq<String>) -> Seq<Notice> {
    payloads.map_values(|p: String| Notice::Data(p))
}

/// While both callbacks are registered, message events dispatch their
/// payloads in order, one each, and leave the registrations as they were.
pub proof fn lemma_messages_in_order(payloads: Seq<String>)
    ensures
        run(registered(), messages(payloads)) == (registered(), data(payloads)),
    decreases payloads.len(),
{
    if payloads.len() > 0 {
        let rest = payloads.drop_first();
        lemma_messages_in_order(rest);
        assert(messages(payloads).drop_first() =~= messages(rest));
        assert(data(payloads) =~= seq![Notice::Data(payloads[0])] + data(rest));
    } else {
        assert(data(payloads) =~= Seq::empty());
    }
}

/// Once the connection has closed, no event dispatches anything more.
pub proof fn lemma_silent_after_close(events: Seq<TransportEvent>)
    ensures
        run(released(), events) == (released(), Seq::<Notice>::empty()),
    decreases events.len(),
{
    if events.len() > 0 {
        lemma_silent_after_close(events.drop_first());
        assert(step(released(), events[0]).1 =~= Seq::<Notice>::empty());
        assert(Seq::<Notice>::empty() + Seq::<Notice>::empty() =~= Seq::<Notice>::empty());
    }
}

/// Splits a run at any point: the events after the split continue from the
/// registrations that the events before it left.
pub proof fn lemma_run_append(w: Registrations, a: Seq<TransportEvent>, b: Seq<TransportEvent>)
    ensures
        run(w, a + b) == (run(run(w, a).0, b).0, run(w, a).1 + run(run(w, a).0, b).1),
    decreases a.len(),
{
    if a.len() == 0 {
        assert(a + b =~= b);
        assert(Seq::<Notice>::empty() + run(w, b).1 =~= run(w, b).1);
    } else {
        let w1 = step(w, a[0]).0;
        lemma_run_append(w1, a.drop_first(), b);
        assert((a + b).drop_first() =~= a.drop_first() + b);
        assert((a + b)[0] == a[0]);
        let first = step(w, a[0]).1;
        let mid = run(w1, a.drop_first()).1;
        let last = run(run(w1, a.drop_first()).0, b).1;
        assert(first + (mid + last) =~= (first + mid) + last);
    }
}

/// A single event runs as one step.
pub proof fn lemma_run_one(w: Registrations, e: TransportEvent)
    ensures
        run(w, seq![e]) == step(w, e),
{
    assert(seq![e][0] == e);
    assert(seq![e].drop_first() =~= Seq::<TransportEvent>::empty());
    assert(run(step(w, e).0, Seq::empty()) == (step(w, e).0, Seq::<Notice>::empty()));
    assert(step(w, e).1 + Seq::<Notice>::empty() =~= step(w, e).1);
}

/// For a connection that opens, receives frames and closes, the dispatched
/// stream is exactly `Opened`, each payload in order, then `Closed`: nothing
/// reordered, duplicated or dropped. Both callbacks are released at the end,
/// and whatever the transport fires afterwards (a close after an error, say)
/// dispatches nothing.
pub proof fn lemma_lifecycle(payloads: Seq<String>, after: Seq<TransportEvent>)
    ensures
        run(
            registered(),
            seq![TransportEvent::Open] + messages(payloads) + seq![TransportEvent::Close] + after,
        ) == (
            released(),
            seq![Notice::Status(WebSocketStatus::Opened)] + data(payloads) + seq![
                Notice::Status(WebSocketStatus::Closed),
            ],
        ),
{
    let open = seq![TransportEvent::Open];
    let close = seq![TransportEvent::Close];
    lemma_messages_in_order(payloads);
    lemma_silent_after_close(after);
    lemma_run_append(registered(), open, messages(payloads));
    lemma_run_append(registered(), open + messages(payloads), close);
    lemma_run_append(registered(), open + messages(payloads) + close, after);
    lemma_run_one(registered(), TransportEvent::Open);
    lemma_run_one(registered(), TransportEvent::Close);
    let whole = seq![Notice::Status(WebSocketStatus::Opened)] + data(payloads) + seq![
        Notice::Status(WebSocketStatus::Closed),
    ];
    assert(whole + Seq::<Notice>::empty() =~= whole);
}

/// Whether `msg` is what `notice` turns into, through the decoder for data
/// and through the notifier for a status.
pub open spec fn delivers<MSG, F: Fn(String) -> MSG, N: Fn(WebSocketStatus) -> MSG>(
    converter: Option<F>,
    notification: Option<N>,
    notice: Notice,
    msg: MSG,
) -> bool {
    match notice {
        Notice::Data(p) => converter is Some && converter.unwrap().ensures((p,), msg),
        Notice::Status(st) => notification is Some && notification.unwrap().ensures((st,), msg),
    }
}

/// The same payload always reaches the decoder unchanged, whatever else the
/// connection has seen, so a pure decoder turns it into the same message
/// every time.
pub proof fn lemma_same_payload_same_message<MSG, F: Fn(String) -> MSG, N: Fn(WebSocketStatus) -> MSG>(
    converter: F,
    notification: Option<N>,
    w1: Registrations,
    w2: Registrations,
    payload: String,
    m1: MSG,
    m2: MSG,
)
    requires
        w1.data,
        w2.data,
        forall|s: String, a: MSG, b: MSG|
            converter.ensures((s,), a) && converter.ensures((s,), b) ==> a == b,
        delivers(Some(converter), notification, step(w1, TransportEvent::Message(payload)).1[0], m1),
        delivers(Some(converter), notification, step(w2, TransportEvent::Message(payload)).1[0], m2),
    ensures
        step(w1, TransportEvent::Message(payload)).1 == seq![Notice::Data(payload)],
        step(w2, TransportEvent::Message(payload)).1 == seq![Notice::Data(payload)],
        m1 == m2,
{
}

/// The registered callbacks of one connection: `converter` turns an inbound
/// payload into a message, `notification` turns a status into one.
pub struct Connection<F, N> {
    converter: Option<F>,
    notification: Option<N>,
}

/// Turns a status code reported by the transport into a message.
fn notify<MSG, N: Fn(WebSocketStatus) -> MSG>(notification: &N, code: u32) -> (r: MSG)
    requires
        is_status_code(code),
        forall|st: WebSocketStatus| notification.requires((st,)),
    ensures
        notification.ensures((status_of(code),), r),
{
    let status = WebSocketStatus::from_code(code);
    notification(status)
}

impl<MSG, F: Fn(String) -> MSG, N: Fn(WebSocketStatus) -> MSG> Connection<F, N> {
    /// The decoder, while it is registered.
    pub closed spec fn converter_spec(&self) -> Option<F> {
        self.converter
    }

    /// The notifier, while it is registered.
    pub closed spec fn notification_spec(&self) -> Option<N> {
        self.notification
    }

    /// Which callbacks are still registered.
    pub open spec fn registrations(&self) -> Registrations {
        Registrations {
            data: self.converter_spec() is Some,
            status: self.notification_spec() is Some,
        }
    }

    /// The registered callbacks accept every argument.
    pub open spec fn wf(&self) -> bool {
        &&& (self.converter_spec() matches Some(c) ==> forall|s: String| c.requires((s,)))
        &&& (self.notification_spec() matches Some(n) ==> forall|st: WebSocketStatus|
            n.requires((st,)))
    }

    /// Registers the decoder and the notifier of a new connection.
    pub fn new(converter: F, notification: N) -> (r: Self)
        requires
            forall|s: String| converter.requires((s,)),
            forall|st: WebSocketStatus| notification.requires((st,)),
        ensures
            r.wf(),
            r.converter_spec() == Some(converter),
            r.notification_spec() == Some(notification),
    {
        Connection { converter: Some(converter), notification: Some(notification) }
    }

    /// Whether both callbacks have been released, that is, the connection
    /// has closed.
    pub fn is_closed(&self) -> (r: bool)
        ensures
            r == (self.registrations() == released()),
    {
        self.converter.is_none() && self.notification.is_none()
    }

    /// Handles one event of the transport and returns, in order, the messages
    /// it dispatches: one for each notice that `step` gives, each made by the
    /// callback that the notice names.
    pub fn on_event(&mut self, event: TransportEvent) -> (r: Vec<MSG>)
        requires
            old(self).wf(),
        ensures
            final(self).wf(),
            final(self).registrations() == step(old(self).registrations(), event).0,
            final(self).converter_spec() is Some ==> final(self).converter_spec() == old(
                self,
            ).converter_spec(),
            final(self).notification_spec() is Some ==> final(self).notification_spec() == old(
                self,
            ).notification_spec(),
            r@.len() == step(old(self).registrations(), event).1.len(),
            forall|i: int|
                0 <= i < r@.len() ==> delivers(
                    old(self).converter_spec(),
                    old(self).notification_spec(),
                    #[trigger] step(old(self).registrations(), event).1[i],
                    r@[i],
                ),
    {
        let mut out: Vec<MSG> = Vec::new();
        match event {
            TransportEvent::Open => {
                if let Some(n) = &self.notification {
                    out.push(notify(n, OPENED_CODE));
                }
            },
            TransportEvent::Message(payload) => {
                if let Some(c) = &self.converter {
                    out.push(c(payload));
                }
            },
            TransportEvent::Close | TransportEvent::Error => {
                self.converter = None;
                if let Some(n) = self.notification.take() {
                    out.push(notify(&n, CLOSED_CODE));
                }
            },
        }
        out
    }

    /// Handles a batch of events in the order the transport fired them and
    /// returns the messages they dispatch, in that order: one for each notice
    /// that `run` gives, each made by the callback that the notice names.
    pub fn on_events(&mut self, events: Vec<TransportEvent>) -> (r: Vec<MSG>)
        requires
            old(self).wf(),
        ensures
            final(self).wf(),
            final(self).registrations() == run(old(self).registrations(), events@).0,
            final(self).converter_spec() is Some ==> final(self).converter_spec() == old(
                self,
            ).converter_spec(),
            final(self).notification_spec() is Some ==> final(self).notification_spec() == old(
                self,
            ).notification_spec(),
            r@.len() == run(old(self).registrations(), events@).1.len(),
            forall|i: int|
                0 <= i < r@.len() ==> delivers(
                    old(self).converter_spec(),
                    old(self).notification_spec(),
                    #[trigger] run(old(self).registrations(), events@).1[i],
                    r@[i],
                ),
    {
        let ghost w0 = self.registrations();
        let ghost conv0 = self.converter_spec();
        let ghost notif0 = self.notification_spec();
        let mut out: Vec<MSG> = Vec::new();
        let ghost all = events@;
        let mut rest = events;
        while rest.len() > 0
            invariant
                self.wf(),
                all == events@,
                rest@.len() <= all.len(),
                rest@ == all.subrange(all.len() - rest@.len(), all.len() as int),
                self.registrations() == run(w0, all.subrange(0, all.len() - rest@.len())).0,
                out@.len() == run(w0, all.subrange(0, all.len() - rest@.len())).1.len(),
                self.converter_spec() is Some ==> self.converter_spec() == conv0,
                self.notification_spec() is Some ==> self.notification_spec() == notif0,
                forall|i: int|
                    0 <= i < out@.len() ==> delivers(
                        conv0,
                        notif0,
                        #[trigger] run(w0, all.subrange(0, all.len() - rest@.len())).1[i],
                        out@[i],
                    ),
            decreases rest@.len(),
        {
            let ghost done = all.subrange(0, all.len() - rest@.len());
            let ghost k = all.len() - rest@.len();
            let event = rest.remove(0);
            proof {
                assert(all.subrange(0, k + 1) =~= done + seq![event]);
                assert(rest@ =~= all.subrange(k + 1, all.len() as int));
                lemma_run_append(w0, done, seq![event]);
                lemma_run_one(run(w0, done).0, event);
            }
            let mut next = self.on_event(event);
            out.append(&mut next);
        }
        assert(all.subrange(0, all.len() as int) =~= all);
        out
    }
}

} // verus!
