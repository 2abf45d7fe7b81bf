//! The transport of a client: dials and listens through the relay.

use std::collections::VecDeque;

use libp2p_core::transport::ListenerId;
use vstd::prelude::*;

use super::behaviour::Client;
use super::event::{BehaviourToTransportEvent, TransportToBehaviourEvent};
use crate::address::{Multiaddr, PeerId};
use crate::connection::Connection;
use crate::error::{Cause, IoError, IoErrorKind};
use crate::ids::next_listener_id;
use crate::swarm::{Polled, Received, TransportError, TransportEvent};
use crate::table::Key;

verus! {

/// Why the transport failed.
#[derive(Debug)]
pub enum Error {
    DialFailed(IoError),
    UnsupportedDialAsListener,
    ListenFailed(IoError),
}

impl Error {
    pub open spec fn text(self) -> Seq<char> {
        match self {
            Error::DialFailed(err) => "dial failed: "@ + err.text(),
            Error::UnsupportedDialAsListener => "unsupported dial as listener"@,
            Error::ListenFailed(err) => "listen failed: "@ + err.text(),
        }
    }

    /// The text that is shown for the error.
    pub fn message(&self) -> (r: String)
        ensures
            r@ == self.text(),
    {
        match self {
            Error::DialFailed(err) => "dial failed: ".to_owned().concat(err.message().as_str()),
            Error::UnsupportedDialAsListener => "unsupported dial as listener".to_owned(),
            Error::ListenFailed(err) => "listen failed: ".to_owned().concat(err.message().as_str()),
        }
    }
}

impl From<Error> for TransportError<Error> {
    fn from(value: Error) -> (r: Self) {
        TransportError::Other(value)
    }
}

impl vstd::std_specs::convert::FromSpecImpl<Error> for TransportError<Error> {
    open spec fn obeys_from_spec() -> bool {
        true
    }

    open spec fn from_spec(value: Error) -> Self {
        TransportError::Other(value)
    }
}

/// What the transport tells the swarm. A connection needs no further upgrade.
pub type Event<S> = TransportEvent<Result<Connection<S>, Error>, Error>;

/// A listener. It has ended when its receiver is gone.
#[derive(Debug)]
pub struct Listener<R> {
    pub local_addr: Multiaddr,
    pub listener_id: ListenerId,
    pub receiver: Option<R>,
}

impl<R> Listener<R> {
    /// The listener without its receiver.
    pub open spec fn ended(self) -> Self {
        Listener { receiver: None, ..self }
    }

    /// What the listener becomes, and what it gives, when polling its receiver gave `received`.
    pub open spec fn polled<S>(self, received: Received<Result<Connection<S>, IoError>>) -> (
        Self,
        Received<Event<S>>,
    ) {
        if self.receiver is None {
            (self, Received::Closed)
        } else {
            match received {
                Received::Pending => (self, Received::Pending),
                Received::Closed => (self, Received::Closed),
                Received::Item(Err(err)) => (
                    self.ended(),
                    Received::Item(
                        TransportEvent::ListenerError {
                            listener_id: self.listener_id,
                            error: Error::DialFailed(err),
                        },
                    ),
                ),
                Received::Item(Ok(connection)) => (
                    self,
                    Received::Item(
                        TransportEvent::Incoming {
                            listener_id: self.listener_id,
                            upgrade: Ok(connection),
                            local_addr: self.local_addr,
                            send_back_addr: connection.remote_addr,
                        },
                    ),
                ),
            }
        }
    }

    /// Goes on when the receiver was polled. A listener without a receiver gives nothing any more.
    pub fn poll_next<S>(&mut self, received: Received<Result<Connection<S>, IoError>>) -> (r:
        Received<Event<S>>)
        ensures
            (*final(self), r) == old(self).polled(received),
    {
        if self.receiver.is_none() {
            return Received::Closed;
        }
        match received {
            Received::Pending => Received::Pending,
            Received::Closed => Received::Closed,
            Received::Item(Err(err)) => {
                self.receiver = None;
                Received::Item(
                    TransportEvent::ListenerError {
                        listener_id: self.listener_id,
                        error: Error::DialFailed(err),
                    },
                )
            },
            Received::Item(Ok(connection)) => {
                let send_back_addr = connection.remote_addr().clone();
                Received::Item(
                    TransportEvent::Incoming {
                        listener_id: self.listener_id,
                        upgrade: Ok(connection),
                        local_addr: self.local_addr.clone(),
                        send_back_addr,
                    },
                )
            },
        }
    }
}

/// Where the first listener with an id stands; the number of listeners, if there is none.
pub open spec fn position<R>(listeners: Seq<Listener<R>>, id: ListenerId) -> nat
    decreases listeners.len(),
{
    if listeners.len() == 0 || listeners[0].listener_id == id {
        0
    } else {
        1 + position(listeners.drop_first(), id)
    }
}

/// The position of a listener, by what stands before it.
proof fn lemma_position<R>(listeners: Seq<Listener<R>>, id: ListenerId, at: nat)
    requires
        at <= listeners.len(),
        forall|i: int| 0 <= i < at ==> (#[trigger] listeners[i]).listener_id != id,
        at < listeners.len() ==> listeners[at as int].listener_id == id,
    ensures
        position(listeners, id) == at,
    decreases at,
{
    if at > 0 {
        let rest = listeners.drop_first();
        assert forall|i: int| 0 <= i < at - 1 implies (#[trigger] rest[i]).listener_id != id by {
            assert(rest[i] == listeners[i + 1]);
        }
        lemma_position(rest, id, (at - 1) as nat);
    }
}

/// What has to be done next in a poll of the transport.
#[derive(Debug)]
pub enum PollStep<S, O, L> {
    /// Poll the behaviour for another event; [`Transport::poll`] takes it.
    PollBehaviour,
    /// Poll the sender of the behaviour for room; [`Transport::behaviour_ready`] takes the answer.
    PollSender { event: TransportToBehaviourEvent<O, L> },
    /// Send the event to the behaviour, and go on with [`Transport::behaviour_sent`].
    SendEvent { event: TransportToBehaviourEvent<O, L> },
    /// Flush the sender of the behaviour, and go on with the listeners:
    /// [`Transport::listener_polled`] takes what their receivers give.
    FlushSender,
    /// The poll is over.
    Done(Polled<Event<S>>),
}

/// What the transport knows, as mathematical values.
#[verifier::ext_equal]
pub struct State<O, L, R> {
    pub local_peer_id: PeerId,
    pub relay_addr: Multiaddr,
    pub relay_peer_id: PeerId,
    /// What the behaviour is still to be asked.
    pub to_behaviour: Seq<TransportToBehaviourEvent<O, L>>,
    pub listeners: Seq<Listener<R>>,
}

impl<O, L, R> State<O, L, R> {
    /// A listener with this id is there.
    pub open spec fn has_listener(self, id: ListenerId) -> bool {
        position(self.listeners, id) < self.listeners.len()
    }

    /// The first listener with an id.
    pub open spec fn listener(self, id: ListenerId) -> Listener<R> {
        self.listeners[position(self.listeners, id) as int]
    }

    pub open spec fn with_listener(self, id: ListenerId, listener: Listener<R>) -> Self {
        State {
            listeners: self.listeners.update(position(self.listeners, id) as int, listener),
            ..self
        }
    }

    pub open spec fn listen(
        self,
        listener_id: ListenerId,
        addr: Multiaddr,
        connection_sender: L,
        receiver: R,
    ) -> Self {
        State {
            to_behaviour: self.to_behaviour.push(
                TransportToBehaviourEvent::Listen {
                    listener_id,
                    local_peer_id: self.local_peer_id,
                    local_addr: addr,
                    relay_peer_id: self.relay_peer_id,
                    relay_addr: self.relay_addr,
                    connection_sender,
                },
            ),
            listeners: self.listeners.push(
                Listener { local_addr: addr, listener_id, receiver: Some(receiver) },
            ),
            ..self
        }
    }

    pub open spec fn remove_listener(self, id: ListenerId) -> Self {
        if self.has_listener(id) {
            self.with_listener(id, self.listener(id).ended())
        } else {
            self
        }
    }

    pub open spec fn dial(self, addr: Multiaddr, connection_sender: O) -> Self {
        State {
            to_behaviour: self.to_behaviour.push(
                TransportToBehaviourEvent::Dial {
                    dst_addr: addr,
                    relay_addr: self.relay_addr,
                    connection_sender,
                },
            ),
            ..self
        }
    }

    /// Begins or goes on with a poll when the behaviour was polled for an event.
    pub open spec fn poll<S>(self, received: Received<BehaviourToTransportEvent>) -> (
        Self,
        PollStep<S, O, L>,
    ) {
        match received {
            Received::Item(BehaviourToTransportEvent::ListenSuccess { listener_id, local_addr }) => (
                self,
                PollStep::Done(
                    Polled::Ready(
                        TransportEvent::NewAddress { listener_id, listen_addr: local_addr },
                    ),
                ),
            ),
            Received::Item(
                BehaviourToTransportEvent::ListenFailed { err, listener_id, local_addr: _ },
            ) => (
                self.remove_listener(listener_id),
                PollStep::Done(
                    Polled::Ready(
                        TransportEvent::ListenerError {
                            listener_id,
                            error: Error::ListenFailed(err),
                        },
                    ),
                ),
            ),
            Received::Item(BehaviourToTransportEvent::PeerClosed { .. }) => (
                self,
                PollStep::PollBehaviour,
            ),
            _ => self.next_event(),
        }
    }

    /// Goes on with the next event for the behaviour, or, when there is none, with flushing.
    pub open spec fn next_event<S>(self) -> (Self, PollStep<S, O, L>) {
        if self.to_behaviour.len() > 0 {
            (
                State { to_behaviour: self.to_behaviour.drop_first(), ..self },
                PollStep::PollSender { event: self.to_behaviour[0] },
            )
        } else {
            (self, PollStep::FlushSender)
        }
    }

    pub open spec fn behaviour_ready<S>(
        self,
        event: TransportToBehaviourEvent<O, L>,
        ready: bool,
    ) -> (Self, PollStep<S, O, L>) {
        if ready {
            (self, PollStep::SendEvent { event })
        } else {
            (
                State { to_behaviour: seq![event] + self.to_behaviour, ..self },
                PollStep::FlushSender,
            )
        }
    }

    /// What the transport becomes, and what the poll of a listener gives. A listener that has ended
    /// is dropped.
    pub open spec fn listener_polled<S>(
        self,
        id: ListenerId,
        received: Received<Result<Connection<S>, IoError>>,
    ) -> (Self, Received<Event<S>>) {
        let (listener, polled) = self.listener(id).polled(received);
        (
            if polled is Closed {
                State {
                    listeners: self.listeners.remove(position(self.listeners, id) as int),
                    ..self
                }
            } else {
                self.with_listener(id, listener)
            },
            polled,
        )
    }
}

/// The transport of a client. Dialed connections go to senders of type `O`; those of a listener go
/// from a sender of type `L` to a receiver of type `R`.
#[derive(Debug)]
pub struct Transport<O, L, R> {
    pub local_peer_id: PeerId,
    pub relay_addr: Multiaddr,
    pub relay_peer_id: PeerId,
    pub pending_to_behaviour: VecDeque<TransportToBehaviourEvent<O, L>>,
    pub listeners: Vec<Listener<R>>,
}

impl<O, L, R> View for Transport<O, L, R> {
    type V = State<O, L, R>;

    open spec fn view(&self) -> State<O, L, R> {
        State {
            local_peer_id: self.local_peer_id,
            relay_addr: self.relay_addr,
            relay_peer_id: self.relay_peer_id,
            to_behaviour: self.pending_to_behaviour@,
            listeners: self.listeners@,
        }
    }
}

impl<O, L, R> Transport<O, L, R> {
    /// A transport that listens nowhere, and the behaviour that goes with it.
    pub fn new<S, D>(local_peer_id: PeerId, relay_addr: Multiaddr, relay_peer_id: PeerId) -> (r: (
        Self,
        Client<S, O, L, D>,
    ))
        ensures
            r.0@ == (State::<O, L, R> {
                local_peer_id,
                relay_addr,
                relay_peer_id,
                to_behaviour: Seq::empty(),
                listeners: Seq::empty(),
            }),
            r.1.wf(),
            r.1@ == (super::behaviour::State::<S, O, L, D> {
                peer_id: local_peer_id,
                listeners: Map::empty(),
                new_connections: Seq::empty(),
                actions: Seq::empty(),
                to_transport: Seq::empty(),
            }),
    {
        let client = Client::new(local_peer_id.clone());
        (
            Transport {
                local_peer_id,
                relay_addr,
                relay_peer_id,
                pending_to_behaviour: VecDeque::new(),
                listeners: Vec::new(),
            },
            client,
        )
    }

    /// Where the first listener with an id stands.
    fn find(&self, id: &ListenerId) -> (r: Option<usize>)
        ensures
            match r {
                Some(i) => i == position(self.listeners@, *id) && i < self.listeners@.len(),
                None => position(self.listeners@, *id) == self.listeners@.len(),
            },
    {
        let mut i: usize = 0;
        while i < self.listeners.len()
            invariant
                i <= self.listeners@.len(),
                forall|j: int| 0 <= j < i ==> (#[trigger] self.listeners@[j]).listener_id != *id,
            decreases self.listeners.len() - i,
        {
            if self.listeners[i].listener_id.same(id) {
                proof {
                    lemma_position(self.listeners@, *id, i as nat);
                }
                return Some(i);
            }
            i = i + 1;
        }
        proof {
            lemma_position(self.listeners@, *id, i as nat);
        }
        None
    }

    /// Listens on an address under an id that is given.
    pub fn listen_as(
        &mut self,
        listener_id: ListenerId,
        addr: Multiaddr,
        connection_sender: L,
        receiver: R,
    )
        ensures
            final(self)@ == old(self)@.listen(listener_id, addr, connection_sender, receiver),
    {
        self.pending_to_behaviour.push_back(
            TransportToBehaviourEvent::Listen {
                listener_id,
                local_peer_id: self.local_peer_id.clone(),
                local_addr: addr.clone(),
                relay_peer_id: self.relay_peer_id.clone(),
                relay_addr: self.relay_addr.clone(),
                connection_sender,
            },
        );
        self.listeners.push(Listener { local_addr: addr, listener_id, receiver: Some(receiver) });
    }

    /// The ids of the listeners.
    fn ids(&self) -> (r: Vec<ListenerId>)
        ensures
            r@.len() == self.listeners@.len(),
            forall|i: int| 0 <= i < r@.len() ==> #[trigger] r@[i] == self.listeners@[i].listener_id,
    {
        let mut ids: Vec<ListenerId> = Vec::new();
        let mut i: usize = 0;
        while i < self.listeners.len()
            invariant
                i <= self.listeners@.len(),
                ids@.len() == i,
                forall|j: int| 0 <= j < i ==> #[trigger] ids@[j] == self.listeners@[j].listener_id,
            decreases self.listeners.len() - i,
        {
            ids.push(self.listeners[i].listener_id);
            i = i + 1;
        }
        ids
    }

    /// Listens on an address under a fresh id, which no listener has yet. It never fails.
    pub fn listen_on(&mut self, addr: Multiaddr, connection_sender: L, receiver: R) -> (r: Result<
        ListenerId,
        TransportError<Error>,
    >)
        ensures
            r is Ok,
            !old(self)@.has_listener(r->Ok_0),
            final(self)@ == old(self)@.listen(r->Ok_0, addr, connection_sender, receiver),
    {
        let drawn = self.ids();
        let listener_id = next_listener_id(&drawn);
        proof {
            let listeners = self.listeners@;
            assert forall|i: int| 0 <= i < listeners.len() implies (
            #[trigger] listeners[i]).listener_id != listener_id by {
                assert(drawn@[i] == listeners[i].listener_id);
            }
            lemma_position(listeners, listener_id, listeners.len());
        }
        self.listen_as(listener_id, addr, connection_sender, receiver);
        Ok(listener_id)
    }

    /// Ends the listener with an id, and says whether there is one. It is dropped the next time
    /// that it is polled.
    pub fn remove_listener(&mut self, id: ListenerId) -> (r: bool)
        ensures
            r == old(self)@.has_listener(id),
            final(self)@ == old(self)@.remove_listener(id),
    {
        match self.find(&id) {
            Some(i) => {
                let listener = &mut self.listeners[i];
                listener.receiver = None;
                true
            },
            None => false,
        }
    }

    /// Asks the behaviour for a connection. What the sender is given goes to [`dialed`].
    pub fn dial(&mut self, addr: Multiaddr, connection_sender: O)
        ensures
            final(self)@ == old(self)@.dial(addr, connection_sender),
    {
        self.pending_to_behaviour.push_back(
            TransportToBehaviourEvent::Dial {
                dst_addr: addr,
                relay_addr: self.relay_addr.clone(),
                connection_sender,
            },
        );
    }

    /// Always fails: a relay cannot be dialed through as a listener.
    pub fn dial_as_listener(&mut self, _addr: Multiaddr) -> (r: Result<(), TransportError<Error>>)
        ensures
            r == Err::<(), _>(TransportError::Other(Error::UnsupportedDialAsListener)),
            *final(self) == *old(self),
    {
        Err(TransportError::from(Error::UnsupportedDialAsListener))
    }

    /// Goes on with the next event for the behaviour, or with flushing.
    fn next_event<S>(&mut self) -> (step: PollStep<S, O, L>)
        ensures
            (final(self)@, step) == old(self)@.next_event::<S>(),
    {
        match self.pending_to_behaviour.pop_front() {
            Some(event) => PollStep::PollSender { event },
            None => PollStep::FlushSender,
        }
    }

    /// Begins or goes on with a poll when the behaviour was polled for an event. The behaviour must
    /// not be gone.
    pub fn poll<S>(&mut self, received: Received<BehaviourToTransportEvent>) -> (step: PollStep<
        S,
        O,
        L,
    >)
        requires
            received !is Closed,
        ensures
            (final(self)@, step) == old(self)@.poll::<S>(received),
    {
        match received {
            Received::Item(BehaviourToTransportEvent::ListenSuccess { listener_id, local_addr }) => {
                PollStep::Done(
                    Polled::Ready(
                        TransportEvent::NewAddress { listener_id, listen_addr: local_addr },
                    ),
                )
            },
            Received::Item(
                BehaviourToTransportEvent::ListenFailed { err, listener_id, local_addr: _ },
            ) => {
                self.remove_listener(listener_id);
                PollStep::Done(
                    Polled::Ready(
                        TransportEvent::ListenerError {
                            listener_id,
                            error: Error::ListenFailed(err),
                        },
                    ),
                )
            },
            Received::Item(BehaviourToTransportEvent::PeerClosed { .. }) => PollStep::PollBehaviour,
            _ => self.next_event(),
        }
    }

    /// Goes on when the sender of the behaviour was polled for room.
    pub fn behaviour_ready<S>(
        &mut self,
        event: TransportToBehaviourEvent<O, L>,
        ready: bool,
    ) -> (step: PollStep<S, O, L>)
        ensures
            (final(self)@, step) == old(self)@.behaviour_ready::<S>(event, ready),
    {
        if ready {
            PollStep::SendEvent { event }
        } else {
            // wait for the next poll
            let ghost before = self@;
            self.pending_to_behaviour.push_front(event);
            assert(self@ =~= State { to_behaviour: seq![event] + before.to_behaviour, ..before });
            PollStep::FlushSender
        }
    }

    /// Goes on when an event was sent to the behaviour.
    pub fn behaviour_sent<S>(&mut self) -> (step: PollStep<S, O, L>)
        ensures
            (final(self)@, step) == old(self)@.next_event::<S>(),
    {
        self.next_event()
    }

    /// Goes on when the receiver of a listener was polled, and says what the listener gives. An
    /// item of it ends the poll.
    pub fn listener_polled<S>(
        &mut self,
        id: ListenerId,
        received: Received<Result<Connection<S>, IoError>>,
    ) -> (r: Received<Event<S>>)
        ensures
            old(self)@.has_listener(id) ==> (final(self)@, r) == old(self)@.listener_polled(
                id,
                received,
            ),
            !old(self)@.has_listener(id) ==> (final(self)@, r) == (
                old(self)@,
                Received::<Event<S>>::Closed,
            ),
    {
        match self.find(&id) {
            Some(i) => {
                let ghost before = self@;
                let listener = &mut self.listeners[i];
                let polled = listener.poll_next(received);
                match polled {
                    Received::Closed => {
                        self.listeners.remove(i);
                        assert(self@ =~= before.listener_polled(id, received).0);
                        Received::Closed
                    },
                    polled => {
                        assert(self@ =~= before.listener_polled(id, received).0);
                        polled
                    },
                }
            },
            None => Received::Closed,
        }
    }
}

/// What a dial comes to, by what its sender was given.
pub open spec fn dial_result<S>(outcome: Option<Result<Connection<S>, IoError>>) -> Result<
    Connection<S>,
    Error,
> {
    match outcome {
        None => Err(
            Error::DialFailed(
                IoError::Caused {
                    kind: IoErrorKind::Other,
                    cause: Cause::ConnectionSenderDropped,
                },
            ),
        ),
        Some(Err(err)) => Err(Error::DialFailed(err)),
        Some(Ok(connection)) => Ok(connection),
    }
}

/// What a dial comes to, by what its sender was given; `None` if the sender was dropped.
pub fn dialed<S>(outcome: Option<Result<Connection<S>, IoError>>) -> (r: Result<
    Connection<S>,
    Error,
>)
    ensures
        r == dial_result(outcome),
{
    match outcome {
        None => Err(
            Error::DialFailed(
                IoError::Caused {
                    kind: IoErrorKind::Other,
                    cause: Cause::ConnectionSenderDropped,
                },
            ),
        ),
        Some(Err(err)) => Err(Error::DialFailed(err)),
        Some(Ok(connection)) => Ok(connection),
    }
}

} // verus!
