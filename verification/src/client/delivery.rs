//! What becomes of the connections that a relay brings to a client, over any operations.

use vstd::prelude::*;

use super::behaviour::{Action, Delivery, PendingNewConnection, PollStep, State};
use super::event::{ConnectionHandlerOutEvent, Event};
use super::laws::Operation;
use crate::address::Multiaddr;
use crate::connection::Connection;
use crate::swarm::{NetworkBehaviourAction, Polled};

verus! {

/// What becomes of a connection that a handler reported.
pub enum Fate<S> {
    /// It is sent to a listener.
    Sent { delivery: Delivery, connection: Connection<S> },
    /// The swarm is told that it cannot be delivered.
    Undeliverable { listen_addr: Multiaddr },
}

/// What has become of connections so far, as it is seen from the outside.
pub struct History<S> {
    /// The connections that handlers reported, in order.
    pub reported: Seq<PendingNewConnection<S>>,
    /// What became of the first of them, one by one.
    pub fates: Seq<Fate<S>>,
    /// The connection whose listener is being polled.
    pub polled: Option<PendingNewConnection<S>>,
}

/// A connection has become what is said of it: it was sent with its address, or the swarm was
/// told its address.
pub open spec fn became<S>(connection: PendingNewConnection<S>, fate: Fate<S>) -> bool {
    match fate {
        Fate::Sent { delivery, connection: sent } => {
            &&& sent == connection.connection
            &&& delivery.listen_addr == connection.listen_addr
        },
        Fate::Undeliverable { listen_addr } => listen_addr == connection.listen_addr,
    }
}

/// Nothing but errors of handlers is kept for the swarm.
pub open spec fn only_errors<O, D>(actions: Seq<Action<O, D>>) -> bool {
    forall|i: int|
        0 <= i < actions.len() ==> ((#[trigger] actions[i]) matches
            NetworkBehaviourAction::GenerateEvent(event) && event is OtherError)
}

impl<S, O, L, D> Operation<S, O, L, D> {
    /// A poll does one thing after the other: while a listener is being polled, the connection that
    /// it is polled for is the one that is answered for, and no other is looked for.
    pub open spec fn is_due(self, polled: Option<PendingNewConnection<S>>) -> bool {
        match self {
            Operation::ListenerReady(new_connection, _, _) => polled == Some(new_connection),
            Operation::Poll(_) | Operation::ListenerSent(_, _) => polled is None,
            _ => true,
        }
    }
}

impl<S> History<S> {
    /// The history after an operation that led to a step.
    pub open spec fn after<O, L, D>(
        self,
        operation: Operation<S, O, L, D>,
        step: Option<PollStep<S, O, D>>,
    ) -> Self {
        History {
            reported: match operation {
                Operation::HandlerEvent(
                    ConnectionHandlerOutEvent::NewConnection { listen_addr, connection },
                ) => self.reported.push(
                    PendingNewConnection { listen_addr, connection },
                ),
                _ => self.reported,
            },
            fates: match step {
                Some(PollStep::SendConnection { delivery, connection }) => self.fates.push(
                    Fate::Sent { delivery, connection },
                ),
                Some(
                    PollStep::Done(
                        Polled::Ready(
                            NetworkBehaviourAction::GenerateEvent(
                                Event::UnexpectedConnection { listen_addr },
                            ),
                        ),
                    ),
                ) => self.fates.push(Fate::Undeliverable { listen_addr }),
                Some(
                    PollStep::Done(
                        Polled::Ready(
                            NetworkBehaviourAction::GenerateEvent(
                                Event::UnexpectedListenerClosed { listen_addr, .. },
                            ),
                        ),
                    ),
                ) => if operation is ListenerReady {
                    self.fates.push(Fate::Undeliverable { listen_addr })
                } else {
                    self.fates
                },
                _ => self.fates,
            },
            polled: match step {
                Some(PollStep::PollListener { new_connection, .. }) => Some(new_connection),
                _ => if operation is ListenerReady {
                    None
                } else {
                    self.polled
                },
            },
        }
    }

    /// Each of the reported connections is accounted for, in the order of the reports: first those
    /// of which something became, each its own; then the one whose listener is being polled; then
    /// those that are queued.
    pub open spec fn accounts_for(self, queued: Seq<PendingNewConnection<S>>) -> bool {
        &&& self.fates.len() <= self.reported.len()
        &&& forall|i: int|
            0 <= i < self.fates.len() ==> became(self.reported[i], #[trigger] self.fates[i])
        &&& self.reported.skip(self.fates.len() as int) == match self.polled {
            Some(new_connection) => seq![new_connection] + queued,
            None => queued,
        }
    }
}

impl<S, O, L, D> State<S, O, L, D> {
    /// The step that an operation of a poll leads to.
    pub open spec fn step(self, operation: Operation<S, O, L, D>) -> Option<PollStep<S, O, D>> {
        match operation {
            Operation::Poll(received) => Some(self.poll(received).1),
            Operation::ListenerReady(new_connection, listener_id, readiness) => {
                Some(self.listener_ready(new_connection, listener_id, readiness).1)
            },
            Operation::ListenerSent(delivery, sent) => Some(self.listener_sent(delivery, sent).1),
            Operation::TransportReady(event, readiness) => {
                Some(self.transport_ready(event, readiness).1)
            },
            Operation::TransportSent(sent) => Some(self.transport_sent(sent).1),
            Operation::TransportFlushed(flushed) => Some(self.transport_flushed(flushed).1),
            _ => None,
        }
    }

    /// What the behaviour and the history become by one operation after the other.
    pub open spec fn follow(self, history: History<S>, operations: Seq<Operation<S, O, L, D>>) -> (
        Self,
        History<S>,
    )
        decreases operations.len(),
    {
        if operations.len() == 0 {
            (self, history)
        } else {
            self.apply(operations[0]).follow(
                history.after(operations[0], self.step(operations[0])),
                operations.drop_first(),
            )
        }
    }

    /// Each of the operations is due when it comes.
    pub open spec fn all_due(
        self,
        history: History<S>,
        operations: Seq<Operation<S, O, L, D>>,
    ) -> bool
        decreases operations.len(),
    {
        operations.len() > 0 ==> {
            &&& operations[0].is_due(history.polled)
            &&& self.apply(operations[0]).all_due(
                history.after(operations[0], self.step(operations[0])),
                operations.drop_first(),
            )
        }
    }
}

/// What is left for the swarm are errors as before.
proof fn lemma_errors_left<O, D>(actions: Seq<Action<O, D>>)
    requires
        only_errors(actions),
        actions.len() > 0,
    ensures
        actions[0] matches NetworkBehaviourAction::GenerateEvent(event) && event is OtherError,
        only_errors(actions.drop_first()),
{
    assert(actions[0] is GenerateEvent);
    let rest = actions.drop_first();
    assert forall|i: int| 0 <= i < rest.len() implies ((#[trigger] rest[i]) matches
        NetworkBehaviourAction::GenerateEvent(event) && event is OtherError) by {
        assert(rest[i] == actions[i + 1]);
    }
}

/// The next connection that is looked at is the first that is queued.
proof fn lemma_next_is_first<S, O, L, D>(
    s: State<S, O, L, D>,
    history: History<S>,
    operation: Operation<S, O, L, D>,
)
    requires
        only_errors(s.actions),
        history.accounts_for(s.new_connections),
        history.polled is None,
        operation !is HandlerEvent,
        operation !is ListenerReady,
    ensures
        ({
            let (after, step) = s.next_connection();
            &&& only_errors(after.actions)
            &&& history.after(operation, Some(step)).accounts_for(after.new_connections)
        }),
{
    if s.new_connections.len() > 0 {
        let first = s.new_connections[0];
        let rest = s.new_connections.drop_first();
        let k = history.fates.len() as int;
        assert(s.new_connections =~= seq![first] + rest);
        assert(history.reported.skip(k)[0] == first);
        assert(history.reported[k] == first);
        assert(history.reported.skip(k + 1) =~= history.reported.skip(k).drop_first());
    }
}

/// One operation that is due keeps the account.
proof fn lemma_operation_keeps_account<S, O, L, D>(
    s: State<S, O, L, D>,
    history: History<S>,
    operation: Operation<S, O, L, D>,
)
    requires
        only_errors(s.actions),
        history.accounts_for(s.new_connections),
        operation.is_due(history.polled),
    ensures
        only_errors(s.apply(operation).actions),
        history.after(operation, s.step(operation)).accounts_for(s.apply(operation).new_connections),
{
    let k = history.fates.len() as int;
    match operation {
        Operation::Poll(_) => {
            lemma_next_is_first(s, history, operation);
        },
        Operation::ListenerSent(delivery, Ok(_)) => {
            let told = s.tell(
                super::event::BehaviourToTransportEvent::ListenSuccess {
                    listener_id: delivery.listener_id,
                    local_addr: delivery.listen_addr,
                },
            );
            lemma_next_is_first(told, history, operation);
        },
        Operation::TransportFlushed(_) => {
            if s.actions.len() > 0 {
                lemma_errors_left(s.actions);
            }
        },
        Operation::ListenerReady(new_connection, listener_id, readiness) => {
            let queued = s.new_connections;
            assert(history.reported.skip(k) == seq![new_connection] + queued);
            assert((seq![new_connection] + queued).len() == queued.len() + 1);
            assert(history.reported.skip(k)[0] == new_connection);
            assert(history.reported[k] == new_connection);
            assert(history.reported.skip(k + 1) =~= history.reported.skip(k).drop_first());
            assert((seq![new_connection] + queued).drop_first() =~= queued);
        },
        Operation::HandlerEvent(ConnectionHandlerOutEvent::NewConnection { .. }) => {
            let reported = history.after(operation, s.step(operation)).reported;
            assert(reported.skip(k) =~= history.reported.skip(k).push(reported.last()));
            if let Some(new_connection) = history.polled {
                assert((seq![new_connection] + s.new_connections).push(reported.last())
                    =~= seq![new_connection] + s.new_connections.push(reported.last()));
            }
        },
        _ => {},
    }
}

/// No connection is lost, repeated or overtaken: after any operations that follow each other as the
/// steps of polls ask for, each connection that a handler reported was sent to a listener with its
/// address, or the swarm was told that it cannot be delivered, or it is still queued; and all this in
/// the order of the reports.
pub proof fn lemma_connections_are_accounted_for<S, O, L, D>(
    s: State<S, O, L, D>,
    history: History<S>,
    operations: Seq<Operation<S, O, L, D>>,
)
    requires
        only_errors(s.actions),
        history.accounts_for(s.new_connections),
        s.all_due(history, operations),
    ensures
        ({
            let (after, then) = s.follow(history, operations);
            then.accounts_for(after.new_connections)
        }),
    decreases operations.len(),
{
    if operations.len() > 0 {
        lemma_operation_keeps_account(s, history, operations[0]);
        lemma_connections_are_accounted_for(
            s.apply(operations[0]),
            history.after(operations[0], s.step(operations[0])),
            operations.drop_first(),
        );
    }
}

/// At any time, what is queued is accounted for as what was reported so far.
pub proof fn lemma_account_begins<S, O, L, D>(s: State<S, O, L, D>)
    ensures
        (History { reported: s.new_connections, fates: Seq::empty(), polled: None }).accounts_for(
            s.new_connections,
        ),
{
    assert(s.new_connections.skip(0) =~= s.new_connections);
}

} // verus!
