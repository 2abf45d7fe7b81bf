//! What a whole poll of an endpoint comes to, from its first step to its last.

use vstd::prelude::*;

use super::behaviour::{PollStep, State};
use super::event::{BehaviourToTransportEvent, TransportToBehaviourEvent};
use super::laws::lemma_untold;
use crate::swarm::Readiness;

verus! {

/// The channel to a transport: how many events it has room for, and whether the transport still
/// takes any.
pub struct Channel {
    pub room: nat,
    pub open: bool,
}

/// What comes of the delivery of a connection to its listener.
pub enum Delivered<D> {
    /// The listener has no room.
    Waits,
    /// The listener is gone when it is polled for room.
    NotReady(D),
    /// The listener is gone when the connection is sent.
    NotSent(D),
    /// The listener is gone when it is flushed.
    NotFlushed(D),
    /// The listener has got the connection.
    Taken,
}

/// How much of a queue a channel takes.
pub open spec fn taken(queue: Seq<BehaviourToTransportEvent>, channel: Channel) -> int {
    if queue.len() <= channel.room {
        queue.len() as int
    } else {
        channel.room as int
    }
}

/// Every channel is open.
pub open spec fn all_open(channels: Seq<Channel>) -> bool {
    forall|i: int| 0 <= i < channels.len() ==> (#[trigger] channels[i]).open
}

impl<S, O, L, T, D> State<S, O, L, T, D> {
    /// How far the transports are from being told everything.
    pub open spec fn left(self, step: PollStep<S, O, D>) -> nat {
        match step {
            PollStep::PollTransport { at, .. } => if at < self.relays.len() {
                (self.relays.len() - at) as nat
            } else {
                0
            },
            _ => 0,
        }
    }

    /// How much is still queued for the transport that is being told.
    pub open spec fn left_at(self, step: PollStep<S, O, D>) -> nat {
        match step {
            PollStep::PollTransport { at, .. } => self.to_transport[self.relays[at as int]].len(),
            _ => 0,
        }
    }

    /// Tells the transports, from a step on: what the state and the step come to, and what each
    /// transport was told. `told` is what each was told before.
    pub open spec fn tell_transports(
        self,
        step: PollStep<S, O, D>,
        channels: Seq<Channel>,
        told: Seq<Seq<BehaviourToTransportEvent>>,
    ) -> (Self, PollStep<S, O, D>, Seq<Seq<BehaviourToTransportEvent>>)
        decreases self.left(step), self.left_at(step),
    {
        match step {
            PollStep::PollTransport { at, event } => {
                if !(at < self.relays.len() <= usize::MAX) {
                    (self, step, told)
                } else if told[at as int].len() < channels[at as int].room {
                    let (ready, _) = self.transport_ready(at as int, event, Readiness::Ready);
                    let (sent, next) = ready.transport_sent(at as int, true);
                    proof {
                        lemma_untold(self, at as int);
                    }
                    sent.tell_transports(
                        next,
                        channels,
                        told.update(at as int, told[at as int].push(event)),
                    )
                } else {
                    let (refused, next) = self.transport_ready(
                        at as int,
                        event,
                        if channels[at as int].open {
                            Readiness::Pending
                        } else {
                            Readiness::Failed(())
                        },
                    );
                    proof {
                        let relay = self.relays[at as int];
                        lemma_untold(
                            State {
                                to_transport: self.to_transport.insert(
                                    relay,
                                    seq![event] + self.to_transport[relay],
                                ),
                                ..self
                            },
                            at + 1,
                        );
                    }
                    refused.tell_transports(next, channels, told)
                }
            },
            _ => (self, step, told),
        }
    }

    /// Delivers connections, from a step on, each with the outcome that stands in `deliveries`.
    /// Behind the last of these, the listeners have no room.
    pub open spec fn deliver(
        self,
        step: PollStep<S, O, D>,
        deliveries: Seq<Delivered<D>>,
    ) -> (Self, PollStep<S, O, D>)
        decreases deliveries.len(),
    {
        match step {
            PollStep::PollListener { new_connection, listener_id } => {
                let outcome = if deliveries.len() > 0 {
                    deliveries[0]
                } else {
                    Delivered::Waits
                };
                match outcome {
                    Delivered::Waits => self.listener_ready(
                        new_connection,
                        listener_id,
                        Readiness::Pending,
                    ),
                    Delivered::NotReady(err) => self.listener_ready(
                        new_connection,
                        listener_id,
                        Readiness::Failed(err),
                    ),
                    Delivered::NotSent(err) => {
                        let (ready, send) = self.listener_ready(
                            new_connection,
                            listener_id,
                            Readiness::Ready,
                        );
                        ready.listener_sent(send->SendConnection_delivery, Err(err))
                    },
                    Delivered::NotFlushed(err) => {
                        let (ready, send) = self.listener_ready(
                            new_connection,
                            listener_id,
                            Readiness::Ready,
                        );
                        let (sent, flush) = ready.listener_sent(
                            send->SendConnection_delivery,
                            Ok(()),
                        );
                        sent.listener_flushed(flush->FlushListener_delivery, Err(err))
                    },
                    Delivered::Taken => {
                        let (ready, send) = self.listener_ready(
                            new_connection,
                            listener_id,
                            Readiness::Ready,
                        );
                        let (sent, flush) = ready.listener_sent(
                            send->SendConnection_delivery,
                            Ok(()),
                        );
                        let (flushed, next) = sent.listener_flushed(
                            flush->FlushListener_delivery,
                            Ok(()),
                        );
                        if deliveries.len() > 0 {
                            flushed.deliver(next, deliveries.drop_first())
                        } else {
                            (flushed, next)
                        }
                    },
                }
            },
            _ => (self, step),
        }
    }

    /// A whole poll: what the state and the last step come to, and what each transport was told.
    pub open spec fn whole_poll(
        self,
        received: Option<TransportToBehaviourEvent<O, L>>,
        deliveries: Seq<Delivered<D>>,
        channels: Seq<Channel>,
    ) -> (Self, PollStep<S, O, D>, Seq<Seq<BehaviourToTransportEvent>>) {
        let (begun, first) = self.poll(received);
        let (delivered, next) = begun.deliver(first, deliveries);
        delivered.tell_transports(next, channels, Seq::new(self.relays.len(), |i: int| Seq::empty()))
    }

    /// Up to a position the transports were told as much as they take; the others, what is missing
    /// in their queues.
    pub open spec fn told_up_to(
        self,
        from: int,
        queues: Seq<Seq<BehaviourToTransportEvent>>,
        channels: Seq<Channel>,
        told: Seq<Seq<BehaviourToTransportEvent>>,
    ) -> bool {
        &&& self.relays.no_duplicates()
        &&& self.relays.len() <= usize::MAX
        &&& queues.len() == self.relays.len()
        &&& channels.len() == self.relays.len()
        &&& told.len() == self.relays.len()
        &&& forall|i: int|
            0 <= i < from && i < self.relays.len() ==> {
                &&& #[trigger] told[i] == queues[i].take(taken(queues[i], channels[i]))
                &&& self.to_transport[self.relays[i]] == queues[i].skip(
                    taken(queues[i], channels[i]),
                )
            }
        &&& forall|i: int|
            from <= i < self.relays.len() ==> {
                &&& (#[trigger] told[i]).len() <= channels[i].room
                &&& told[i] + self.to_transport[self.relays[i]] == queues[i]
            }
    }
}

/// How far the transports were told depends on nothing but their queues.
proof fn lemma_same_queues<S, O, L, T, D>(
    s: State<S, O, L, T, D>,
    other: State<S, O, L, T, D>,
    from: int,
    queues: Seq<Seq<BehaviourToTransportEvent>>,
    channels: Seq<Channel>,
    told: Seq<Seq<BehaviourToTransportEvent>>,
)
    requires
        s.told_up_to(from, queues, channels, told),
        other.relays == s.relays,
        forall|i: int|
            0 <= i < s.relays.len() ==> other.to_transport[#[trigger] s.relays[i]]
                == s.to_transport[s.relays[i]],
        0 <= from,
    ensures
        other.told_up_to(from, queues, channels, told),
{
}

/// A poll is over, and the transports were told the first events of their queues: if all channels
/// are open, as many as these have room for.
pub open spec fn well_told<S, O, L, T, D>(
    relays: Seq<Seq<u8>>,
    queues: Seq<Seq<BehaviourToTransportEvent>>,
    channels: Seq<Channel>,
    outcome: (State<S, O, L, T, D>, PollStep<S, O, D>, Seq<Seq<BehaviourToTransportEvent>>),
) -> bool {
    let (after, last, told) = outcome;
    &&& last is Done
    &&& told.len() == relays.len()
    &&& forall|i: int|
        0 <= i < told.len() ==> (#[trigger] told[i]).is_prefix_of(queues[i]) && told[i].len()
            <= channels[i].room
    &&& all_open(channels) ==> forall|i: int|
        0 <= i < told.len() ==> {
            &&& #[trigger] told[i] == queues[i].take(taken(queues[i], channels[i]))
            &&& after.to_transport[relays[i]] == queues[i].skip(taken(queues[i], channels[i]))
        }
}

/// When the last transport was told as much as it takes, so were all.
proof fn lemma_all_told<S, O, L, T, D>(
    s: State<S, O, L, T, D>,
    queues: Seq<Seq<BehaviourToTransportEvent>>,
    channels: Seq<Channel>,
    told: Seq<Seq<BehaviourToTransportEvent>>,
    last: PollStep<S, O, D>,
)
    requires
        s.told_up_to(s.relays.len() as int, queues, channels, told),
        last is Done,
    ensures
        well_told(s.relays, queues, channels, (s, last, told)),
{
    assert forall|i: int| 0 <= i < told.len() implies (#[trigger] told[i]).is_prefix_of(queues[i])
        && told[i].len() <= channels[i].room by {
        assert(told[i] == queues[i].take(taken(queues[i], channels[i])));
    }
}

/// From a position on, the transports are told what their channels take.
proof fn lemma_told_from<S, O, L, T, D>(
    s: State<S, O, L, T, D>,
    from: int,
    queues: Seq<Seq<BehaviourToTransportEvent>>,
    channels: Seq<Channel>,
    told: Seq<Seq<BehaviourToTransportEvent>>,
)
    requires
        0 <= from <= s.relays.len(),
        s.told_up_to(from, queues, channels, told),
    ensures
        well_told(
            s.relays,
            queues,
            channels,
            s.next_transport(from).0.tell_transports(s.next_transport(from).1, channels, told),
        ),
    decreases s.relays.len() - from, s.to_transport[s.relays[from]].len(),
{
    reveal_with_fuel(State::tell_transports, 2);
    lemma_untold(s, from);
    let at = s.first_untold(from);
    let (next, step) = s.next_transport(from);
    assert forall|i: int| from <= i < at && i < s.relays.len() implies {
        &&& #[trigger] told[i] == queues[i].take(taken(queues[i], channels[i]))
        &&& s.to_transport[s.relays[i]] == queues[i].skip(taken(queues[i], channels[i]))
    } by {
        assert(s.to_transport[s.relays[i]].len() == 0);
        assert(told[i] + s.to_transport[s.relays[i]] =~= told[i]);
        assert(queues[i].take(queues[i].len() as int) =~= queues[i]);
        assert(queues[i].skip(queues[i].len() as int) =~= s.to_transport[s.relays[i]]);
    }
    assert forall|i: int| 0 <= i < told.len() implies (#[trigger] told[i]).is_prefix_of(queues[i])
        && told[i].len() <= channels[i].room by {
        if i >= from {
            assert(told[i] + s.to_transport[s.relays[i]] == queues[i]);
        }
    }
    if at < s.relays.len() {
        let relay = s.relays[at];
        let events = s.to_transport[relay];
        let event = events[0];
        assert(step == (PollStep::<S, O, D>::PollTransport { at: at as usize, event }));
        assert((at as usize) as int == at);
        assert forall|i: int| 0 <= i < s.relays.len() && i != at implies next.to_transport[
        #[trigger] s.relays[i]] == s.to_transport[s.relays[i]] by {}
        if told[at].len() < channels[at].room {
            let more = told.update(at, told[at].push(event));
            assert(told[at].push(event) + events.drop_first() =~= told[at] + events);
            assert forall|i: int| 0 <= i < at implies {
                &&& #[trigger] more[i] == queues[i].take(taken(queues[i], channels[i]))
                &&& next.to_transport[s.relays[i]] == queues[i].skip(taken(queues[i], channels[i]))
            } by {
                assert(more[i] == told[i]);
                assert(next.to_transport[s.relays[i]] == s.to_transport[s.relays[i]]);
            }
            assert forall|i: int| at <= i < s.relays.len() implies {
                &&& (#[trigger] more[i]).len() <= channels[i].room
                &&& more[i] + next.to_transport[s.relays[i]] == queues[i]
            } by {
                assert(told[i] + s.to_transport[s.relays[i]] == queues[i]);
                if i > at {
                    assert(more[i] == told[i]);
                    assert(next.to_transport[s.relays[i]] == s.to_transport[s.relays[i]]);
                }
            }
            assert(next.told_up_to(at, queues, channels, more));
            lemma_told_from(next, at, queues, channels, more);
            let (sent, after_sent) = next.next_transport(at);
            assert(next.tell_transports(step, channels, told) == sent.tell_transports(
                after_sent,
                channels,
                more,
            ));
        } else if channels[at].open {
            let back = State {
                to_transport: next.to_transport.insert(
                    relay,
                    seq![event] + next.to_transport[relay],
                ),
                ..next
            };
            assert(seq![event] + events.drop_first() =~= events);
            assert(told[at] + events == queues[at]);
            assert(taken(queues[at], channels[at]) == told[at].len());
            assert(told[at] =~= queues[at].take(told[at].len() as int));
            assert(events =~= queues[at].skip(told[at].len() as int));
            assert forall|i: int| 0 <= i < s.relays.len() implies back.to_transport[
            #[trigger] s.relays[i]] == s.to_transport[s.relays[i]] by {}
            assert(s.told_up_to(at + 1, queues, channels, told));
            lemma_same_queues(s, back, at + 1, queues, channels, told);
            lemma_told_from(back, at + 1, queues, channels, told);
            let (refused, after_refused) = back.next_transport(at + 1);
            assert(next.tell_transports(step, channels, told) == refused.tell_transports(
                after_refused,
                channels,
                told,
            ));
        } else {
            assert(next.tell_transports(step, channels, told).1 is Done);
            assert(next.tell_transports(step, channels, told).2 == told);
            assert(!all_open(channels));
        }
    } else {
        assert(next.tell_transports(step, channels, told) == (next, step, told));
        assert(s.told_up_to(s.relays.len() as int, queues, channels, told));
        lemma_same_queues(s, next, s.relays.len() as int, queues, channels, told);
        lemma_all_told(next, queues, channels, told, step);
    }
}

/// When a poll comes to the transports, each of them is told the first events of its queue, in
/// order, as many as its channel has room for; the others stay queued. Even if a transport is gone,
/// none is told anything but the first events of its queue.
pub proof fn lemma_transports_are_told<S, O, L, T, D>(
    s: State<S, O, L, T, D>,
    channels: Seq<Channel>,
)
    requires
        s.relays.no_duplicates(),
        s.relays.len() <= usize::MAX,
        channels.len() == s.relays.len(),
    ensures
        well_told(
            s.relays,
            Seq::new(s.relays.len(), |i: int| s.to_transport[s.relays[i]]),
            channels,
            s.next_transport(0).0.tell_transports(
                s.next_transport(0).1,
                channels,
                Seq::new(s.relays.len(), |i: int| Seq::empty()),
            ),
        ),
{
    let told = Seq::new(s.relays.len(), |i: int| Seq::<BehaviourToTransportEvent>::empty());
    let queues = Seq::new(s.relays.len(), |i: int| s.to_transport[s.relays[i]]);
    assert forall|i: int| 0 <= i < s.relays.len() implies #[trigger] told[i]
        + s.to_transport[s.relays[i]] == queues[i] by {
        assert(told[i] + s.to_transport[s.relays[i]] =~= queues[i]);
    }
    lemma_told_from(s, 0, queues, channels, told);
}

/// The transports of a state have at least what those of another have still to be told.
pub open spec fn grown<S, O, L, T, D>(
    before: State<S, O, L, T, D>,
    after: State<S, O, L, T, D>,
) -> bool {
    &&& after.relays == before.relays
    &&& forall|relay: Seq<u8>| #[trigger]
        before.to_transport.contains_key(relay) ==> {
            &&& after.to_transport.contains_key(relay)
            &&& before.to_transport[relay].is_prefix_of(after.to_transport[relay])
        }
}

/// A poll has come to the transports, and they have at least as much to be told as before.
pub open spec fn comes_to_transports<S, O, L, T, D>(
    before: State<S, O, L, T, D>,
    after: State<S, O, L, T, D>,
    step: PollStep<S, O, D>,
) -> bool {
    exists|s: State<S, O, L, T, D>|
        grown(before, s) && (after, step) == #[trigger] s.next_transport(0)
}

/// A poll that does not come to an end before it delivers connections, or tells the transports.
proof fn lemma_next_connection<S, O, L, T, D>(
    before: State<S, O, L, T, D>,
    s: State<S, O, L, T, D>,
)
    requires
        grown(before, s),
    ensures
        ({
            let (after, step) = s.next_connection();
            ||| (step is PollListener || step is Done) && grown(before, after)
            ||| comes_to_transports(before, after, step)
        }),
{
}

/// When the connections are delivered, the poll is over or comes to the transports.
proof fn lemma_delivered<S, O, L, T, D>(
    before: State<S, O, L, T, D>,
    s: State<S, O, L, T, D>,
    step: PollStep<S, O, D>,
    deliveries: Seq<Delivered<D>>,
)
    requires
        ((step is PollListener || step is Done) && grown(before, s)) || comes_to_transports(
            before,
            s,
            step,
        ),
    ensures
        ({
            let (after, next) = s.deliver(step, deliveries);
            ||| next is Done && grown(before, after)
            ||| comes_to_transports(before, after, next)
        }),
    decreases deliveries.len(),
{
    match step {
        PollStep::PollListener { new_connection, listener_id } => {
            if comes_to_transports(before, s, step) {
                let x = choose|x: State<S, O, L, T, D>|
                    grown(before, x) && (s, step) == #[trigger] x.next_transport(0);
                assert(false);
            }
            let outcome = if deliveries.len() > 0 {
                deliveries[0]
            } else {
                Delivered::Waits
            };
            match outcome {
                Delivered::Waits => {
                    let waits = State {
                        new_connections: seq![new_connection] + s.new_connections,
                        ..s
                    };
                    assert(grown(before, waits));
                    assert(s.deliver(step, deliveries) == waits.next_transport(0));
                },
                Delivered::Taken => {
                    let told = s.tell(
                        new_connection.relay_peer_id@,
                        BehaviourToTransportEvent::ListenSuccess {
                            listener_id,
                            listen_addr: new_connection.listen_addr,
                        },
                    );
                    assert(grown(before, told));
                    lemma_next_connection(before, told);
                    let (flushed, next) = told.next_connection();
                    lemma_delivered(before, flushed, next, deliveries.drop_first());
                },
                _ => {},
            }
        },
        _ => {},
    }
}

/// In one poll each transport is told events in the order of its queue, no more than its channel has
/// room for, and nothing that was queued is passed over: what a transport is told and its queue
/// begin alike. As long as all channels are open nothing is lost either: what it was told and what
/// is queued afterwards begin with what was queued before.
pub proof fn lemma_poll_tells_in_order<S, O, L, T, D>(
    s: State<S, O, L, T, D>,
    received: Option<TransportToBehaviourEvent<O, L>>,
    deliveries: Seq<Delivered<D>>,
    channels: Seq<Channel>,
)
    requires
        s.relays.no_duplicates(),
        s.relays.len() <= usize::MAX,
        forall|i: int|
            0 <= i < s.relays.len() ==> s.to_transport.contains_key(#[trigger] s.relays[i]),
        channels.len() == s.relays.len(),
    ensures
        ({
            let (after, last, told) = s.whole_poll(received, deliveries, channels);
            &&& last is Done
            &&& told.len() == s.relays.len()
            &&& forall|i: int|
                0 <= i < told.len() ==> {
                    let queue = s.to_transport[s.relays[i]];
                    &&& (#[trigger] told[i]).len() <= channels[i].room
                    &&& told[i].is_prefix_of(queue) || queue.is_prefix_of(told[i])
                    &&& all_open(channels) ==> queue.is_prefix_of(
                        told[i] + after.to_transport[s.relays[i]],
                    )
                }
        }),
{
    let (begun, first) = s.poll(received);
    match received {
        Some(event) => {
            let relay = event.relay_peer_id_spec()@;
            let waits = State {
                waiting: s.waiting.insert(relay, s.waiting_for(relay).push(event)),
                ..s
            };
            lemma_next_connection(s, waits);
        },
        None => {
            lemma_next_connection(s, s);
        },
    }
    lemma_delivered(s, begun, first, deliveries);
    let (delivered, next) = begun.deliver(first, deliveries);
    let nothing = Seq::new(s.relays.len(), |i: int| Seq::<BehaviourToTransportEvent>::empty());
    let (after, last, told) = s.whole_poll(received, deliveries, channels);
    if comes_to_transports(s, delivered, next) {
        let x = choose|x: State<S, O, L, T, D>|
            grown(s, x) && (delivered, next) == #[trigger] x.next_transport(0);
        lemma_transports_are_told(x, channels);
        assert forall|i: int| 0 <= i < told.len() implies {
            let queue = s.to_transport[s.relays[i]];
            &&& (#[trigger] told[i]).len() <= channels[i].room
            &&& told[i].is_prefix_of(queue) || queue.is_prefix_of(told[i])
            &&& all_open(channels) ==> queue.is_prefix_of(
                told[i] + after.to_transport[s.relays[i]],
            )
        } by {
            let queue = s.to_transport[s.relays[i]];
            let longer = x.to_transport[s.relays[i]];
            assert(s.to_transport.contains_key(s.relays[i]));
            assert(queue.is_prefix_of(longer));
            assert(told[i].is_prefix_of(longer));
            assert(queue =~= longer.take(queue.len() as int));
            assert(told[i] =~= longer.take(told[i].len() as int));
            if told[i].len() <= queue.len() {
                assert(told[i] =~= queue.take(told[i].len() as int));
            } else {
                assert(queue =~= told[i].take(queue.len() as int));
            }
            if all_open(channels) {
                let k = taken(longer, channels[i]);
                assert(longer.take(k) + longer.skip(k) =~= longer);
            }
        }
    } else {
        assert(told == nothing);
        assert forall|i: int| 0 <= i < told.len() implies {
            let queue = s.to_transport[s.relays[i]];
            &&& (#[trigger] told[i]).len() <= channels[i].room
            &&& told[i].is_prefix_of(queue) || queue.is_prefix_of(told[i])
            &&& all_open(channels) ==> queue.is_prefix_of(
                told[i] + after.to_transport[s.relays[i]],
            )
        } by {
            assert(s.to_transport.contains_key(s.relays[i]));
            assert(told[i] + after.to_transport[s.relays[i]]
                =~= after.to_transport[s.relays[i]]);
        }
    }
}

} // verus!
