//! Combines two transports into one that listens on both, and dials through whichever connects
//! first.

use libp2p_core::transport::ListenerId;
use vstd::prelude::*;

use crate::address::Multiaddr;
use crate::ids::next_listener_id;
use crate::swarm::{Polled, TransportError, TransportEvent};
use crate::table::Table;

verus! {

/// A connection of one of two transports.
#[derive(Debug)]
pub enum EitherOutput<A, B> {
    First(A),
    Second(B),
}

/// An upgrade of one of two transports.
#[derive(Debug)]
pub enum EitherFuture<A, B> {
    First(A),
    Second(B),
}

/// An error of one of two transports.
#[derive(Debug)]
pub enum EitherError<A, B> {
    A(A),
    B(B),
}

pub open spec fn first_error<A, B>(err: TransportError<A>) -> TransportError<EitherError<A, B>> {
    match err {
        TransportError::MultiaddrNotSupported(addr) => TransportError::MultiaddrNotSupported(addr),
        TransportError::Other(err) => TransportError::Other(EitherError::A(err)),
    }
}

pub open spec fn second_error<A, B>(err: TransportError<B>) -> TransportError<EitherError<A, B>> {
    match err {
        TransportError::MultiaddrNotSupported(addr) => TransportError::MultiaddrNotSupported(addr),
        TransportError::Other(err) => TransportError::Other(EitherError::B(err)),
    }
}

fn map_first_error<A, B>(err: TransportError<A>) -> (r: TransportError<EitherError<A, B>>)
    ensures
        r == first_error::<A, B>(err),
{
    match err {
        TransportError::MultiaddrNotSupported(addr) => TransportError::MultiaddrNotSupported(addr),
        TransportError::Other(err) => TransportError::Other(EitherError::A(err)),
    }
}

fn map_second_error<A, B>(err: TransportError<B>) -> (r: TransportError<EitherError<A, B>>)
    ensures
        r == second_error::<A, B>(err),
{
    match err {
        TransportError::MultiaddrNotSupported(addr) => TransportError::MultiaddrNotSupported(addr),
        TransportError::Other(err) => TransportError::Other(EitherError::B(err)),
    }
}

/// What has to be done next to remove a listener.
#[derive(Debug)]
pub enum RemoveStep {
    /// Remove the listener of the first transport; [`removed_first`] takes what comes of it.
    RemoveFirst { id1: ListenerId, id2: ListenerId },
    /// Remove the listener of the second transport: what comes of it is the result.
    RemoveSecond { id2: ListenerId },
    /// Whether a listener was removed.
    Done(bool),
}

/// Two transports, and for each listener the ids that it has there.
#[derive(Debug)]
pub struct CombineTransport<A, B> {
    pub t1: A,
    pub t2: B,
    pub listener_ids: Table<ListenerId, (ListenerId, ListenerId)>,
}

impl<A, B> CombineTransport<A, B> {
    pub open spec fn wf(self) -> bool {
        self.listener_ids.wf()
    }

    /// Combines two transports.
    pub fn new(a: A, b: B) -> (r: CombineTransport<A, B>)
        ensures
            r.wf(),
            r.t1 == a,
            r.t2 == b,
            r.listener_ids@ == Map::<ListenerId, (ListenerId, ListenerId)>::empty(),
    {
        CombineTransport { t1: a, t2: b, listener_ids: Table::new() }
    }

    /// Goes on when the first transport was made to listen. If it does, the second is made to
    /// listen next; if not, the second stays out of it.
    pub fn listened_first<E, F>(first: Result<ListenerId, TransportError<E>>) -> (r: Result<
        ListenerId,
        TransportError<EitherError<E, F>>,
    >)
        ensures
            r == match first {
                Ok(id1) => Ok::<ListenerId, TransportError<EitherError<E, F>>>(id1),
                Err(err) => Err(first_error(err)),
            },
    {
        match first {
            Ok(id1) => Ok(id1),
            Err(err) => Err(map_first_error(err)),
        }
    }

    /// Goes on when the second transport was made to listen after the first, under an id that is
    /// given for both. If it does not, the first goes on listening, under an id of its own that
    /// nothing refers to.
    pub fn listened_as<E, F>(
        &mut self,
        listener_id: ListenerId,
        id1: ListenerId,
        second: Result<ListenerId, TransportError<F>>,
    ) -> (r: Result<ListenerId, TransportError<EitherError<E, F>>>)
        requires
            old(self).wf(),
        ensures
            final(self).wf(),
            final(self).t1 == old(self).t1,
            final(self).t2 == old(self).t2,
            match second {
                Ok(id2) => {
                    &&& r == Ok::<ListenerId, TransportError<EitherError<E, F>>>(listener_id)
                    &&& final(self).listener_ids@ == old(self).listener_ids@.insert(
                        listener_id,
                        (id1, id2),
                    )
                },
                Err(err) => {
                    &&& r == Err::<ListenerId, TransportError<EitherError<E, F>>>(second_error(err))
                    &&& final(self).listener_ids@ == old(self).listener_ids@
                },
            },
    {
        match second {
            Ok(id2) => {
                let _ = self.listener_ids.insert(listener_id, (id1, id2));
                Ok(listener_id)
            },
            Err(err) => Err(map_second_error(err)),
        }
    }

    /// The ids of the listeners.
    fn ids(&self) -> (r: Vec<ListenerId>)
        ensures
            forall|id: ListenerId| #[trigger]
                self.listener_ids@.contains_key(id) ==> r@.contains(id),
    {
        let mut ids: Vec<ListenerId> = Vec::new();
        let mut i: usize = 0;
        while i < self.listener_ids.len()
            invariant
                i <= self.listener_ids.keys().len(),
                ids@ == self.listener_ids.keys().take(i as int),
            decreases self.listener_ids.keys().len() - i,
        {
            let id: ListenerId = *self.listener_ids.key(i);
            ids.push(id);
            i = i + 1;
            assert(ids@ =~= self.listener_ids.keys().take(i as int));
        }
        assert(ids@ =~= self.listener_ids.keys());
        ids
    }

    /// Goes on when the second transport was made to listen after the first, under a fresh id for
    /// both: it is the id of no other listener, and of neither transport's.
    pub fn listen_on<E, F>(
        &mut self,
        id1: ListenerId,
        second: Result<ListenerId, TransportError<F>>,
    ) -> (r: Result<ListenerId, TransportError<EitherError<E, F>>>)
        requires
            old(self).wf(),
        ensures
            final(self).wf(),
            final(self).t1 == old(self).t1,
            final(self).t2 == old(self).t2,
            match second {
                Ok(id2) => {
                    &&& r is Ok
                    &&& !old(self).listener_ids@.contains_key(r->Ok_0)
                    &&& r->Ok_0 != id1
                    &&& r->Ok_0 != id2
                    &&& final(self).listener_ids@ == old(self).listener_ids@.insert(
                        r->Ok_0,
                        (id1, id2),
                    )
                },
                Err(err) => {
                    &&& r == Err::<ListenerId, TransportError<EitherError<E, F>>>(second_error(err))
                    &&& final(self).listener_ids@ == old(self).listener_ids@
                },
            },
    {
        match second {
            Ok(id2) => {
                let mut drawn = self.ids();
                let ghost known = drawn@;
                drawn.push(id1);
                drawn.push(id2);
                let listener_id = next_listener_id(&drawn);
                proof {
                    assert(drawn@[known.len() as int] == id1);
                    assert(drawn@[known.len() as int + 1] == id2);
                    assert forall|id: ListenerId| known.contains(id) implies drawn@.contains(id) by {
                        let i = choose|i: int| 0 <= i < known.len() && known[i] == id;
                        assert(drawn@[i] == id);
                    }
                }
                self.listened_as(listener_id, id1, Ok(id2))
            },
            Err(err) => Err(map_second_error(err)),
        }
    }

    /// Forgets a listener, and says which listeners of the two transports belong to it.
    pub fn remove_listener(&mut self, id: ListenerId) -> (r: RemoveStep)
        requires
            old(self).wf(),
        ensures
            final(self).wf(),
            final(self).t1 == old(self).t1,
            final(self).t2 == old(self).t2,
            final(self).listener_ids@ == old(self).listener_ids@.remove(id),
            r == if old(self).listener_ids@.contains_key(id) {
                RemoveStep::RemoveFirst {
                    id1: old(self).listener_ids@[id].0,
                    id2: old(self).listener_ids@[id].1,
                }
            } else {
                RemoveStep::Done(false)
            },
    {
        match self.listener_ids.remove(&id) {
            Some((id1, id2)) => RemoveStep::RemoveFirst { id1, id2 },
            None => RemoveStep::Done(false),
        }
    }
}

/// Goes on when the listener of the first transport was to be removed. The second transport is
/// asked only if the first did not know the listener.
pub fn removed_first(id2: ListenerId, removed: bool) -> (r: RemoveStep)
    ensures
        r == if removed {
            RemoveStep::Done(true)
        } else {
            RemoveStep::RemoveSecond { id2 }
        },
{
    if removed {
        RemoveStep::Done(true)
    } else {
        RemoveStep::RemoveSecond { id2 }
    }
}

/// A listener that was made to listen on both transports under a fresh id is removed on the first of
/// them, and on the second if the first does not know it; nothing is left of it.
pub proof fn lemma_listen_then_remove(
    ids: Map<ListenerId, (ListenerId, ListenerId)>,
    id: ListenerId,
    id1: ListenerId,
    id2: ListenerId,
)
    requires
        !ids.contains_key(id),
    ensures
        ids.insert(id, (id1, id2)).contains_key(id),
        ids.insert(id, (id1, id2))[id] == (id1, id2),
        ids.insert(id, (id1, id2)).remove(id) == ids,
{
    assert(ids.insert(id, (id1, id2)).remove(id) =~= ids);
}

/// The dials that are under way.
#[derive(Debug)]
pub enum Dialing<P, Q> {
    First(P),
    Second(Q),
    /// Both, of which the one that connects first is wanted.
    Both(P, Q),
}

/// What two dials come to: the one that could be begun, or both. If neither could, the second error
/// is the one that is reported.
pub open spec fn dials<P, Q, E, F>(
    dial1: Result<P, TransportError<E>>,
    dial2: Result<Q, TransportError<F>>,
) -> Result<Dialing<P, Q>, TransportError<EitherError<E, F>>> {
    match (dial1, dial2) {
        (Err(_), Err(err)) => Err(second_error(err)),
        (Ok(dial), Err(_)) => Ok(Dialing::First(dial)),
        (Err(_), Ok(dial)) => Ok(Dialing::Second(dial)),
        (Ok(dial1), Ok(dial2)) => Ok(Dialing::Both(dial1, dial2)),
    }
}

/// Goes on when both transports were made to dial.
pub fn inner_dial<P, Q, E, F>(
    dial1: Result<P, TransportError<E>>,
    dial2: Result<Q, TransportError<F>>,
) -> (r: Result<Dialing<P, Q>, TransportError<EitherError<E, F>>>)
    ensures
        r == dials(dial1, dial2),
{
    match (dial1, dial2) {
        (Err(_), Err(err)) => Err(map_second_error(err)),
        (Ok(dial), Err(_)) => Ok(Dialing::First(dial)),
        (Err(_), Ok(dial)) => Ok(Dialing::Second(dial)),
        (Ok(dial1), Ok(dial2)) => Ok(Dialing::Both(dial1, dial2)),
    }
}

/// A dial that is over.
#[derive(Debug)]
pub enum Finished<P, E, Q, F> {
    First(Result<P, E>),
    Second(Result<Q, F>),
}

impl<P, E, Q, F> Finished<P, E, Q, F> {
    pub open spec fn result(self) -> Result<EitherOutput<P, Q>, EitherError<E, F>> {
        match self {
            Finished::First(Ok(output)) => Ok(EitherOutput::First(output)),
            Finished::First(Err(err)) => Err(EitherError::A(err)),
            Finished::Second(Ok(output)) => Ok(EitherOutput::Second(output)),
            Finished::Second(Err(err)) => Err(EitherError::B(err)),
        }
    }

    /// What the only dial, or the one that was waited for last, comes to.
    pub fn into_result(self) -> (r: Result<EitherOutput<P, Q>, EitherError<E, F>>)
        ensures
            r == self.result(),
    {
        match self {
            Finished::First(Ok(output)) => Ok(EitherOutput::First(output)),
            Finished::First(Err(err)) => Err(EitherError::A(err)),
            Finished::Second(Ok(output)) => Ok(EitherOutput::Second(output)),
            Finished::Second(Err(err)) => Err(EitherError::B(err)),
        }
    }
}

/// What has to be done when one of two dials is over.
#[derive(Debug)]
pub enum RaceStep<P, Q> {
    /// It connected. The other is given up.
    Done(EitherOutput<P, Q>),
    /// Wait for the first.
    AwaitFirst,
    /// Wait for the second.
    AwaitSecond,
}

pub open spec fn race_step<P, E, Q, F>(finished: Finished<P, E, Q, F>) -> RaceStep<P, Q> {
    match finished {
        Finished::First(Ok(output)) => RaceStep::Done(EitherOutput::First(output)),
        Finished::First(Err(_)) => RaceStep::AwaitSecond,
        Finished::Second(Ok(output)) => RaceStep::Done(EitherOutput::Second(output)),
        Finished::Second(Err(_)) => RaceStep::AwaitFirst,
    }
}

/// Goes on when one of two dials is over before the other.
pub fn raced<P, E, Q, F>(finished: Finished<P, E, Q, F>) -> (r: RaceStep<P, Q>)
    ensures
        r == race_step(finished),
{
    match finished {
        Finished::First(Ok(output)) => RaceStep::Done(EitherOutput::First(output)),
        Finished::First(Err(_)) => RaceStep::AwaitSecond,
        Finished::Second(Ok(output)) => RaceStep::Done(EitherOutput::Second(output)),
        Finished::Second(Err(_)) => RaceStep::AwaitFirst,
    }
}

/// What the race of two dials comes to, when `winner` is over before `other`.
pub open spec fn race<P, E, Q, F>(
    winner: Finished<P, E, Q, F>,
    other: Finished<P, E, Q, F>,
) -> Result<EitherOutput<P, Q>, EitherError<E, F>> {
    match race_step(winner) {
        RaceStep::Done(output) => Ok(output),
        _ => other.result(),
    }
}

/// A race of two dials connects exactly if one of them does, and the connection is that of the dial
/// that connected first. If neither connects, the error is that of the dial that was over last.
pub proof fn lemma_race<P, E, Q, F>(winner: Finished<P, E, Q, F>, other: Finished<P, E, Q, F>)
    requires
        winner is First <==> other is Second,
    ensures
        race(winner, other) is Ok <==> winner.result() is Ok || other.result() is Ok,
        winner.result() is Ok ==> race(winner, other) == winner.result(),
        winner.result() is Err ==> race(winner, other) == other.result(),
        race_step(winner) is AwaitFirst ==> other is First,
        race_step(winner) is AwaitSecond ==> other is Second,
{
}

/// A dial is begun exactly if one of the transports begins it.
pub proof fn lemma_dials<P, Q, E, F>(
    dial1: Result<P, TransportError<E>>,
    dial2: Result<Q, TransportError<F>>,
)
    ensures
        dials(dial1, dial2) is Ok <==> dial1 is Ok || dial2 is Ok,
{
}

/// An event of the combined transports: `U` and `V` are their upgrades, `E` and `F` their errors.
pub type Event<U, V, E, F> = TransportEvent<EitherFuture<U, V>, EitherError<E, F>>;

/// An event of the first transport. The id of its listener stays as it is.
pub open spec fn first_event<U, V, E, F>(event: TransportEvent<U, E>) -> Event<U, V, E, F> {
    match event {
        TransportEvent::NewAddress { listener_id, listen_addr } => TransportEvent::NewAddress {
            listener_id,
            listen_addr,
        },
        TransportEvent::AddressExpired { listener_id, listen_addr } => {
            TransportEvent::AddressExpired { listener_id, listen_addr }
        },
        TransportEvent::Incoming { listener_id, upgrade, local_addr, send_back_addr } => {
            TransportEvent::Incoming {
                listener_id,
                upgrade: EitherFuture::First(upgrade),
                local_addr,
                send_back_addr,
            }
        },
        TransportEvent::ListenerClosed { listener_id, reason } => TransportEvent::ListenerClosed {
            listener_id,
            reason: match reason {
                Ok(_) => Ok(()),
                Err(err) => Err(EitherError::A(err)),
            },
        },
        TransportEvent::ListenerError { listener_id, error } => TransportEvent::ListenerError {
            listener_id,
            error: EitherError::A(error),
        },
    }
}

/// An event of the second transport. The id of its listener stays as it is.
pub open spec fn second_event<U, V, E, F>(event: TransportEvent<V, F>) -> Event<U, V, E, F> {
    match event {
        TransportEvent::NewAddress { listener_id, listen_addr } => TransportEvent::NewAddress {
            listener_id,
            listen_addr,
        },
        TransportEvent::AddressExpired { listener_id, listen_addr } => {
            TransportEvent::AddressExpired { listener_id, listen_addr }
        },
        TransportEvent::Incoming { listener_id, upgrade, local_addr, send_back_addr } => {
            TransportEvent::Incoming {
                listener_id,
                upgrade: EitherFuture::Second(upgrade),
                local_addr,
                send_back_addr,
            }
        },
        TransportEvent::ListenerClosed { listener_id, reason } => TransportEvent::ListenerClosed {
            listener_id,
            reason: match reason {
                Ok(_) => Ok(()),
                Err(err) => Err(EitherError::B(err)),
            },
        },
        TransportEvent::ListenerError { listener_id, error } => TransportEvent::ListenerError {
            listener_id,
            error: EitherError::B(error),
        },
    }
}

/// Goes on when the first transport was polled. The second is polled only if the first has nothing.
pub fn polled_first<U, V, E, F>(first: Polled<TransportEvent<U, E>>) -> (r: Polled<
    Event<U, V, E, F>,
>)
    ensures
        r == match first {
            Polled::Ready(event) => Polled::Ready(first_event::<U, V, E, F>(event)),
            Polled::Pending => Polled::Pending,
        },
{
    match first {
        Polled::Pending => Polled::Pending,
        Polled::Ready(TransportEvent::NewAddress { listener_id, listen_addr }) => Polled::Ready(
            TransportEvent::NewAddress { listener_id, listen_addr },
        ),
        Polled::Ready(TransportEvent::AddressExpired { listener_id, listen_addr }) => {
            Polled::Ready(TransportEvent::AddressExpired { listener_id, listen_addr })
        },
        Polled::Ready(
            TransportEvent::Incoming { listener_id, upgrade, local_addr, send_back_addr },
        ) => Polled::Ready(
            TransportEvent::Incoming {
                listener_id,
                upgrade: EitherFuture::First(upgrade),
                local_addr,
                send_back_addr,
            },
        ),
        Polled::Ready(TransportEvent::ListenerClosed { listener_id, reason }) => Polled::Ready(
            TransportEvent::ListenerClosed {
                listener_id,
                reason: match reason {
                    Ok(_) => Ok(()),
                    Err(err) => Err(EitherError::A(err)),
                },
            },
        ),
        Polled::Ready(TransportEvent::ListenerError { listener_id, error }) => Polled::Ready(
            TransportEvent::ListenerError { listener_id, error: EitherError::A(error) },
        ),
    }
}

/// Goes on when the second transport was polled.
pub fn polled_second<U, V, E, F>(second: Polled<TransportEvent<V, F>>) -> (r: Polled<
    Event<U, V, E, F>,
>)
    ensures
        r == match second {
            Polled::Ready(event) => Polled::Ready(second_event::<U, V, E, F>(event)),
            Polled::Pending => Polled::Pending,
        },
{
    match second {
        Polled::Pending => Polled::Pending,
        Polled::Ready(TransportEvent::NewAddress { listener_id, listen_addr }) => Polled::Ready(
            TransportEvent::NewAddress { listener_id, listen_addr },
        ),
        Polled::Ready(TransportEvent::AddressExpired { listener_id, listen_addr }) => {
            Polled::Ready(TransportEvent::AddressExpired { listener_id, listen_addr })
        },
        Polled::Ready(
            TransportEvent::Incoming { listener_id, upgrade, local_addr, send_back_addr },
        ) => Polled::Ready(
            TransportEvent::Incoming {
                listener_id,
                upgrade: EitherFuture::Second(upgrade),
                local_addr,
                send_back_addr,
            },
        ),
        Polled::Ready(TransportEvent::ListenerClosed { listener_id, reason }) => Polled::Ready(
            TransportEvent::ListenerClosed {
                listener_id,
                reason: match reason {
                    Ok(_) => Ok(()),
                    Err(err) => Err(EitherError::B(err)),
                },
            },
        ),
        Polled::Ready(TransportEvent::ListenerError { listener_id, error }) => Polled::Ready(
            TransportEvent::ListenerError { listener_id, error: EitherError::B(error) },
        ),
    }
}

/// What an address is translated to: the first transport's answer, or else the second's.
pub fn address_translation(first: Option<Multiaddr>, second: Option<Multiaddr>) -> (r: Option<
    Multiaddr,
>)
    ensures
        r == if first is Some {
            first
        } else {
            second
        },
{
    match first {
        Some(addr) => Some(addr),
        None => second,
    }
}


/// What the first transport gives is passed on as it is: the kind of the event, the listener and the
/// addresses stay the same, and an upgrade or an error is marked as one of the first transport.
/// Nothing is passed on when the first transport has nothing.
pub proof fn lemma_first_is_passed_on<U, V, E, F>(
    first: Polled<TransportEvent<U, E>>,
    given: Polled<Event<U, V, E, F>>,
)
    requires
        call_ensures(polled_first::<U, V, E, F>, (first,), given),
    ensures
        given is Ready <==> first is Ready,
        first matches Polled::Ready(TransportEvent::NewAddress { listener_id, listen_addr })
            ==> given == Polled::Ready(
            Event::<U, V, E, F>::NewAddress { listener_id, listen_addr },
        ),
        first matches Polled::Ready(TransportEvent::AddressExpired { listener_id, listen_addr })
            ==> given == Polled::Ready(
            Event::<U, V, E, F>::AddressExpired { listener_id, listen_addr },
        ),
        first matches Polled::Ready(
            TransportEvent::Incoming { listener_id, upgrade, local_addr, send_back_addr },
        ) ==> given == Polled::Ready(
            Event::<U, V, E, F>::Incoming {
                listener_id,
                upgrade: EitherFuture::First(upgrade),
                local_addr,
                send_back_addr,
            },
        ),
        first matches Polled::Ready(TransportEvent::ListenerClosed { listener_id, reason }) ==> {
            &&& given matches Polled::Ready(
                TransportEvent::ListenerClosed { listener_id: closed, reason: why },
            )
            &&& closed == listener_id
            &&& reason is Ok <==> why is Ok
            &&& reason matches Err(err) ==> why == Err::<(), EitherError<E, F>>(EitherError::A(err))
        },
        first matches Polled::Ready(TransportEvent::ListenerError { listener_id, error })
            ==> given == Polled::Ready(
            Event::<U, V, E, F>::ListenerError { listener_id, error: EitherError::A(error) },
        ),
{
}

/// What the second transport gives is passed on as it is: the kind of the event, the listener and
/// the addresses stay the same, and an upgrade or an error is marked as one of the second transport.
/// Nothing is passed on when the second transport has nothing.
pub proof fn lemma_second_is_passed_on<U, V, E, F>(
    second: Polled<TransportEvent<V, F>>,
    given: Polled<Event<U, V, E, F>>,
)
    requires
        call_ensures(polled_second::<U, V, E, F>, (second,), given),
    ensures
        given is Ready <==> second is Ready,
        second matches Polled::Ready(TransportEvent::NewAddress { listener_id, listen_addr })
            ==> given == Polled::Ready(
            Event::<U, V, E, F>::NewAddress { listener_id, listen_addr },
        ),
        second matches Polled::Ready(TransportEvent::AddressExpired { listener_id, listen_addr })
            ==> given == Polled::Ready(
            Event::<U, V, E, F>::AddressExpired { listener_id, listen_addr },
        ),
        second matches Polled::Ready(
            TransportEvent::Incoming { listener_id, upgrade, local_addr, send_back_addr },
        ) ==> given == Polled::Ready(
            Event::<U, V, E, F>::Incoming {
                listener_id,
                upgrade: EitherFuture::Second(upgrade),
                local_addr,
                send_back_addr,
            },
        ),
        second matches Polled::Ready(TransportEvent::ListenerClosed { listener_id, reason }) ==> {
            &&& given matches Polled::Ready(
                TransportEvent::ListenerClosed { listener_id: closed, reason: why },
            )
            &&& closed == listener_id
            &&& reason is Ok <==> why is Ok
            &&& reason matches Err(err) ==> why == Err::<(), EitherError<E, F>>(EitherError::B(err))
        },
        second matches Polled::Ready(TransportEvent::ListenerError { listener_id, error })
            ==> given == Polled::Ready(
            Event::<U, V, E, F>::ListenerError { listener_id, error: EitherError::B(error) },
        ),
{
}

/// The events of the two transports cannot be taken for each other, nor for other events of the same
/// transport: what is passed on says which upgrade and which error came from where.
pub proof fn lemma_passed_on_apart<U, V, E, F>(
    one: TransportEvent<U, E>,
    other: TransportEvent<U, E>,
    second: TransportEvent<V, F>,
    given_one: Polled<Event<U, V, E, F>>,
    given_other: Polled<Event<U, V, E, F>>,
    given_second: Polled<Event<U, V, E, F>>,
)
    requires
        call_ensures(polled_first::<U, V, E, F>, (Polled::Ready(one),), given_one),
        call_ensures(polled_first::<U, V, E, F>, (Polled::Ready(other),), given_other),
        call_ensures(polled_second::<U, V, E, F>, (Polled::Ready(second),), given_second),
    ensures
        given_one == given_other ==> one == other,
        one is Incoming || one is ListenerError ==> given_one != given_second,
{
    if let TransportEvent::ListenerClosed { reason: Ok(nothing), .. } = one {
        assert(nothing == ());
    }
    if let TransportEvent::ListenerClosed { reason: Ok(nothing), .. } = other {
        assert(nothing == ());
    }
}

/// A transport that refuses to listen is the reason of the refusal: the address that it does not
/// support, or its own error, marked as the transport's. Where the first transport refuses, the
/// second has no say; where it listens, its id goes on.
pub proof fn lemma_refusal_is_passed_on<A, B, E, F>(
    first: Result<ListenerId, TransportError<E>>,
    listened: Result<ListenerId, TransportError<EitherError<E, F>>>,
    combined: &mut CombineTransport<A, B>,
    id1: ListenerId,
    second: TransportError<F>,
    refused: Result<ListenerId, TransportError<EitherError<E, F>>>,
)
    requires
        call_ensures(CombineTransport::<A, B>::listened_first::<E, F>, (first,), listened),
        old(combined).wf(),
        call_ensures(
            CombineTransport::<A, B>::listen_on::<E, F>,
            (combined, id1, Err(second)),
            refused,
        ),
    ensures
        first matches Ok(id) ==> listened matches Ok(going_on) && going_on == id,
        first matches Err(TransportError::MultiaddrNotSupported(addr)) ==> {
            &&& listened matches Err(TransportError::MultiaddrNotSupported(why))
            &&& why == addr
        },
        first matches Err(TransportError::Other(err)) ==> {
            &&& listened matches Err(TransportError::Other(EitherError::A(why)))
            &&& why == err
        },
        second matches TransportError::MultiaddrNotSupported(addr) ==> {
            &&& refused matches Err(TransportError::MultiaddrNotSupported(why))
            &&& why == addr
        },
        second matches TransportError::Other(err) ==> {
            &&& refused matches Err(TransportError::Other(EitherError::B(why)))
            &&& why == err
        },
        final(combined).listener_ids@ == old(combined).listener_ids@,
        final(combined).t1 == old(combined).t1,
        final(combined).t2 == old(combined).t2,
{
}

/// What one transport says of an id that was drawn for both is about no other listener: a listener
/// that was made to listen on both transports is removed under its own id, first on the first
/// transport under the id that it has there, and on the second only if the first does not know it.
/// All other listeners stay as they were, and the id is forgotten.
pub proof fn lemma_listener_is_removed<A, B, E, F>(
    made: &mut CombineTransport<A, B>,
    id1: ListenerId,
    id2: ListenerId,
    listened: Result<ListenerId, TransportError<EitherError<E, F>>>,
    removed: &mut CombineTransport<A, B>,
    step: RemoveStep,
    known: bool,
    last: RemoveStep,
    again: &mut CombineTransport<A, B>,
    gone: RemoveStep,
)
    requires
        old(made).wf(),
        call_ensures(
            CombineTransport::<A, B>::listen_on::<E, F>,
            (made, id1, Ok(id2)),
            listened,
        ),
        *old(removed) == *final(made),
        call_ensures(CombineTransport::<A, B>::remove_listener, (removed, listened->Ok_0), step),
        call_ensures(removed_first, (id2, known), last),
        *old(again) == *final(removed),
        call_ensures(CombineTransport::<A, B>::remove_listener, (again, listened->Ok_0), gone),
    ensures
        listened is Ok,
        step == (RemoveStep::RemoveFirst { id1, id2 }),
        known ==> last == RemoveStep::Done(true),
        !known ==> last == (RemoveStep::RemoveSecond { id2 }),
        final(removed).listener_ids@ == old(made).listener_ids@,
        gone == RemoveStep::Done(false),
        final(again).listener_ids@ == old(made).listener_ids@,
        forall|other: ListenerId| #[trigger]
            old(made).listener_ids@.contains_key(other) ==> {
                &&& final(made).listener_ids@.contains_key(other)
                &&& final(made).listener_ids@[other] == old(made).listener_ids@[other]
            },
{
    assert(final(removed).listener_ids@ =~= old(made).listener_ids@);
    assert(final(again).listener_ids@ =~= old(made).listener_ids@);
}

/// Under an id that is given for both transports the same holds: the listener is removed under it,
/// on the transports under the ids that it has there.
pub proof fn lemma_given_listener_is_removed<A, B, E, F>(
    made: &mut CombineTransport<A, B>,
    id: ListenerId,
    id1: ListenerId,
    id2: ListenerId,
    listened: Result<ListenerId, TransportError<EitherError<E, F>>>,
    removed: &mut CombineTransport<A, B>,
    step: RemoveStep,
)
    requires
        old(made).wf(),
        call_ensures(
            CombineTransport::<A, B>::listened_as::<E, F>,
            (made, id, id1, Ok(id2)),
            listened,
        ),
        *old(removed) == *final(made),
        call_ensures(CombineTransport::<A, B>::remove_listener, (removed, id), step),
    ensures
        listened == Ok::<ListenerId, TransportError<EitherError<E, F>>>(id),
        step == (RemoveStep::RemoveFirst { id1, id2 }),
        !final(removed).listener_ids@.contains_key(id),
        forall|other: ListenerId|
            other != id ==> {
                &&& (#[trigger] final(removed).listener_ids@.contains_key(other)) == old(
                    made,
                ).listener_ids@.contains_key(other)
                &&& old(made).listener_ids@.contains_key(other)
                    ==> final(removed).listener_ids@[other] == old(made).listener_ids@[other]
            },
{
}

/// Two dials are begun as far as the transports begin them, each with its own dial, and the reason
/// why none was begun is the second transport's.
pub proof fn lemma_begun_dials<P, Q, E, F>(
    dial1: Result<P, TransportError<E>>,
    dial2: Result<Q, TransportError<F>>,
    begun: Result<Dialing<P, Q>, TransportError<EitherError<E, F>>>,
)
    requires
        call_ensures(inner_dial::<P, Q, E, F>, (dial1, dial2), begun),
    ensures
        begun is Err <==> dial1 is Err && dial2 is Err,
        dial1 is Ok && dial2 is Ok ==> begun == Ok::<_, TransportError<EitherError<E, F>>>(
            Dialing::Both(dial1->Ok_0, dial2->Ok_0),
        ),
        dial1 is Ok && dial2 is Err ==> begun == Ok::<_, TransportError<EitherError<E, F>>>(
            Dialing::<P, Q>::First(dial1->Ok_0),
        ),
        dial1 is Err && dial2 is Ok ==> begun == Ok::<_, TransportError<EitherError<E, F>>>(
            Dialing::<P, Q>::Second(dial2->Ok_0),
        ),
        dial1 is Err ==> (dial2 matches Err(TransportError::MultiaddrNotSupported(addr)) ==> {
            &&& begun matches Err(TransportError::MultiaddrNotSupported(why))
            &&& why == addr
        }),
        dial1 is Err ==> (dial2 matches Err(TransportError::Other(err)) ==> {
            &&& begun matches Err(TransportError::Other(EitherError::B(why)))
            &&& why == err
        }),
{
}

/// The dial that is over first decides if it connected, and the other is waited for if not. What
/// comes of a dial is its connection or its error, marked as that of its transport.
pub proof fn lemma_finished_dial<P, E, Q, F>(
    first: Result<P, E>,
    second: Result<Q, F>,
    first_step: RaceStep<P, Q>,
    second_step: RaceStep<P, Q>,
    first_result: Result<EitherOutput<P, Q>, EitherError<E, F>>,
    second_result: Result<EitherOutput<P, Q>, EitherError<E, F>>,
)
    requires
        call_ensures(raced::<P, E, Q, F>, (Finished::First(first),), first_step),
        call_ensures(raced::<P, E, Q, F>, (Finished::Second(second),), second_step),
        call_ensures(
            Finished::<P, E, Q, F>::into_result,
            (Finished::First(first),),
            first_result,
        ),
        call_ensures(
            Finished::<P, E, Q, F>::into_result,
            (Finished::Second(second),),
            second_result,
        ),
    ensures
        match first {
            Ok(output) => {
                &&& first_step == RaceStep::<P, Q>::Done(EitherOutput::First(output))
                &&& first_result == Ok::<_, EitherError<E, F>>(EitherOutput::<P, Q>::First(output))
            },
            Err(err) => {
                &&& first_step is AwaitSecond
                &&& first_result == Err::<EitherOutput<P, Q>, _>(EitherError::<E, F>::A(err))
            },
        },
        match second {
            Ok(output) => {
                &&& second_step == RaceStep::<P, Q>::Done(EitherOutput::Second(output))
                &&& second_result == Ok::<_, EitherError<E, F>>(EitherOutput::<P, Q>::Second(output))
            },
            Err(err) => {
                &&& second_step is AwaitFirst
                &&& second_result == Err::<EitherOutput<P, Q>, _>(EitherError::<E, F>::B(err))
            },
        },
{
}

/// An address is translated if one of the transports translates it, and the first has precedence.
pub proof fn lemma_translated(
    first: Option<Multiaddr>,
    second: Option<Multiaddr>,
    translated: Option<Multiaddr>,
)
    requires
        call_ensures(address_translation, (first, second), translated),
    ensures
        translated is None <==> first is None && second is None,
        first is Some ==> translated == first,
        first is None ==> translated == second,
{
}

} // verus!
