use libp2p_auto_relay::address::Multiaddr;
use libp2p_auto_relay::combine::{
    address_translation, inner_dial, polled_first, polled_second, raced, removed_first, CombineTransport, Dialing,
    EitherError, EitherFuture, EitherOutput, Event, Finished, RaceStep, RemoveStep,
};
use libp2p_auto_relay::swarm::{Polled, TransportError, TransportEvent};
use libp2p_core::transport::ListenerId;

type Combined = CombineTransport<&'static str, &'static str>;

fn addr() -> Multiaddr {
    Multiaddr::parse("/ip4/1.2.3.4/tcp/5").unwrap()
}

#[test]
fn listener_on_both_is_removed_on_the_first() {
    let mut combined: Combined = CombineTransport::new("a", "b");
    let id1 = ListenerId::next();
    let id2 = ListenerId::next();
    let first: Result<ListenerId, TransportError<EitherError<u8, u16>>> =
        Combined::listened_first::<u8, u16>(Ok(id1));
    assert_eq!(first.unwrap(), id1);
    let id = combined.listen_on::<u8, u16>(id1, Ok(id2)).unwrap();
    assert_ne!(id, id1);
    assert_ne!(id, id2);
    match combined.remove_listener(id) {
        RemoveStep::RemoveFirst { id1: a, id2: b } => {
            assert_eq!((a, b), (id1, id2));
            assert!(matches!(removed_first(b, true), RemoveStep::Done(true)));
            match removed_first(b, false) {
                RemoveStep::RemoveSecond { id2: b } => assert_eq!(b, id2),
                step => panic!("{step:?}"),
            }
        }
        step => panic!("{step:?}"),
    }
    assert!(matches!(combined.remove_listener(id), RemoveStep::Done(false)));
}

#[test]
fn listeners_on_both_have_different_ids() {
    let mut combined: Combined = CombineTransport::new("a", "b");
    let mut ids = Vec::new();
    for _ in 0..4 {
        let (id1, id2) = (ListenerId::next(), ListenerId::next());
        let id = combined.listen_on::<u8, u16>(id1, Ok(id2)).unwrap();
        assert!(!ids.contains(&id) && id != id1 && id != id2);
        ids.push(id);
    }
    assert_eq!(combined.listener_ids.len(), 4);
}

#[test]
fn listener_keeps_the_id_that_it_is_given() {
    let mut combined: Combined = CombineTransport::new("a", "b");
    let (id, id1, id2) = (ListenerId::next(), ListenerId::next(), ListenerId::next());
    assert_eq!(combined.listened_as::<u8, u16>(id, id1, Ok(id2)).unwrap(), id);
    assert!(matches!(combined.remove_listener(id1), RemoveStep::Done(false)));
    assert!(matches!(combined.remove_listener(id), RemoveStep::RemoveFirst { .. }));
}

#[test]
fn errors_say_which_transport_they_come_from() {
    let first = Combined::listened_first::<u8, u16>(Err(TransportError::Other(1)));
    assert!(matches!(first, Err(TransportError::Other(EitherError::A(1)))));
    let first =
        Combined::listened_first::<u8, u16>(Err(TransportError::MultiaddrNotSupported(addr())));
    assert!(matches!(first, Err(TransportError::MultiaddrNotSupported(a)) if a == addr()));
    let mut combined: Combined = CombineTransport::new("a", "b");
    let second = combined.listen_on::<u8, u16>(ListenerId::next(), Err(TransportError::Other(2)));
    assert!(matches!(second, Err(TransportError::Other(EitherError::B(2)))));
    let second = combined.listen_on::<u8, u16>(
        ListenerId::next(),
        Err(TransportError::MultiaddrNotSupported(addr())),
    );
    assert!(matches!(second, Err(TransportError::MultiaddrNotSupported(a)) if a == addr()));
    assert_eq!(combined.listener_ids.len(), 0);
}

#[test]
fn dial_goes_through_whichever_can() {
    let both: Result<Dialing<u8, u16>, TransportError<EitherError<(), ()>>> =
        inner_dial(Ok(1), Ok(2));
    assert!(matches!(both, Ok(Dialing::Both(1, 2))));
    let first: Result<Dialing<u8, u16>, TransportError<EitherError<(), u32>>> =
        inner_dial(Ok(1), Err(TransportError::Other(7)));
    assert!(matches!(first, Ok(Dialing::First(1))));
    let second: Result<Dialing<u8, u16>, TransportError<EitherError<u32, ()>>> =
        inner_dial(Err(TransportError::Other(7)), Ok(2));
    assert!(matches!(second, Ok(Dialing::Second(2))));
    let neither: Result<Dialing<u8, u16>, TransportError<EitherError<u32, u32>>> =
        inner_dial(Err(TransportError::Other(7)), Err(TransportError::Other(8)));
    assert!(matches!(neither, Err(TransportError::Other(EitherError::B(8)))));
}

#[test]
fn race_is_won_by_the_first_that_connects() {
    let ok: Finished<u8, &str, u16, &str> = Finished::First(Ok(1));
    assert!(matches!(raced(ok), RaceStep::Done(EitherOutput::First(1))));
    let ok: Finished<u8, &str, u16, &str> = Finished::Second(Ok(2));
    assert!(matches!(raced(ok), RaceStep::Done(EitherOutput::Second(2))));
    let failed: Finished<u8, &str, u16, &str> = Finished::First(Err("no"));
    assert!(matches!(raced(failed), RaceStep::AwaitSecond));
    let failed: Finished<u8, &str, u16, &str> = Finished::Second(Err("no"));
    assert!(matches!(raced(failed), RaceStep::AwaitFirst));
}

#[test]
fn last_dial_decides() {
    let result = |f: Finished<u8, &'static str, u16, &'static str>| f.into_result();
    assert!(matches!(result(Finished::First(Ok(1))), Ok(EitherOutput::First(1))));
    assert!(matches!(result(Finished::First(Err("a"))), Err(EitherError::A("a"))));
    assert!(matches!(result(Finished::Second(Ok(2))), Ok(EitherOutput::Second(2))));
    assert!(matches!(result(Finished::Second(Err("b"))), Err(EitherError::B("b"))));
}

#[test]
fn events_say_which_transport_they_come_from() {
    let id = ListenerId::next();
    let incoming = TransportEvent::<u8, &str>::Incoming {
        listener_id: id,
        upgrade: 1,
        local_addr: addr(),
        send_back_addr: addr(),
    };
    let event: Polled<Event<u8, u16, &str, &str>> = polled_first(Polled::Ready(incoming));
    assert!(matches!(
        event,
        Polled::Ready(TransportEvent::Incoming { listener_id, upgrade: EitherFuture::First(1), .. })
            if listener_id == id
    ));
    let error = TransportEvent::<u16, &str>::ListenerError {
        listener_id: id,
        error: "no",
    };
    let event: Polled<Event<u8, u16, &str, &str>> = polled_second(Polled::Ready(error));
    assert!(matches!(
        event,
        Polled::Ready(TransportEvent::ListenerError { error: EitherError::B("no"), .. })
    ));
    let closed = TransportEvent::<u8, &str>::ListenerClosed {
        listener_id: id,
        reason: Err("gone"),
    };
    let event: Polled<Event<u8, u16, &str, &str>> = polled_first(Polled::Ready(closed));
    assert!(matches!(
        event,
        Polled::Ready(TransportEvent::ListenerClosed { reason: Err(EitherError::A("gone")), .. })
    ));
    let event: Polled<Event<u8, u16, &str, &str>> =
        polled_second(Polled::Ready(TransportEvent::<u16, &str>::NewAddress {
            listener_id: id,
            listen_addr: addr(),
        }));
    assert!(matches!(
        event,
        Polled::Ready(TransportEvent::NewAddress { listen_addr, .. }) if listen_addr == addr()
    ));
    let pending: Polled<Event<u8, u16, &str, &str>> = polled_first(Polled::Pending);
    assert!(matches!(pending, Polled::Pending));
}

#[test]
fn first_translation_of_an_address_counts() {
    let other = Multiaddr::parse("/ip4/9.9.9.9/tcp/9").unwrap();
    assert_eq!(
        address_translation(Some(addr()), Some(other.clone())),
        Some(addr())
    );
    assert_eq!(address_translation(None, Some(other.clone())), Some(other));
    assert_eq!(address_translation(Some(addr()), None), Some(addr()));
    assert_eq!(address_translation(None, None), None);
}
