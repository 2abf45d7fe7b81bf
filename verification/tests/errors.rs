use libp2p_auto_relay::address::{Multiaddr, PeerId};
use libp2p_auto_relay::client;
use libp2p_auto_relay::endpoint;
use libp2p_auto_relay::error::{Cause, IoError, IoErrorKind};
use libp2p_auto_relay::relay;
use libp2p_auto_relay::swarm::{NegotiationError, TransportError};

const PEER: &str = "QmYyQSo1c1Ym7orWxLYvCrM2EmxFTANf8wXmmE7DWjhx5N";

fn peer() -> PeerId {
    PeerId::parse(PEER).unwrap()
}

fn addr() -> Multiaddr {
    Multiaddr::parse("/ip4/1.2.3.4/tcp/5").unwrap()
}

#[test]
fn io_kinds_show_the_text_of_std() {
    let kinds = vec![
        (IoErrorKind::NotFound, std::io::ErrorKind::NotFound),
        (IoErrorKind::PermissionDenied, std::io::ErrorKind::PermissionDenied),
        (IoErrorKind::ConnectionRefused, std::io::ErrorKind::ConnectionRefused),
        (IoErrorKind::ConnectionReset, std::io::ErrorKind::ConnectionReset),
        (IoErrorKind::HostUnreachable, std::io::ErrorKind::HostUnreachable),
        (IoErrorKind::NetworkUnreachable, std::io::ErrorKind::NetworkUnreachable),
        (IoErrorKind::ConnectionAborted, std::io::ErrorKind::ConnectionAborted),
        (IoErrorKind::NotConnected, std::io::ErrorKind::NotConnected),
        (IoErrorKind::AddrInUse, std::io::ErrorKind::AddrInUse),
        (IoErrorKind::AddrNotAvailable, std::io::ErrorKind::AddrNotAvailable),
        (IoErrorKind::NetworkDown, std::io::ErrorKind::NetworkDown),
        (IoErrorKind::BrokenPipe, std::io::ErrorKind::BrokenPipe),
        (IoErrorKind::AlreadyExists, std::io::ErrorKind::AlreadyExists),
        (IoErrorKind::WouldBlock, std::io::ErrorKind::WouldBlock),
        (IoErrorKind::NotADirectory, std::io::ErrorKind::NotADirectory),
        (IoErrorKind::IsADirectory, std::io::ErrorKind::IsADirectory),
        (IoErrorKind::DirectoryNotEmpty, std::io::ErrorKind::DirectoryNotEmpty),
        (IoErrorKind::ReadOnlyFilesystem, std::io::ErrorKind::ReadOnlyFilesystem),
        (IoErrorKind::StaleNetworkFileHandle, std::io::ErrorKind::StaleNetworkFileHandle),
        (IoErrorKind::InvalidInput, std::io::ErrorKind::InvalidInput),
        (IoErrorKind::InvalidData, std::io::ErrorKind::InvalidData),
        (IoErrorKind::TimedOut, std::io::ErrorKind::TimedOut),
        (IoErrorKind::WriteZero, std::io::ErrorKind::WriteZero),
        (IoErrorKind::StorageFull, std::io::ErrorKind::StorageFull),
        (IoErrorKind::NotSeekable, std::io::ErrorKind::NotSeekable),
        (IoErrorKind::QuotaExceeded, std::io::ErrorKind::QuotaExceeded),
        (IoErrorKind::FileTooLarge, std::io::ErrorKind::FileTooLarge),
        (IoErrorKind::ResourceBusy, std::io::ErrorKind::ResourceBusy),
        (IoErrorKind::ExecutableFileBusy, std::io::ErrorKind::ExecutableFileBusy),
        (IoErrorKind::Deadlock, std::io::ErrorKind::Deadlock),
        (IoErrorKind::CrossesDevices, std::io::ErrorKind::CrossesDevices),
        (IoErrorKind::TooManyLinks, std::io::ErrorKind::TooManyLinks),
        (IoErrorKind::InvalidFilename, std::io::ErrorKind::InvalidFilename),
        (IoErrorKind::ArgumentListTooLong, std::io::ErrorKind::ArgumentListTooLong),
        (IoErrorKind::Interrupted, std::io::ErrorKind::Interrupted),
        (IoErrorKind::Unsupported, std::io::ErrorKind::Unsupported),
        (IoErrorKind::UnexpectedEof, std::io::ErrorKind::UnexpectedEof),
        (IoErrorKind::OutOfMemory, std::io::ErrorKind::OutOfMemory),
        (IoErrorKind::Other, std::io::ErrorKind::Other),
    ];
    for (kind, std_kind) in kinds {
        let err = IoError::Kind(kind);
        assert_eq!(err.kind(), kind);
        assert_eq!(err.message(), std::io::Error::from(std_kind).to_string());
    }
    assert_eq!(IoError::Kind(IoErrorKind::TimedOut).message(), "timed out");
    assert_eq!(IoError::Kind(IoErrorKind::WriteZero).message(), "write zero");
    assert_eq!(
        IoError::Kind(IoErrorKind::Uncategorized).message(),
        "uncategorized error"
    );
}

#[test]
fn stream_error_keeps_its_kind_and_text() {
    let written = client::upgrade::outbound::request_sent(Err(IoError::Kind(
        IoErrorKind::WriteZero,
    )));
    match written {
        Err(client::upgrade::UpgradeError::Io(err)) => {
            assert_eq!(err.kind(), IoErrorKind::WriteZero);
            assert_eq!(err.message(), "write zero");
        }
        written => panic!("{written:?}"),
    }
    let err = IoError::Os {
        code: 111,
        kind: IoErrorKind::ConnectionRefused,
        text: "Connection refused (os error 111)".to_string(),
    };
    assert_eq!(err.kind(), IoErrorKind::ConnectionRefused);
    assert_eq!(err.message(), "Connection refused (os error 111)");
}

#[test]
fn causes_show_their_texts() {
    let text = |cause: Cause| {
        IoError::Caused {
            kind: IoErrorKind::Other,
            cause,
        }
        .message()
    };
    assert_eq!(text(Cause::Text("broken".to_string())), "broken");
    assert_eq!(
        text(Cause::ConnectionSenderDropped),
        "connection sender is dropped"
    );
    assert_eq!(
        text(Cause::RelayDialFailed {
            dst_peer_id: peer(),
            dst_addr: addr(),
            error: "no route".to_string()
        }),
        format!("dial {PEER} /ip4/1.2.3.4/tcp/5 failed: no route")
    );
    assert_eq!(
        text(Cause::RelayListenFailed {
            local_peer_id: peer(),
            local_addr: addr(),
            error: "no route".to_string()
        }),
        format!("listen {PEER} /ip4/1.2.3.4/tcp/5 failed: no route")
    );
    assert_eq!(
        text(Cause::PeerNotListened { dst_peer_id: peer() }),
        format!("dst peer id {PEER} is not listened")
    );
}

#[test]
fn kind_of_a_caused_error() {
    let err = IoError::Caused {
        kind: IoErrorKind::ConnectionRefused,
        cause: Cause::ConnectionSenderDropped,
    };
    assert_eq!(err.kind(), IoErrorKind::ConnectionRefused);
}

#[test]
fn negotiation_errors_become_io_errors() {
    let timeout = NegotiationError::Timeout.into_io_error();
    assert!(matches!(timeout, IoError::Kind(IoErrorKind::TimedOut)));
    let failed = NegotiationError::Failed {
        reason: "no protocol".to_string(),
    }
    .into_io_error();
    assert_eq!(failed.kind(), IoErrorKind::Other);
    assert_eq!(failed.message(), "no protocol");
}

#[test]
fn endpoint_upgrade_errors_show_their_texts() {
    let io = || IoError::Kind(IoErrorKind::TimedOut);
    assert_eq!(endpoint::upgrade::UpgradeError::Io(io()).message(), "io error: timed out");
    assert_eq!(
        endpoint::upgrade::UpgradeError::UnexpectedStreamClosed.message(),
        "unexpected stream closed"
    );
    assert_eq!(
        endpoint::upgrade::UpgradeError::UnexpectedResult {
            action: endpoint::upgrade::UpgradeAction::Listen
        }
        .message(),
        "unexpected result"
    );
    assert_eq!(
        endpoint::upgrade::UpgradeError::ActionFailed {
            action: endpoint::upgrade::UpgradeAction::Dial,
            reason: Some("a \"b\"".to_string())
        }
        .message(),
        "action failed: Some(\"a \\\"b\\\"\")"
    );
    assert_eq!(
        endpoint::upgrade::UpgradeError::ActionFailed {
            action: endpoint::upgrade::UpgradeAction::Dial,
            reason: None
        }
        .message(),
        "action failed: None"
    );
    assert_eq!(
        endpoint::upgrade::UpgradeError::InvalidAddr("x".to_string()).message(),
        "invalid addr: x"
    );
    assert_eq!(
        endpoint::upgrade::UpgradeError::InvalidPeerId("x".to_string()).message(),
        "invalid peer id: x"
    );
}

#[test]
fn client_upgrade_errors_show_their_texts() {
    assert_eq!(
        client::upgrade::UpgradeError::Io(IoError::Kind(IoErrorKind::TimedOut)).message(),
        "io error: timed out"
    );
    assert_eq!(
        client::upgrade::UpgradeError::UnexpectedStreamClosed.message(),
        "unexpected stream closed"
    );
    assert_eq!(
        client::upgrade::UpgradeError::UnexpectedResult {
            action: client::upgrade::UpgradeAction::Dial
        }
        .message(),
        "unexpected result"
    );
    assert_eq!(
        client::upgrade::UpgradeError::ActionFailed {
            action: client::upgrade::UpgradeAction::Connect,
            reason: Some("no".to_string())
        }
        .message(),
        "action failed: Some(\"no\")"
    );
    assert_eq!(
        client::upgrade::UpgradeError::InvalidAddr("x".to_string()).message(),
        "invalid addr: x"
    );
}

#[test]
fn relay_upgrade_errors_show_their_texts() {
    let io = || IoError::Kind(IoErrorKind::TimedOut);
    assert_eq!(relay::upgrade::UpgradeError::Io(io()).message(), "io error: timed out");
    assert_eq!(
        relay::upgrade::UpgradeError::UnexpectedStreamClosed.message(),
        "unexpected stream closed"
    );
    assert_eq!(relay::upgrade::UpgradeError::BehaviourDropped.message(), "behaviour is dropped");
    assert_eq!(
        relay::upgrade::UpgradeError::ConnectFailed {
            addr: addr(),
            err: io()
        }
        .message(),
        "behaviour connect /ip4/1.2.3.4/tcp/5 failed: timed out"
    );
    assert_eq!(
        relay::upgrade::UpgradeError::InvalidDstPeerId("x".to_string()).message(),
        "dial dst peer id x invalid"
    );
    assert_eq!(
        relay::upgrade::UpgradeError::InvalidDstAddr("x".to_string()).message(),
        "dial dst addr x invalid"
    );
    assert_eq!(
        relay::upgrade::UpgradeError::InvalidListenPeerId("x".to_string()).message(),
        "invalid listen peer id x"
    );
    assert_eq!(
        relay::upgrade::UpgradeError::InvalidListenAddr("x".to_string()).message(),
        "invalid listen addr x"
    );
    assert_eq!(relay::upgrade::UpgradeError::UnexpectedResult.message(), "unexpected result");
    assert_eq!(
        relay::upgrade::UpgradeError::ActionFailed {
            action: relay::upgrade::UpgradeAction::Connect,
            reason: Some("no".to_string())
        }
        .message(),
        "action failed: Some(\"no\")"
    );
}

#[test]
fn client_transport_errors_show_their_texts() {
    let io = || IoError::Kind(IoErrorKind::TimedOut);
    assert_eq!(client::Error::DialFailed(io()).message(), "dial failed: timed out");
    assert_eq!(
        client::Error::UnsupportedDialAsListener.message(),
        "unsupported dial as listener"
    );
    assert_eq!(client::Error::ListenFailed(io()).message(), "listen failed: timed out");
    assert!(matches!(
        TransportError::from(client::Error::UnsupportedDialAsListener),
        TransportError::Other(client::Error::UnsupportedDialAsListener)
    ));
}
