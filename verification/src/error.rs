//! I/O errors as plain values: a kind, and what caused the error.

use std::io::ErrorKind::{
    NotFound, PermissionDenied, ConnectionRefused, ConnectionReset, HostUnreachable,
    NetworkUnreachable, ConnectionAborted, NotConnected, AddrInUse, AddrNotAvailable,
    NetworkDown, BrokenPipe, AlreadyExists, WouldBlock, NotADirectory, IsADirectory,
    DirectoryNotEmpty, ReadOnlyFilesystem, StaleNetworkFileHandle, InvalidInput, InvalidData,
    TimedOut, WriteZero, StorageFull, NotSeekable, QuotaExceeded, FileTooLarge, ResourceBusy,
    ExecutableFileBusy, Deadlock, CrossesDevices, TooManyLinks, InvalidFilename,
    ArgumentListTooLong, Interrupted, Unsupported, UnexpectedEof, OutOfMemory, Other,
};

use vstd::prelude::*;

use crate::address::{multiaddr_text, peer_id_text, Multiaddr, PeerId};

verus! {

/// The text that `std::io::Error` shows for an error that is nothing but a kind, by the kind's
/// number.
pub uninterp spec fn io_kind_text(number: int) -> Seq<char>;

/// The text that `{:?}` shows for a text that may be missing.
pub uninterp spec fn reason_text(reason: Option<Seq<char>>) -> Seq<char>;

/// A text that may be missing, as characters.
pub open spec fn reason_view(reason: Option<String>) -> Option<Seq<char>> {
    match reason {
        Some(text) => Some(text@),
        None => None,
    }
}

/// Formats an `Option<String>` with `{:?}`.
#[verifier::external_body]
pub(crate) fn show_reason(reason: &Option<String>) -> (r: String)
    ensures
        r@ == reason_text(reason_view(*reason)),
{
    format!("{:?}", reason)
}

/// The kind of an I/O error. The kinds are those of `std::io::ErrorKind`.
#[derive(Debug, Clone, Copy, PartialEq, Eq, Structural)]
pub enum IoErrorKind {
    NotFound,
    PermissionDenied,
    ConnectionRefused,
    ConnectionReset,
    HostUnreachable,
    NetworkUnreachable,
    ConnectionAborted,
    NotConnected,
    AddrInUse,
    AddrNotAvailable,
    NetworkDown,
    BrokenPipe,
    AlreadyExists,
    WouldBlock,
    NotADirectory,
    IsADirectory,
    DirectoryNotEmpty,
    ReadOnlyFilesystem,
    StaleNetworkFileHandle,
    InvalidInput,
    InvalidData,
    TimedOut,
    WriteZero,
    StorageFull,
    NotSeekable,
    QuotaExceeded,
    FileTooLarge,
    ResourceBusy,
    ExecutableFileBusy,
    Deadlock,
    CrossesDevices,
    TooManyLinks,
    InvalidFilename,
    ArgumentListTooLong,
    Interrupted,
    Unsupported,
    UnexpectedEof,
    OutOfMemory,
    Other,
    /// Any kind that cannot be named.
    Uncategorized,
}

impl IoErrorKind {
    /// The kinds in the order in which they are declared.
    pub open spec fn number_spec(self) -> int {
        match self {
            IoErrorKind::NotFound => 0,
            IoErrorKind::PermissionDenied => 1,
            IoErrorKind::ConnectionRefused => 2,
            IoErrorKind::ConnectionReset => 3,
            IoErrorKind::HostUnreachable => 4,
            IoErrorKind::NetworkUnreachable => 5,
            IoErrorKind::ConnectionAborted => 6,
            IoErrorKind::NotConnected => 7,
            IoErrorKind::AddrInUse => 8,
            IoErrorKind::AddrNotAvailable => 9,
            IoErrorKind::NetworkDown => 10,
            IoErrorKind::BrokenPipe => 11,
            IoErrorKind::AlreadyExists => 12,
            IoErrorKind::WouldBlock => 13,
            IoErrorKind::NotADirectory => 14,
            IoErrorKind::IsADirectory => 15,
            IoErrorKind::DirectoryNotEmpty => 16,
            IoErrorKind::ReadOnlyFilesystem => 17,
            IoErrorKind::StaleNetworkFileHandle => 18,
            IoErrorKind::InvalidInput => 19,
            IoErrorKind::InvalidData => 20,
            IoErrorKind::TimedOut => 21,
            IoErrorKind::WriteZero => 22,
            IoErrorKind::StorageFull => 23,
            IoErrorKind::NotSeekable => 24,
            IoErrorKind::QuotaExceeded => 25,
            IoErrorKind::FileTooLarge => 26,
            IoErrorKind::ResourceBusy => 27,
            IoErrorKind::ExecutableFileBusy => 28,
            IoErrorKind::Deadlock => 29,
            IoErrorKind::CrossesDevices => 30,
            IoErrorKind::TooManyLinks => 31,
            IoErrorKind::InvalidFilename => 32,
            IoErrorKind::ArgumentListTooLong => 33,
            IoErrorKind::Interrupted => 34,
            IoErrorKind::Unsupported => 35,
            IoErrorKind::UnexpectedEof => 36,
            IoErrorKind::OutOfMemory => 37,
            IoErrorKind::Other => 38,
            IoErrorKind::Uncategorized => 39,
        }
    }

    /// The number of the kind.
    pub fn number(self) -> (r: usize)
        ensures
            r == self.number_spec(),
    {
        match self {
            IoErrorKind::NotFound => 0,
            IoErrorKind::PermissionDenied => 1,
            IoErrorKind::ConnectionRefused => 2,
            IoErrorKind::ConnectionReset => 3,
            IoErrorKind::HostUnreachable => 4,
            IoErrorKind::NetworkUnreachable => 5,
            IoErrorKind::ConnectionAborted => 6,
            IoErrorKind::NotConnected => 7,
            IoErrorKind::AddrInUse => 8,
            IoErrorKind::AddrNotAvailable => 9,
            IoErrorKind::NetworkDown => 10,
            IoErrorKind::BrokenPipe => 11,
            IoErrorKind::AlreadyExists => 12,
            IoErrorKind::WouldBlock => 13,
            IoErrorKind::NotADirectory => 14,
            IoErrorKind::IsADirectory => 15,
            IoErrorKind::DirectoryNotEmpty => 16,
            IoErrorKind::ReadOnlyFilesystem => 17,
            IoErrorKind::StaleNetworkFileHandle => 18,
            IoErrorKind::InvalidInput => 19,
            IoErrorKind::InvalidData => 20,
            IoErrorKind::TimedOut => 21,
            IoErrorKind::WriteZero => 22,
            IoErrorKind::StorageFull => 23,
            IoErrorKind::NotSeekable => 24,
            IoErrorKind::QuotaExceeded => 25,
            IoErrorKind::FileTooLarge => 26,
            IoErrorKind::ResourceBusy => 27,
            IoErrorKind::ExecutableFileBusy => 28,
            IoErrorKind::Deadlock => 29,
            IoErrorKind::CrossesDevices => 30,
            IoErrorKind::TooManyLinks => 31,
            IoErrorKind::InvalidFilename => 32,
            IoErrorKind::ArgumentListTooLong => 33,
            IoErrorKind::Interrupted => 34,
            IoErrorKind::Unsupported => 35,
            IoErrorKind::UnexpectedEof => 36,
            IoErrorKind::OutOfMemory => 37,
            IoErrorKind::Other => 38,
            IoErrorKind::Uncategorized => 39,
        }
    }

    /// The text that is shown for an error that is nothing but this kind.
    pub open spec fn text(self) -> Seq<char> {
        if self == IoErrorKind::Uncategorized {
            "uncategorized error"@
        } else {
            io_kind_text(self.number_spec())
        }
    }

    /// The text that is shown for an error that is nothing but this kind.
    pub fn message(self) -> (r: String)
        ensures
            r@ == self.text(),
    {
        if self == IoErrorKind::Uncategorized {
            "uncategorized error".to_owned()
        } else {
            show_kind(self.number())
        }
    }
}

/// Calls `to_string` on `std::io::Error::from` the kind of `std::io` with this number. The kinds are
/// listed in the order of [`IoErrorKind`].
#[verifier::external_body]
fn show_kind(number: usize) -> (r: String)
    requires
        number < 39,
    ensures
        r@ == io_kind_text(number as int),
{
    let kinds = [
        NotFound, PermissionDenied, ConnectionRefused, ConnectionReset, HostUnreachable,
        NetworkUnreachable, ConnectionAborted, NotConnected, AddrInUse, AddrNotAvailable,
        NetworkDown, BrokenPipe, AlreadyExists, WouldBlock, NotADirectory, IsADirectory,
        DirectoryNotEmpty, ReadOnlyFilesystem, StaleNetworkFileHandle, InvalidInput,
        InvalidData, TimedOut, WriteZero, StorageFull, NotSeekable, QuotaExceeded, FileTooLarge,
        ResourceBusy, ExecutableFileBusy, Deadlock, CrossesDevices, TooManyLinks,
        InvalidFilename, ArgumentListTooLong, Interrupted, Unsupported, UnexpectedEof,
        OutOfMemory, Other,
    ];
    std::io::Error::from(kinds[number]).to_string()
}

/// What an I/O error is about.
#[derive(Debug)]
pub enum Cause {
    /// An error of another layer, by its text.
    Text(String),
    /// The sender of a dialed connection is gone.
    ConnectionSenderDropped,
    /// The relay that a dial goes through could not be reached.
    RelayDialFailed { dst_peer_id: PeerId, dst_addr: Multiaddr, error: String },
    /// The relay that a listener goes through could not be reached.
    RelayListenFailed { local_peer_id: PeerId, local_addr: Multiaddr, error: String },
    /// A dial to a peer that does not listen.
    PeerNotListened { dst_peer_id: PeerId },
}

impl Cause {
    pub open spec fn text(self) -> Seq<char> {
        match self {
            Cause::Text(text) => text@,
            Cause::ConnectionSenderDropped => "connection sender is dropped"@,
            Cause::RelayDialFailed { dst_peer_id, dst_addr, error } => "dial "@ + peer_id_text(
                dst_peer_id@,
            ) + " "@ + multiaddr_text(dst_addr@) + " failed: "@ + error@,
            Cause::RelayListenFailed { local_peer_id, local_addr, error } => "listen "@
                + peer_id_text(local_peer_id@) + " "@ + multiaddr_text(local_addr@) + " failed: "@
                + error@,
            Cause::PeerNotListened { dst_peer_id } => "dst peer id "@ + peer_id_text(dst_peer_id@)
                + " is not listened"@,
        }
    }

    /// The text that is shown for the cause.
    pub fn message(&self) -> (r: String)
        ensures
            r@ == self.text(),
    {
        match self {
            Cause::Text(text) => text.clone(),
            Cause::ConnectionSenderDropped => "connection sender is dropped".to_owned(),
            Cause::RelayDialFailed { dst_peer_id, dst_addr, error } => {
                let mut text = "dial ".to_owned();
                text.append(dst_peer_id.text().as_str());
                text.append(" ");
                text.append(dst_addr.text().as_str());
                text.append(" failed: ");
                text.append(error.as_str());
                text
            },
            Cause::RelayListenFailed { local_peer_id, local_addr, error } => {
                let mut text = "listen ".to_owned();
                text.append(local_peer_id.text().as_str());
                text.append(" ");
                text.append(local_addr.text().as_str());
                text.append(" failed: ");
                text.append(error.as_str());
                text
            },
            Cause::PeerNotListened { dst_peer_id } => {
                let mut text = "dst peer id ".to_owned();
                text.append(dst_peer_id.text().as_str());
                text.append(" is not listened");
                text
            },
        }
    }
}

/// An I/O error.
#[derive(Debug)]
pub enum IoError {
    /// An error that is nothing but a kind.
    Kind(IoErrorKind),
    /// An error of a kind, with its cause.
    Caused { kind: IoErrorKind, cause: Cause },
    /// An error of the operating system, by its code, with the kind and the text that it has there.
    Os { code: i32, kind: IoErrorKind, text: String },
}

impl IoError {
    pub open spec fn kind_spec(self) -> IoErrorKind {
        match self {
            IoError::Kind(kind) => kind,
            IoError::Caused { kind, .. } => kind,
            IoError::Os { kind, .. } => kind,
        }
    }

    pub open spec fn text(self) -> Seq<char> {
        match self {
            IoError::Kind(kind) => kind.text(),
            IoError::Caused { cause, .. } => cause.text(),
            IoError::Os { text, .. } => text@,
        }
    }

    pub fn kind(&self) -> (r: IoErrorKind)
        ensures
            r == self.kind_spec(),
    {
        match self {
            IoError::Kind(kind) => *kind,
            IoError::Caused { kind, .. } => *kind,
            IoError::Os { kind, .. } => *kind,
        }
    }

    /// The text that is shown for the error.
    pub fn message(&self) -> (r: String)
        ensures
            r@ == self.text(),
    {
        match self {
            IoError::Kind(kind) => kind.message(),
            IoError::Caused { cause, .. } => cause.message(),
            IoError::Os { text, .. } => text.clone(),
        }
    }
}

/// The kinds, in the order of their declaration.
pub open spec fn kinds() -> Seq<IoErrorKind> {
    seq![
        IoErrorKind::NotFound,
        IoErrorKind::PermissionDenied,
        IoErrorKind::ConnectionRefused,
        IoErrorKind::ConnectionReset,
        IoErrorKind::HostUnreachable,
        IoErrorKind::NetworkUnreachable,
        IoErrorKind::ConnectionAborted,
        IoErrorKind::NotConnected,
        IoErrorKind::AddrInUse,
        IoErrorKind::AddrNotAvailable,
        IoErrorKind::NetworkDown,
        IoErrorKind::BrokenPipe,
        IoErrorKind::AlreadyExists,
        IoErrorKind::WouldBlock,
        IoErrorKind::NotADirectory,
        IoErrorKind::IsADirectory,
        IoErrorKind::DirectoryNotEmpty,
        IoErrorKind::ReadOnlyFilesystem,
        IoErrorKind::StaleNetworkFileHandle,
        IoErrorKind::InvalidInput,
        IoErrorKind::InvalidData,
        IoErrorKind::TimedOut,
        IoErrorKind::WriteZero,
        IoErrorKind::StorageFull,
        IoErrorKind::NotSeekable,
        IoErrorKind::QuotaExceeded,
        IoErrorKind::FileTooLarge,
        IoErrorKind::ResourceBusy,
        IoErrorKind::ExecutableFileBusy,
        IoErrorKind::Deadlock,
        IoErrorKind::CrossesDevices,
        IoErrorKind::TooManyLinks,
        IoErrorKind::InvalidFilename,
        IoErrorKind::ArgumentListTooLong,
        IoErrorKind::Interrupted,
        IoErrorKind::Unsupported,
        IoErrorKind::UnexpectedEof,
        IoErrorKind::OutOfMemory,
        IoErrorKind::Other,
        IoErrorKind::Uncategorized,
    ]
}

/// Kinds are told apart by their numbers, which count them in the order of their declaration.
pub proof fn lemma_kinds_are_numbered(
    one: IoErrorKind,
    other: IoErrorKind,
    first: usize,
    second: usize,
)
    requires
        call_ensures(IoErrorKind::number, (one,), first),
        call_ensures(IoErrorKind::number, (other,), second),
    ensures
        first == second <==> one == other,
        first < kinds().len(),
        kinds()[first as int] == one,
{
}

/// An error that is nothing but a kind shows the text that the system has for the kind. One that was
/// caused by something shows the text of the cause and keeps its kind, and one of the operating
/// system shows the text that it has there.
pub proof fn lemma_error_is_shown(
    error: IoError,
    text: String,
    kind: IoErrorKind,
    bare: IoErrorKind,
    number: usize,
    bare_text: String,
    cause: Cause,
    cause_text: String,
)
    requires
        call_ensures(IoError::message, (&error,), text),
        call_ensures(IoError::kind, (&error,), kind),
        call_ensures(IoErrorKind::number, (bare,), number),
        call_ensures(IoErrorKind::message, (bare,), bare_text),
        call_ensures(Cause::message, (&cause,), cause_text),
    ensures
        bare == IoErrorKind::Uncategorized ==> bare_text@ == "uncategorized error"@,
        bare != IoErrorKind::Uncategorized ==> bare_text@ == io_kind_text(number as int),
        error == IoError::Kind(bare) ==> text@ == bare_text@ && kind == bare,
        error matches IoError::Caused { kind: k, cause: c } ==> {
            &&& kind == k
            &&& c == cause ==> text@ == cause_text@
        },
        error matches IoError::Os { kind: k, text: t, .. } ==> kind == k && text@ == t@,
        cause matches Cause::Text(t) ==> cause_text@ == t@,
        cause is ConnectionSenderDropped ==> cause_text@ == "connection sender is dropped"@,
        cause matches Cause::RelayDialFailed { dst_peer_id, dst_addr, error: why } ==> cause_text@
            == "dial "@ + peer_id_text(dst_peer_id@) + " "@ + multiaddr_text(dst_addr@)
            + " failed: "@ + why@,
        cause matches Cause::RelayListenFailed { local_peer_id, local_addr, error: why }
            ==> cause_text@ == "listen "@ + peer_id_text(local_peer_id@) + " "@ + multiaddr_text(
            local_addr@,
        ) + " failed: "@ + why@,
        cause matches Cause::PeerNotListened { dst_peer_id } ==> cause_text@ == "dst peer id "@
            + peer_id_text(dst_peer_id@) + " is not listened"@,
{
}

} // verus!
