//! Addresses and peer ids, held in their byte form.

use std::sync::Arc;

use vstd::prelude::*;

use crate::table::Key;

verus! {

/// Whether `libp2p_core::Multiaddr` reads the bytes as an address.
pub uninterp spec fn multiaddr_readable(bytes: Seq<u8>) -> bool;

/// What `libp2p_core::Multiaddr` parses a text to: the bytes of the address, or the text of the
/// error.
pub uninterp spec fn multiaddr_of_text(text: Seq<char>) -> Result<Seq<u8>, Seq<char>>;

/// The text that `libp2p_core::Multiaddr` shows for the bytes of an address.
pub uninterp spec fn multiaddr_text(bytes: Seq<u8>) -> Seq<char>;

/// The bytes of the peer id that `libp2p_core::multiaddr::PeerId` reads from bytes.
pub uninterp spec fn peer_id_of_bytes(bytes: Seq<u8>) -> Option<Seq<u8>>;

/// What `libp2p_core::multiaddr::PeerId` parses a text to: the bytes of the peer id, or the text of the
/// error.
pub uninterp spec fn peer_id_of_text(text: Seq<char>) -> Result<Seq<u8>, Seq<char>>;

/// The text that `libp2p_core::multiaddr::PeerId` shows for the bytes of a peer id.
pub uninterp spec fn peer_id_text(bytes: Seq<u8>) -> Seq<char>;

/// Calls `Arc::clone`, which makes another pointer to the same value.
#[verifier::external_body]
pub(crate) fn share<T>(value: &Arc<T>) -> (r: Arc<T>)
    ensures
        r == *value,
{
    Arc::clone(value)
}

/// Calls `Multiaddr::try_from` on a vector. It succeeds on the bytes that can be read to their end
/// as a chain of protocols.
#[verifier::external_body]
fn read_multiaddr(bytes: &Vec<u8>) -> (r: bool)
    ensures
        r == multiaddr_readable(bytes@),
{
    libp2p_core::Multiaddr::try_from(bytes.clone()).is_ok()
}

/// Calls `str::parse::<Multiaddr>`. The protocols that it writes down can be read back.
#[verifier::external_body]
fn parse_multiaddr(text: &str) -> (r: Result<Vec<u8>, String>)
    ensures
        match multiaddr_of_text(text@) {
            Ok(bytes) => r matches Ok(b) && b@ == bytes && multiaddr_readable(b@),
            Err(error) => r matches Err(e) && e@ == error,
        },
{
    match text.parse::<libp2p_core::Multiaddr>() {
        Ok(addr) => Ok(addr.to_vec()),
        Err(error) => Err(error.to_string()),
    }
}

/// Calls `Multiaddr::to_string` on the address that the bytes are read as.
#[verifier::external_body]
fn show_multiaddr(bytes: &Vec<u8>) -> (r: String)
    requires
        multiaddr_readable(bytes@),
    ensures
        r@ == multiaddr_text(bytes@),
{
    libp2p_core::Multiaddr::try_from(bytes.clone()).unwrap().to_string()
}

/// Calls `PeerId::from_bytes`, then `PeerId::to_bytes` on the peer id that it read. The bytes that
/// the latter writes are read as the same peer id.
#[verifier::external_body]
fn read_peer_id(bytes: &[u8]) -> (r: Option<Vec<u8>>)
    ensures
        match peer_id_of_bytes(bytes@) {
            Some(id) => r matches Some(b) && b@ == id && peer_id_of_bytes(b@) == Some(b@),
            None => r is None,
        },
{
    match libp2p_core::multiaddr::PeerId::from_bytes(bytes) {
        Ok(id) => Some(id.to_bytes()),
        Err(_) => None,
    }
}

/// Calls `str::parse::<PeerId>`, then `PeerId::to_bytes` on the peer id that it parsed. The bytes
/// that the latter writes are read as the same peer id.
#[verifier::external_body]
fn parse_peer_id(text: &str) -> (r: Result<Vec<u8>, String>)
    ensures
        match peer_id_of_text(text@) {
            Ok(id) => r matches Ok(b) && b@ == id && peer_id_of_bytes(b@) == Some(b@),
            Err(error) => r matches Err(e) && e@ == error,
        },
{
    match text.parse::<libp2p_core::multiaddr::PeerId>() {
        Ok(id) => Ok(id.to_bytes()),
        Err(error) => Err(error.to_string()),
    }
}

/// Calls `PeerId::to_string` on the peer id that the bytes are read as. The text, in base 58, is
/// parsed to the same peer id.
#[verifier::external_body]
fn show_peer_id(bytes: &Vec<u8>) -> (r: String)
    requires
        peer_id_of_bytes(bytes@) == Some(bytes@),
    ensures
        r@ == peer_id_text(bytes@),
        (peer_id_of_text(r@) == Ok::<Seq<u8>, Seq<char>>(bytes@)),
{
    libp2p_core::multiaddr::PeerId::from_bytes(bytes).unwrap().to_string()
}

fn same_bytes(a: &Vec<u8>, b: &Vec<u8>) -> (r: bool)
    ensures
        r == (a@ == b@),
{
    if a.len() != b.len() {
        return false;
    }
    let mut i: usize = 0;
    while i < a.len()
        invariant
            a.len() == b.len(),
            i <= a.len(),
            forall|j: int| 0 <= j < i ==> a@[j] == b@[j],
        decreases a.len() - i,
    {
        if a[i] != b[i] {
            return false;
        }
        i = i + 1;
    }
    assert(a@ =~= b@);
    true
}

/// An address of the network.
#[derive(Debug, PartialEq, Eq, Hash)]
pub struct Multiaddr {
    bytes: Arc<Vec<u8>>,
}

impl View for Multiaddr {
    type V = Seq<u8>;

    /// The bytes of the address.
    closed spec fn view(&self) -> Seq<u8> {
        self.bytes@
    }
}

impl Multiaddr {
    #[verifier::type_invariant]
    spec fn valid(self) -> bool {
        multiaddr_readable(self.bytes@)
    }

    /// Reads an address from its bytes.
    pub fn from_bytes(bytes: Vec<u8>) -> (r: Option<Multiaddr>)
        ensures
            match r {
                Some(addr) => multiaddr_readable(bytes@) && addr@ == bytes@,
                None => !multiaddr_readable(bytes@),
            },
    {
        if read_multiaddr(&bytes) {
            Some(Multiaddr { bytes: Arc::new(bytes) })
        } else {
            None
        }
    }

    /// Parses the text of an address. On failure the text of the error comes back.
    pub fn parse(text: &str) -> (r: Result<Multiaddr, String>)
        ensures
            match multiaddr_of_text(text@) {
                Ok(bytes) => r matches Ok(addr) && addr@ == bytes,
                Err(error) => r matches Err(e) && e@ == error,
            },
    {
        match parse_multiaddr(text) {
            Ok(bytes) => Ok(Multiaddr { bytes: Arc::new(bytes) }),
            Err(error) => Err(error),
        }
    }

    /// The text of the address.
    pub fn text(&self) -> (r: String)
        ensures
            r@ == multiaddr_text(self@),
    {
        proof {
            use_type_invariant(self);
        }
        show_multiaddr(&self.bytes)
    }

    /// The bytes of the address.
    pub fn as_bytes(&self) -> (r: &Vec<u8>)
        ensures
            r@ == self@,
    {
        &self.bytes
    }
}

impl Clone for Multiaddr {
    fn clone(&self) -> (r: Self)
        ensures
            r == *self,
    {
        proof {
            use_type_invariant(self);
        }
        Multiaddr { bytes: share(&self.bytes) }
    }
}

impl Key for Multiaddr {
    type Id = Seq<u8>;

    open spec fn id(&self) -> Seq<u8> {
        self@
    }

    fn same(&self, other: &Self) -> (r: bool) {
        same_bytes(&self.bytes, &other.bytes)
    }
}

/// The identity of a peer.
#[derive(Debug, PartialEq, Eq, Hash)]
pub struct PeerId {
    bytes: Arc<Vec<u8>>,
}

impl View for PeerId {
    type V = Seq<u8>;

    /// The bytes of the peer id.
    closed spec fn view(&self) -> Seq<u8> {
        self.bytes@
    }
}

impl PeerId {
    #[verifier::type_invariant]
    spec fn valid(self) -> bool {
        peer_id_of_bytes(self.bytes@) == Some(self.bytes@)
    }

    /// Reads a peer id from bytes.
    pub fn from_bytes(bytes: &[u8]) -> (r: Option<PeerId>)
        ensures
            match r {
                Some(id) => peer_id_of_bytes(bytes@) == Some(id@),
                None => peer_id_of_bytes(bytes@) is None,
            },
    {
        match read_peer_id(bytes) {
            Some(id) => Some(PeerId { bytes: Arc::new(id) }),
            None => None,
        }
    }

    /// Parses the text of a peer id. On failure the text of the error comes back.
    pub fn parse(text: &str) -> (r: Result<PeerId, String>)
        ensures
            match peer_id_of_text(text@) {
                Ok(bytes) => r matches Ok(id) && id@ == bytes,
                Err(error) => r matches Err(e) && e@ == error,
            },
    {
        match parse_peer_id(text) {
            Ok(bytes) => Ok(PeerId { bytes: Arc::new(bytes) }),
            Err(error) => Err(error),
        }
    }

    /// The text of the peer id, which is parsed to the same peer id.
    pub fn text(&self) -> (r: String)
        ensures
            r@ == peer_id_text(self@),
            peer_id_of_text(r@) matches Ok(id) && id == self@,
    {
        proof {
            use_type_invariant(self);
        }
        show_peer_id(&self.bytes)
    }

    /// The bytes of the peer id.
    pub fn as_bytes(&self) -> (r: &Vec<u8>)
        ensures
            r@ == self@,
    {
        &self.bytes
    }
}

impl Clone for PeerId {
    fn clone(&self) -> (r: Self)
        ensures
            r == *self,
    {
        proof {
            use_type_invariant(self);
        }
        PeerId { bytes: share(&self.bytes) }
    }
}

impl Key for PeerId {
    type Id = Seq<u8>;

    open spec fn id(&self) -> Seq<u8> {
        self@
    }

    fn same(&self, other: &Self) -> (r: bool) {
        same_bytes(&self.bytes, &other.bytes)
    }
}

/// A parsed address, as bytes.
pub open spec fn addr_view(parsed: Result<Multiaddr, String>) -> Result<Seq<u8>, Seq<char>> {
    match parsed {
        Ok(addr) => Ok(addr@),
        Err(error) => Err(error@),
    }
}

/// A parsed peer id, as bytes.
pub open spec fn peer_view(parsed: Result<PeerId, String>) -> Result<Seq<u8>, Seq<char>> {
    match parsed {
        Ok(peer_id) => Ok(peer_id@),
        Err(error) => Err(error@),
    }
}

/// The text of a peer id is parsed to the same peer id, and an address is read from its bytes as it
/// is, if it can be read at all. Two of them are the same exactly if their bytes are.
pub proof fn lemma_read_back(
    peer_id: PeerId,
    text: String,
    written: &str,
    parsed: Result<PeerId, String>,
    bytes: Vec<u8>,
    addr: Option<Multiaddr>,
    one: Multiaddr,
    other: Multiaddr,
    equal: bool,
    another: PeerId,
    same: bool,
)
    requires
        call_ensures(PeerId::text, (&peer_id,), text),
        written@ == text@,
        call_ensures(PeerId::parse, (written,), parsed),
        call_ensures(Multiaddr::from_bytes, (bytes,), addr),
        call_ensures(<Multiaddr as Key>::same, (&one, &other), equal),
        call_ensures(<PeerId as Key>::same, (&peer_id, &another), same),
    ensures
        parsed matches Ok(id) && id@ == peer_id@,
        addr matches Some(a) ==> a@ == bytes@,
        addr is Some <==> multiaddr_readable(bytes@),
        equal <==> one@ == other@,
        same <==> peer_id@ == another@,
{
}

/// Parsing a text and reading bytes come to what the bytes of the address or of the peer id are, or
/// to the text of the error. Copies are the same.
pub proof fn lemma_parsed(
    text: &str,
    addr: Result<Multiaddr, String>,
    peer: Result<PeerId, String>,
    bytes: &[u8],
    read: Option<PeerId>,
    one: Multiaddr,
    shown: String,
    copy: Multiaddr,
    other: PeerId,
    copied: PeerId,
)
    requires
        call_ensures(Multiaddr::parse, (text,), addr),
        call_ensures(PeerId::parse, (text,), peer),
        call_ensures(PeerId::from_bytes, (bytes,), read),
        call_ensures(Multiaddr::text, (&one,), shown),
        call_ensures(<Multiaddr as Clone>::clone, (&one,), copy),
        call_ensures(<PeerId as Clone>::clone, (&other,), copied),
    ensures
        addr matches Ok(a) ==> multiaddr_of_text(text@) == Ok::<Seq<u8>, Seq<char>>(a@),
        addr matches Err(e) ==> multiaddr_of_text(text@) == Err::<Seq<u8>, Seq<char>>(e@),
        peer matches Ok(p) ==> peer_id_of_text(text@) == Ok::<Seq<u8>, Seq<char>>(p@),
        peer matches Err(e) ==> peer_id_of_text(text@) == Err::<Seq<u8>, Seq<char>>(e@),
        read matches Some(p) ==> peer_id_of_bytes(bytes@) == Some(p@),
        read is None <==> peer_id_of_bytes(bytes@) is None,
        shown@ == multiaddr_text(one@),
        copy == one,
        copied == other,
{
}

} // verus!
