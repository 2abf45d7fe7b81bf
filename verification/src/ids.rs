//! The ids of listeners and of connections.

use libp2p_core::transport::ListenerId;
use libp2p_swarm::ConnectionId;
use vstd::prelude::*;

use crate::table::Key;

verus! {

#[verifier::external_type_specification]
#[verifier::external_body]
pub struct ExListenerId(libp2p_core::transport::ListenerId);

#[verifier::external_type_specification]
#[verifier::external_body]
pub struct ExConnectionId(libp2p_swarm::ConnectionId);

/// Calls `ListenerId::next`, which draws from a counter of the process that only goes up. Every id
/// that is there was drawn before, so none of them is drawn again, short of a counter that has run
/// over. Which id comes out depends on how many were drawn before: no more is claimed of it.
#[allow(unused_variables)]
#[verifier::external_body]
pub(crate) fn next_listener_id(drawn: &Vec<ListenerId>) -> (r: ListenerId)
    ensures
        !drawn@.contains(r),
{
    ListenerId::next()
}

/// Calls the `==` of `ListenerId`, which is derived for a struct of one integer: two ids compare
/// equal exactly if they are one id.
#[verifier::external_body]
fn same_listener(a: &ListenerId, b: &ListenerId) -> (r: bool)
    ensures
        r == (*a == *b),
{
    a == b
}

/// Calls the `==` of `ConnectionId`, which is derived for a struct of one integer: two ids compare
/// equal exactly if they are one id.
#[verifier::external_body]
fn same_connection(a: &ConnectionId, b: &ConnectionId) -> (r: bool)
    ensures
        r == (*a == *b),
{
    a == b
}

impl Key for ListenerId {
    type Id = ListenerId;

    open spec fn id(&self) -> ListenerId {
        *self
    }

    fn same(&self, other: &Self) -> (r: bool) {
        same_listener(self, other)
    }
}

impl Key for ConnectionId {
    type Id = ConnectionId;

    open spec fn id(&self) -> ConnectionId {
        *self
    }

    fn same(&self, other: &Self) -> (r: bool) {
        same_connection(self, other)
    }
}

} // verus!
