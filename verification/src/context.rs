//! What comes with every request.

use vstd::prelude::*;
use crate::identity::Identity;

verus! {

/// What comes with every request: who makes it, which worker it addresses,
/// its identifier, how long a call made for it may take, and when it was
/// made. The layer that routes requests attaches it; the user does not
/// supply it.
#[derive(Debug, PartialEq, Eq)]
pub struct RequestContext {
    /// The identifier of the request.
    pub id: String,
    /// The peer that makes the request.
    pub init_peer_id: Identity,
    /// The worker that the request addresses.
    pub host_id: Identity,
    /// The time a call made for the request may take, in milliseconds.
    pub ttl: u32,
    /// When the request was made.
    pub timestamp: u64,
}

pub struct RequestContextView {
    pub id: Seq<char>,
    pub init_peer_id: Seq<char>,
    pub host_id: Seq<char>,
    pub ttl: u32,
    pub timestamp: u64,
}

impl View for RequestContext {
    type V = RequestContextView;

    open spec fn view(&self) -> RequestContextView {
        RequestContextView {
            id: self.id@,
            init_peer_id: self.init_peer_id@,
            host_id: self.host_id@,
            ttl: self.ttl,
            timestamp: self.timestamp,
        }
    }
}

} // verus!
