//! Peers known to the local node.

use vstd::prelude::*;
use super::Client;
use crate::rest::{HttpRequest, Method};

verus! {

/// `/peer/<peer_id>`.
pub open spec fn peer_path(peer_id: Seq<char>) -> Seq<char> {
    "/peer/"@ + peer_id
}

/// Requests on the peers of the local node.
#[derive(Clone, Debug)]
pub struct PeerService {
    pub client: Client,
}

impl PeerService {
    pub(crate) fn new(client: Client) -> (r: PeerService)
        ensures
            r.client == client,
    {
        PeerService { client }
    }

    /// Plans `GET /peer`: every known peer.
    pub fn list(&self) -> (r: HttpRequest)
        ensures
            self.client.backend_spec().plans(r, Method::Get, "/peer"@, None),
    {
        self.client.backend().request_empty(Method::Get, "/peer")
    }

    /// Plans `GET /peer/<id>`.
    pub fn get(&self, peer_id: &str) -> (r: HttpRequest)
        ensures
            self.client.backend_spec().plans(r, Method::Get, peer_path(peer_id@), None),
    {
        let mut p = String::from_str("/peer/");
        p.append(peer_id);
        self.client.backend().request_empty(Method::Get, p.as_str())
    }
}

} // verus!
