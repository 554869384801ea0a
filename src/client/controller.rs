//! The self-hosted controller of the local node.

use vstd::prelude::*;
use super::{Client, ControllerMemberConfig, ControllerNetworkConfig};
use crate::json::object_text;
use crate::rest::{HttpRequest, Method};

verus! {

/// `/controller/network/<network_id>`.
pub open spec fn controller_network_path(network_id: Seq<char>) -> Seq<char> {
    "/controller/network/"@ + network_id
}

/// `/controller/network/<network_id>/member`.
pub open spec fn controller_members_path(network_id: Seq<char>) -> Seq<char> {
    controller_network_path(network_id) + "/member"@
}

/// `/controller/network/<network_id>/member/<member_id>`.
pub open spec fn controller_member_path(network_id: Seq<char>, member_id: Seq<char>) -> Seq<char> {
    controller_members_path(network_id) + "/"@ + member_id
}

/// The id under which the controller creates a network of node `node_id`:
/// the node id followed by six underscores.
pub open spec fn new_network_id(node_id: Seq<char>) -> Seq<char> {
    node_id + "______"@
}

fn make_network_path(network_id: &str) -> (r: String)
    ensures
        r@ == controller_network_path(network_id@),
{
    let mut p = String::from_str("/controller/network/");
    p.append(network_id);
    p
}

fn make_members_path(network_id: &str) -> (r: String)
    ensures
        r@ == controller_members_path(network_id@),
{
    let mut p = make_network_path(network_id);
    p.append("/member");
    p
}

fn make_member_path(network_id: &str, member_id: &str) -> (r: String)
    ensures
        r@ == controller_member_path(network_id@, member_id@),
{
    let mut p = make_members_path(network_id);
    p.append("/");
    p.append(member_id);
    p
}

/// Requests on the controller hosted by the local node.
#[derive(Clone, Debug)]
pub struct ControllerService {
    pub client: Client,
}

impl ControllerService {
    pub(crate) fn new(client: Client) -> (r: ControllerService)
        ensures
            r.client == client,
    {
        ControllerService { client }
    }

    /// Plans `GET /controller`.
    pub fn status(&self) -> (r: HttpRequest)
        ensures
            self.client.backend_spec().plans(r, Method::Get, "/controller"@, None),
    {
        self.client.backend().request_empty(Method::Get, "/controller")
    }

    /// Plans `GET /controller/network`: the ids of the controller's networks.
    pub fn list_networks(&self) -> (r: HttpRequest)
        ensures
            self.client.backend_spec().plans(r, Method::Get, "/controller/network"@, None),
    {
        self.client.backend().request_empty(Method::Get, "/controller/network")
    }

    /// Plans `GET /controller/network/<id>`.
    pub fn get_network(&self, network_id: &str) -> (r: HttpRequest)
        ensures
            self.client.backend_spec().plans(r, Method::Get, controller_network_path(network_id@), None),
    {
        let p = make_network_path(network_id);
        self.client.backend().request_empty(Method::Get, p.as_str())
    }

    /// Plans the creation of a network of node `node_id`, under the id that the
    /// controller requires, with the fields of `config` that are set (an empty
    /// object without a configuration).
    pub fn create_network(&self, node_id: &str, config: Option<&ControllerNetworkConfig>) -> (r: HttpRequest)
        ensures
            self.client.backend_spec().plans(r, Method::Post, controller_network_path(new_network_id(node_id@)),
                Some(match config {
                    Some(c) => object_text(c.fields_spec()),
                    None => "{}"@,
                })),
    {
        let mut id = String::from_str(node_id);
        id.append("______");
        let p = make_network_path(id.as_str());
        let body = match config {
            Some(c) => c.to_json(),
            None => String::from_str("{}"),
        };
        self.client.backend().request(Method::Post, p.as_str(), Some(body))
    }

    /// Plans `POST /controller/network/<id>` carrying only the fields that are set.
    pub fn update_network(&self, network_id: &str, config: &ControllerNetworkConfig) -> (r: HttpRequest)
        ensures
            self.client.backend_spec().plans(r, Method::Post, controller_network_path(network_id@),
                Some(object_text(config.fields_spec()))),
    {
        let p = make_network_path(network_id);
        self.client.backend().request(Method::Post, p.as_str(), Some(config.to_json()))
    }

    /// Plans `DELETE /controller/network/<id>`.
    pub fn delete_network(&self, network_id: &str) -> (r: HttpRequest)
        ensures
            self.client.backend_spec().plans(r, Method::Delete, controller_network_path(network_id@), None),
    {
        let p = make_network_path(network_id);
        self.client.backend().request_empty(Method::Delete, p.as_str())
    }

    /// Plans `GET /controller/network/<id>/member`: the ids of its members.
    pub fn list_members(&self, network_id: &str) -> (r: HttpRequest)
        ensures
            self.client.backend_spec().plans(r, Method::Get, controller_members_path(network_id@), None),
    {
        let p = make_members_path(network_id);
        self.client.backend().request_empty(Method::Get, p.as_str())
    }

    /// Plans `GET /controller/network/<id>/member/<member>`.
    pub fn get_member(&self, network_id: &str, member_id: &str) -> (r: HttpRequest)
        ensures
            self.client.backend_spec().plans(r, Method::Get, controller_member_path(network_id@, member_id@), None),
    {
        let p = make_member_path(network_id, member_id);
        self.client.backend().request_empty(Method::Get, p.as_str())
    }

    /// Plans `POST /controller/network/<id>/member/<member>` carrying only the fields that are set.
    pub fn update_member(&self, network_id: &str, member_id: &str, config: &ControllerMemberConfig) -> (r: HttpRequest)
        ensures
            self.client.backend_spec().plans(r, Method::Post, controller_member_path(network_id@, member_id@),
                Some(object_text(config.fields_spec()))),
    {
        let p = make_member_path(network_id, member_id);
        self.client.backend().request(Method::Post, p.as_str(), Some(config.to_json()))
    }

    /// Plans `DELETE /controller/network/<id>/member/<member>`.
    pub fn delete_member(&self, network_id: &str, member_id: &str) -> (r: HttpRequest)
        ensures
            self.client.backend_spec().plans(r, Method::Delete, controller_member_path(network_id@, member_id@), None),
    {
        let p = make_member_path(network_id, member_id);
        self.client.backend().request_empty(Method::Delete, p.as_str())
    }
}

} // verus!
