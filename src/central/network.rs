//! Networks managed in the cloud.

use vstd::prelude::*;
use super::{Central, CreateNetworkConfig, MemberService, NetworkConfig};
use super::types::{network_request_json, network_request_text};
use crate::json::json_quoted;
use crate::rest::{HttpRequest, Method};
use crate::text::{bool_text, int_decimal};

verus! {

/// `/network/<network_id>`.
pub open spec fn cloud_network_path(network_id: Seq<char>) -> Seq<char> {
    "/network/"@ + network_id
}

pub(crate) fn make_network_path(network_id: &str) -> (r: String)
    ensures
        r@ == cloud_network_path(network_id@),
{
    let mut p = String::from_str("/network/");
    p.append(network_id);
    p
}

/// Requests on the networks of the account.
#[derive(Clone, Debug)]
pub struct NetworkService {
    pub client: Central,
}

impl NetworkService {
    pub(crate) fn new(client: Central) -> (r: NetworkService)
        ensures
            r.client == client,
    {
        NetworkService { client }
    }

    /// Plans `GET /network`: every network of the account.
    pub fn list(&self) -> (r: HttpRequest)
        ensures
            self.client.backend_spec().plans(r, Method::Get, "/network"@, None),
    {
        self.client.backend().request_empty(Method::Get, "/network")
    }

    /// Plans `GET /network/<id>`.
    pub fn get(&self, network_id: &str) -> (r: HttpRequest)
        ensures
            self.client.backend_spec().plans(r, Method::Get, cloud_network_path(network_id@), None),
    {
        let p = make_network_path(network_id);
        self.client.backend().request_empty(Method::Get, p.as_str())
    }

    /// Plans `POST /network`, creating a network with the fields of `config` that are set.
    pub fn create(&self, config: Option<&CreateNetworkConfig>) -> (r: HttpRequest)
        ensures
            self.client.backend_spec().plans(r, Method::Post, "/network"@,
                Some(network_request_text(match config {
                    Some(c) => Some(*c),
                    None => None,
                }))),
    {
        self.client.backend().request(Method::Post, "/network", Some(network_request_json(config)))
    }

    /// Plans `POST /network/<id>` carrying the fields of `config` that are set.
    pub fn update(&self, network_id: &str, config: &CreateNetworkConfig) -> (r: HttpRequest)
        ensures
            self.client.backend_spec().plans(r, Method::Post, cloud_network_path(network_id@),
                Some(network_request_text(Some(*config)))),
    {
        let p = make_network_path(network_id);
        self.client.backend().request(Method::Post, p.as_str(), Some(network_request_json(Some(config))))
    }

    /// Plans `DELETE /network/<id>`.
    pub fn delete(&self, network_id: &str) -> (r: HttpRequest)
        ensures
            self.client.backend_spec().plans(r, Method::Delete, cloud_network_path(network_id@), None),
    {
        let p = make_network_path(network_id);
        self.client.backend().request_empty(Method::Delete, p.as_str())
    }

    /// The member resource of network `network_id`.
    pub fn members(&self, network_id: &str) -> (r: MemberService)
        ensures
            r.client == self.client,
            r.network_id@ == network_id@,
    {
        MemberService::new(self.client.clone(), network_id.to_owned())
    }
}

/// Builds a `CreateNetworkConfig` one field at a time; fields never set stay unset.
#[derive(Clone, Debug)]
pub struct NetworkConfigBuilder {
    config: CreateNetworkConfig,
}

impl View for NetworkConfigBuilder {
    type V = CreateNetworkConfig;

    closed spec fn view(&self) -> CreateNetworkConfig {
        self.config
    }
}

impl NetworkConfigBuilder {
    /// A builder with no field set.
    pub fn new() -> (r: NetworkConfigBuilder)
        ensures
            r@ == CreateNetworkConfig::unset(),
    {
        NetworkConfigBuilder {
            config: CreateNetworkConfig {
                name: None,
                private: None,
                enable_broadcast: None,
                mtu: None,
                multicast_limit: None,
                routes: None,
                ip_assignment_pools: None,
                v4_assign_mode: None,
                v6_assign_mode: None,
                dns: None,
            },
        }
    }

    pub fn name(self, name: String) -> (r: NetworkConfigBuilder)
        ensures
            r@ == (CreateNetworkConfig { name: Some(name), ..self@ }),
    {
        let mut b = self;
        b.config.name = Some(name);
        b
    }

    pub fn private(self, v: bool) -> (r: NetworkConfigBuilder)
        ensures
            r@ == (CreateNetworkConfig { private: Some(v), ..self@ }),
    {
        let mut b = self;
        b.config.private = Some(v);
        b
    }

    pub fn enable_broadcast(self, v: bool) -> (r: NetworkConfigBuilder)
        ensures
            r@ == (CreateNetworkConfig { enable_broadcast: Some(v), ..self@ }),
    {
        let mut b = self;
        b.config.enable_broadcast = Some(v);
        b
    }

    pub fn mtu(self, v: i32) -> (r: NetworkConfigBuilder)
        ensures
            r@ == (CreateNetworkConfig { mtu: Some(v), ..self@ }),
    {
        let mut b = self;
        b.config.mtu = Some(v);
        b
    }

    /// The configuration built so far.
    pub fn build(self) -> (r: CreateNetworkConfig)
        ensures
            r == self@,
    {
        self.config
    }
}

/// Each exposed field of a cloud network's configuration, sent back alone,
/// makes a configuration with exactly that one member carrying the record's own
/// value: nothing else is sent.
pub proof fn lemma_single_field_updates(c: NetworkConfig)
    ensures
        (CreateNetworkConfig { name: Some(c.name), ..CreateNetworkConfig::unset() }).fields_spec()
            == seq![("name"@, json_quoted(c.name@))],
        (CreateNetworkConfig { private: Some(c.private), ..CreateNetworkConfig::unset() }).fields_spec()
            == seq![("private"@, bool_text(c.private))],
        (CreateNetworkConfig { enable_broadcast: Some(c.enable_broadcast), ..CreateNetworkConfig::unset() }).fields_spec()
            == seq![("enableBroadcast"@, bool_text(c.enable_broadcast))],
        (CreateNetworkConfig { mtu: Some(c.mtu), ..CreateNetworkConfig::unset() }).fields_spec()
            == seq![("mtu"@, int_decimal(c.mtu as int))],
        (CreateNetworkConfig { multicast_limit: Some(c.multicast_limit), ..CreateNetworkConfig::unset() }).fields_spec()
            == seq![("multicastLimit"@, int_decimal(c.multicast_limit as int))],
{
    assert((CreateNetworkConfig { name: Some(c.name), ..CreateNetworkConfig::unset() }).fields_spec()
        =~= seq![("name"@, json_quoted(c.name@))]);
    assert((CreateNetworkConfig { private: Some(c.private), ..CreateNetworkConfig::unset() }).fields_spec()
        =~= seq![("private"@, bool_text(c.private))]);
    assert((CreateNetworkConfig { enable_broadcast: Some(c.enable_broadcast), ..CreateNetworkConfig::unset() }).fields_spec()
        =~= seq![("enableBroadcast"@, bool_text(c.enable_broadcast))]);
    assert((CreateNetworkConfig { mtu: Some(c.mtu), ..CreateNetworkConfig::unset() }).fields_spec()
        =~= seq![("mtu"@, int_decimal(c.mtu as int))]);
    assert((CreateNetworkConfig { multicast_limit: Some(c.multicast_limit), ..CreateNetworkConfig::unset() }).fields_spec()
        =~= seq![("multicastLimit"@, int_decimal(c.multicast_limit as int))]);
}

} // verus!
