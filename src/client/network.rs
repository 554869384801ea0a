//! Networks joined by the local node.

use vstd::prelude::*;
use super::{Client, Network, NetworkSettings};
use crate::text::bool_text;
use crate::rest::{HttpRequest, Method};

verus! {

/// `/network/<network_id>`.
pub open spec fn network_path(network_id: Seq<char>) -> Seq<char> {
    "/network/"@ + network_id
}

pub(crate) fn make_network_path(network_id: &str) -> (r: String)
    ensures
        r@ == network_path(network_id@),
{
    let mut p = String::from_str("/network/");
    p.append(network_id);
    p
}

/// Requests on the networks the local node has joined.
#[derive(Clone, Debug)]
pub struct NetworkService {
    pub client: Client,
}

impl NetworkService {
    pub(crate) fn new(client: Client) -> (r: NetworkService)
        ensures
            r.client == client,
    {
        NetworkService { client }
    }

    /// Plans `GET /network`: every joined network.
    pub fn list(&self) -> (r: HttpRequest)
        ensures
            self.client.backend_spec().plans(r, Method::Get, "/network"@, None),
    {
        self.client.backend().request_empty(Method::Get, "/network")
    }

    /// Plans `GET /network/<id>`.
    pub fn get(&self, network_id: &str) -> (r: HttpRequest)
        ensures
            self.client.backend_spec().plans(r, Method::Get, network_path(network_id@), None),
    {
        let p = make_network_path(network_id);
        self.client.backend().request_empty(Method::Get, p.as_str())
    }

    /// Plans `POST /network/<id>` with an empty object: joins the network.
    pub fn join(&self, network_id: &str) -> (r: HttpRequest)
        ensures
            self.client.backend_spec().plans(r, Method::Post, network_path(network_id@), Some("{}"@)),
    {
        let p = make_network_path(network_id);
        self.client.backend().request(Method::Post, p.as_str(), Some(String::from_str("{}")))
    }

    /// Plans `DELETE /network/<id>`: leaves the network.
    pub fn leave(&self, network_id: &str) -> (r: HttpRequest)
        ensures
            self.client.backend_spec().plans(r, Method::Delete, network_path(network_id@), None),
    {
        let p = make_network_path(network_id);
        self.client.backend().request_empty(Method::Delete, p.as_str())
    }

    /// Plans `POST /network/<id>` carrying only the settings that are set.
    pub fn update(&self, network_id: &str, settings: &NetworkSettings) -> (r: HttpRequest)
        ensures
            self.client.backend_spec().plans(r, Method::Post, network_path(network_id@),
                Some(crate::json::object_text(settings.fields_spec()))),
    {
        let p = make_network_path(network_id);
        self.client.backend().request(Method::Post, p.as_str(), Some(settings.to_json()))
    }
}

/// Builds `NetworkSettings` one field at a time; fields never set stay unset.
#[derive(Clone, Debug)]
pub struct NetworkSettingsBuilder {
    settings: NetworkSettings,
}

impl View for NetworkSettingsBuilder {
    type V = NetworkSettings;

    closed spec fn view(&self) -> NetworkSettings {
        self.settings
    }
}

impl NetworkSettingsBuilder {
    /// A builder with no field set.
    pub fn new() -> (r: NetworkSettingsBuilder)
        ensures
            r@.allow_dns is None,
            r@.allow_default is None,
            r@.allow_global is None,
            r@.allow_managed is None,
    {
        NetworkSettingsBuilder {
            settings: NetworkSettings { allow_dns: None, allow_default: None, allow_global: None, allow_managed: None },
        }
    }

    pub fn allow_dns(self, v: bool) -> (r: NetworkSettingsBuilder)
        ensures
            r@ == (NetworkSettings { allow_dns: Some(v), ..self@ }),
    {
        let mut b = self;
        b.settings.allow_dns = Some(v);
        b
    }

    pub fn allow_default(self, v: bool) -> (r: NetworkSettingsBuilder)
        ensures
            r@ == (NetworkSettings { allow_default: Some(v), ..self@ }),
    {
        let mut b = self;
        b.settings.allow_default = Some(v);
        b
    }

    pub fn allow_global(self, v: bool) -> (r: NetworkSettingsBuilder)
        ensures
            r@ == (NetworkSettings { allow_global: Some(v), ..self@ }),
    {
        let mut b = self;
        b.settings.allow_global = Some(v);
        b
    }

    pub fn allow_managed(self, v: bool) -> (r: NetworkSettingsBuilder)
        ensures
            r@ == (NetworkSettings { allow_managed: Some(v), ..self@ }),
    {
        let mut b = self;
        b.settings.allow_managed = Some(v);
        b
    }

    /// The settings built so far.
    pub fn build(self) -> (r: NetworkSettings)
        ensures
            r == self@,
    {
        self.settings
    }
}

/// Settings with no field set.
pub open spec fn no_settings() -> NetworkSettings {
    NetworkSettings { allow_dns: None, allow_default: None, allow_global: None, allow_managed: None }
}

/// Each setting of a joined network, sent back alone, makes a body with exactly
/// that one member carrying the network's own value: nothing else is sent.
pub proof fn lemma_single_field_updates(n: Network)
    ensures
        (NetworkSettings { allow_dns: Some(n.allow_dns), ..no_settings() }).fields_spec()
            == seq![("allowDns"@, bool_text(n.allow_dns))],
        (NetworkSettings { allow_default: Some(n.allow_default), ..no_settings() }).fields_spec()
            == seq![("allowDefault"@, bool_text(n.allow_default))],
        (NetworkSettings { allow_global: Some(n.allow_global), ..no_settings() }).fields_spec()
            == seq![("allowGlobal"@, bool_text(n.allow_global))],
        (NetworkSettings { allow_managed: Some(n.allow_managed), ..no_settings() }).fields_spec()
            == seq![("allowManaged"@, bool_text(n.allow_managed))],
{
    assert((NetworkSettings { allow_dns: Some(n.allow_dns), ..no_settings() }).fields_spec()
        =~= seq![("allowDns"@, bool_text(n.allow_dns))]);
    assert((NetworkSettings { allow_default: Some(n.allow_default), ..no_settings() }).fields_spec()
        =~= seq![("allowDefault"@, bool_text(n.allow_default))]);
    assert((NetworkSettings { allow_global: Some(n.allow_global), ..no_settings() }).fields_spec()
        =~= seq![("allowGlobal"@, bool_text(n.allow_global))]);
    assert((NetworkSettings { allow_managed: Some(n.allow_managed), ..no_settings() }).fields_spec()
        =~= seq![("allowManaged"@, bool_text(n.allow_managed))]);
}

} // verus!
