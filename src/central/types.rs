//! Records of the cloud management API, and the partial-update bodies sent to it.

use vstd::prelude::*;
use std::collections::HashMap;
use crate::client::{pools_json, pools_text, routes_json, routes_text, Dns, IpAssignmentPool, Route};
use crate::json::{
    add_field, add_optional, bool_value, field_views, json_quoted, object, object_text, opt_bool_text,
    opt_bool_value, opt_int_text, opt_int_value, opt_string_text, opt_string_value, opt_strings_text,
    opt_strings_value, optional, quote, string_array, string_array_text,
};
use crate::rest::opt_view;
use crate::text::{bool_text, views};

verus! {

/// State of the cloud API and of the account behind the credential.
#[derive(Clone, Debug)]
pub struct CentralStatus {
    pub id: String,
    pub status_type: String,
    pub clock: i64,
    pub version: String,
    pub api_version: String,
    pub uptime: i64,
    pub user: Option<StatusUser>,
    pub read_only_mode: bool,
    pub login_methods: HashMap<String, bool>,
}

/// The account behind the credential.
#[derive(Clone, Debug)]
pub struct StatusUser {
    pub id: String,
    pub org_id: String,
    pub display_name: String,
    pub sms_number: String,
}

/// A network managed in the cloud.
#[derive(Clone, Debug)]
pub struct Network {
    pub id: String,
    pub clock: i64,
    pub config: Option<NetworkConfig>,
    pub description: String,
    pub rules_source: String,
    pub owner_id: String,
    pub online_member_count: i32,
    pub authorized_member_count: i32,
    pub total_member_count: i32,
    pub capabilities_by_name: HashMap<String, i32>,
    pub tags_by_name: HashMap<String, i32>,
}

/// The configuration of a cloud network.
#[derive(Clone, Debug)]
pub struct NetworkConfig {
    pub id: String,
    pub name: String,
    pub private: bool,
    pub creation_time: i64,
    pub last_modified: i64,
    pub enable_broadcast: bool,
    pub mtu: i32,
    pub multicast_limit: i32,
    pub routes: Vec<Route>,
    pub ip_assignment_pools: Vec<IpAssignmentPool>,
    pub v4_assign_mode: Option<AssignMode>,
    pub v6_assign_mode: Option<AssignMode>,
    pub dns: Option<Dns>,
}

/// Address assignment modes of a cloud network.
#[derive(Clone, Debug)]
pub struct AssignMode {
    pub zt: bool,
    pub rfc4193: bool,
    pub n6plane: bool,
}

/// A member of a cloud network.
#[derive(Clone, Debug)]
pub struct Member {
    pub id: String,
    pub network_id: String,
    pub node_id: String,
    pub name: String,
    pub description: String,
    pub config: Option<MemberConfig>,
    pub last_online: i64,
    pub last_seen: i64,
    pub physical_address: String,
    pub client_version: String,
    pub protocol_version: i32,
    pub supports_rules_engine: bool,
}

/// The configuration of a cloud network member.
#[derive(Clone, Debug)]
pub struct MemberConfig {
    pub authorized: bool,
    pub active_bridge: bool,
    pub no_auto_assign_ips: bool,
    pub creation_time: i64,
    pub ip_assignments: Vec<String>,
    pub sso_exempt: bool,
}

/// Body of a network creation or update.
#[derive(Clone, Debug)]
pub struct CreateNetworkRequest {
    pub config: Option<CreateNetworkConfig>,
}

/// Partial network configuration; only the fields that are set are sent.
#[derive(Clone, Debug)]
pub struct CreateNetworkConfig {
    pub name: Option<String>,
    pub private: Option<bool>,
    pub enable_broadcast: Option<bool>,
    pub mtu: Option<i32>,
    pub multicast_limit: Option<i32>,
    pub routes: Option<Vec<Route>>,
    pub ip_assignment_pools: Option<Vec<IpAssignmentPool>>,
    pub v4_assign_mode: Option<AssignMode>,
    pub v6_assign_mode: Option<AssignMode>,
    pub dns: Option<Dns>,
}

/// Body of a member update; only the fields that are set are sent.
#[derive(Clone, Debug)]
pub struct UpdateMemberRequest {
    pub name: Option<String>,
    pub description: Option<String>,
    pub config: Option<UpdateMemberConfig>,
}

/// Partial member configuration; only the fields that are set are sent.
#[derive(Clone, Debug)]
pub struct UpdateMemberConfig {
    pub authorized: Option<bool>,
    pub active_bridge: Option<bool>,
    pub no_auto_assign_ips: Option<bool>,
    pub ip_assignments: Option<Vec<String>>,
}

impl AssignMode {
    pub open spec fn json_spec(&self) -> Seq<char> {
        object_text(seq![("zt"@, bool_text(self.zt)), ("rfc4193"@, bool_text(self.rfc4193)), ("6plane"@, bool_text(self.n6plane))])
    }

    /// The JSON object for these modes.
    pub fn to_json(&self) -> (r: String)
        ensures
            r@ == self.json_spec(),
    {
        let mut f: Vec<(String, String)> = Vec::new();
        add_field(&mut f, "zt", bool_value(self.zt));
        add_field(&mut f, "rfc4193", bool_value(self.rfc4193));
        add_field(&mut f, "6plane", bool_value(self.n6plane));
        proof {
            assert(field_views(f@) =~= seq![("zt"@, bool_text(self.zt)), ("rfc4193"@, bool_text(self.rfc4193)), ("6plane"@, bool_text(self.n6plane))]);
        }
        object(&f)
    }
}

pub open spec fn dns_text(d: Dns) -> Seq<char> {
    object_text(seq![("domain"@, json_quoted(d.domain@)), ("servers"@, string_array_text(views(d.servers@)))])
}

/// The JSON object for DNS settings.
pub fn dns_json(d: &Dns) -> (r: String)
    ensures
        r@ == dns_text(*d),
{
    let mut f: Vec<(String, String)> = Vec::new();
    add_field(&mut f, "domain", quote(d.domain.as_str()));
    add_field(&mut f, "servers", string_array(&d.servers));
    proof {
        assert(field_views(f@) =~= seq![("domain"@, json_quoted(d.domain@)), ("servers"@, string_array_text(views(d.servers@)))]);
    }
    object(&f)
}

pub open spec fn opt_routes_text(o: Option<Vec<Route>>) -> Option<Seq<char>> {
    match o {
        Some(v) => Some(routes_text(v@)),
        None => None,
    }
}

pub open spec fn opt_pools_text(o: Option<Vec<IpAssignmentPool>>) -> Option<Seq<char>> {
    match o {
        Some(v) => Some(pools_text(v@)),
        None => None,
    }
}

pub open spec fn opt_mode_text(o: Option<AssignMode>) -> Option<Seq<char>> {
    match o {
        Some(m) => Some(m.json_spec()),
        None => None,
    }
}

pub open spec fn opt_dns_text(o: Option<Dns>) -> Option<Seq<char>> {
    match o {
        Some(d) => Some(dns_text(d)),
        None => None,
    }
}

fn opt_routes_value(o: &Option<Vec<Route>>) -> (r: Option<String>)
    ensures
        opt_view(r) == opt_routes_text(*o),
{
    match o {
        Some(v) => Some(routes_json(v)),
        None => None,
    }
}

fn opt_pools_value(o: &Option<Vec<IpAssignmentPool>>) -> (r: Option<String>)
    ensures
        opt_view(r) == opt_pools_text(*o),
{
    match o {
        Some(v) => Some(pools_json(v)),
        None => None,
    }
}

fn opt_mode_value(o: &Option<AssignMode>) -> (r: Option<String>)
    ensures
        opt_view(r) == opt_mode_text(*o),
{
    match o {
        Some(m) => Some(m.to_json()),
        None => None,
    }
}

fn opt_dns_value(o: &Option<Dns>) -> (r: Option<String>)
    ensures
        opt_view(r) == opt_dns_text(*o),
{
    match o {
        Some(d) => Some(dns_json(d)),
        None => None,
    }
}

impl CreateNetworkConfig {
    /// A configuration with no field set.
    pub open spec fn unset() -> CreateNetworkConfig {
        CreateNetworkConfig {
            name: None,
            private: None,
            enable_broadcast: None,
            mtu: None,
            multicast_limit: None,
            routes: None,
            ip_assignment_pools: None,
            v4_assign_mode: None,
            v6_assign_mode: None,
            dns: None,
        }
    }

    /// The members sent for this configuration: one per field that is set, in declaration order.
    pub open spec fn fields_spec(&self) -> Seq<(Seq<char>, Seq<char>)> {
        optional("name"@, opt_string_text(self.name))
            + optional("private"@, opt_bool_text(self.private))
            + optional("enableBroadcast"@, opt_bool_text(self.enable_broadcast))
            + optional("mtu"@, opt_int_text(self.mtu))
            + optional("multicastLimit"@, opt_int_text(self.multicast_limit))
            + optional("routes"@, opt_routes_text(self.routes))
            + optional("ipAssignmentPools"@, opt_pools_text(self.ip_assignment_pools))
            + optional("v4AssignMode"@, opt_mode_text(self.v4_assign_mode))
            + optional("v6AssignMode"@, opt_mode_text(self.v6_assign_mode))
            + optional("dns"@, opt_dns_text(self.dns))
    }

    /// The JSON object for this configuration.
    pub fn to_json(&self) -> (r: String)
        ensures
            r@ == object_text(self.fields_spec()),
    {
        let mut f: Vec<(String, String)> = Vec::new();
        add_optional(&mut f, "name", opt_string_value(&self.name));
        add_optional(&mut f, "private", opt_bool_value(self.private));
        add_optional(&mut f, "enableBroadcast", opt_bool_value(self.enable_broadcast));
        add_optional(&mut f, "mtu", opt_int_value(self.mtu));
        add_optional(&mut f, "multicastLimit", opt_int_value(self.multicast_limit));
        add_optional(&mut f, "routes", opt_routes_value(&self.routes));
        add_optional(&mut f, "ipAssignmentPools", opt_pools_value(&self.ip_assignment_pools));
        add_optional(&mut f, "v4AssignMode", opt_mode_value(&self.v4_assign_mode));
        add_optional(&mut f, "v6AssignMode", opt_mode_value(&self.v6_assign_mode));
        add_optional(&mut f, "dns", opt_dns_value(&self.dns));
        proof {
            assert(field_views(f@) =~= self.fields_spec());
        }
        object(&f)
    }
}

pub open spec fn opt_network_config_text(config: Option<CreateNetworkConfig>) -> Option<Seq<char>> {
    match config {
        Some(c) => Some(object_text(c.fields_spec())),
        None => None,
    }
}

/// `{"config": ...}` when a configuration is given, and `{}` when none is.
pub open spec fn network_request_text(config: Option<CreateNetworkConfig>) -> Seq<char> {
    object_text(optional("config"@, opt_network_config_text(config)))
}

/// The JSON body of a network creation or update carrying `config`.
pub fn network_request_json(config: Option<&CreateNetworkConfig>) -> (r: String)
    ensures
        r@ == network_request_text(match config {
            Some(c) => Some(*c),
            None => None,
        }),
{
    let value = match config {
        Some(c) => Some(c.to_json()),
        None => None,
    };
    let mut f: Vec<(String, String)> = Vec::new();
    add_optional(&mut f, "config", value);
    proof {
        assert(field_views(f@) =~= optional("config"@, opt_network_config_text(match config {
            Some(c) => Some(*c),
            None => None,
        })));
    }
    object(&f)
}

impl CreateNetworkRequest {
    /// The JSON body of this request.
    pub fn to_json(&self) -> (r: String)
        ensures
            r@ == network_request_text(self.config),
    {
        match &self.config {
            Some(c) => network_request_json(Some(c)),
            None => network_request_json(None),
        }
    }
}

impl UpdateMemberConfig {
    /// A configuration with no field set.
    pub open spec fn unset() -> UpdateMemberConfig {
        UpdateMemberConfig { authorized: None, active_bridge: None, no_auto_assign_ips: None, ip_assignments: None }
    }

    /// The members sent for this configuration: one per field that is set, in declaration order.
    pub open spec fn fields_spec(&self) -> Seq<(Seq<char>, Seq<char>)> {
        optional("authorized"@, opt_bool_text(self.authorized))
            + optional("activeBridge"@, opt_bool_text(self.active_bridge))
            + optional("noAutoAssignIps"@, opt_bool_text(self.no_auto_assign_ips))
            + optional("ipAssignments"@, opt_strings_text(self.ip_assignments))
    }

    /// The JSON object for this configuration.
    pub fn to_json(&self) -> (r: String)
        ensures
            r@ == object_text(self.fields_spec()),
    {
        let mut f: Vec<(String, String)> = Vec::new();
        add_optional(&mut f, "authorized", opt_bool_value(self.authorized));
        add_optional(&mut f, "activeBridge", opt_bool_value(self.active_bridge));
        add_optional(&mut f, "noAutoAssignIps", opt_bool_value(self.no_auto_assign_ips));
        add_optional(&mut f, "ipAssignments", opt_strings_value(&self.ip_assignments));
        proof {
            assert(field_views(f@) =~= self.fields_spec());
        }
        object(&f)
    }
}

pub open spec fn opt_member_config_text(o: Option<UpdateMemberConfig>) -> Option<Seq<char>> {
    match o {
        Some(c) => Some(object_text(c.fields_spec())),
        None => None,
    }
}

impl UpdateMemberRequest {
    /// The members sent for this request: one per field that is set, in declaration order.
    pub open spec fn fields_spec(&self) -> Seq<(Seq<char>, Seq<char>)> {
        optional("name"@, opt_string_text(self.name))
            + optional("description"@, opt_string_text(self.description))
            + optional("config"@, opt_member_config_text(self.config))
    }

    /// The JSON body of this request.
    pub fn to_json(&self) -> (r: String)
        ensures
            r@ == object_text(self.fields_spec()),
    {
        let config = match &self.config {
            Some(c) => Some(c.to_json()),
            None => None,
        };
        let mut f: Vec<(String, String)> = Vec::new();
        add_optional(&mut f, "name", opt_string_value(&self.name));
        add_optional(&mut f, "description", opt_string_value(&self.description));
        add_optional(&mut f, "config", config);
        proof {
            assert(field_views(f@) =~= self.fields_spec());
        }
        object(&f)
    }
}

impl MemberConfig {
    /// This configuration after the backend has applied `u`: each field that `u`
    /// sets takes its value, and every other field keeps its own.
    pub open spec fn updated_by(self, u: UpdateMemberConfig) -> MemberConfig {
        MemberConfig {
            authorized: if u.authorized is Some { u.authorized->Some_0 } else { self.authorized },
            active_bridge: if u.active_bridge is Some { u.active_bridge->Some_0 } else { self.active_bridge },
            no_auto_assign_ips: if u.no_auto_assign_ips is Some { u.no_auto_assign_ips->Some_0 } else { self.no_auto_assign_ips },
            ip_assignments: if u.ip_assignments is Some { u.ip_assignments->Some_0 } else { self.ip_assignments },
            ..self
        }
    }
}

} // verus!
