//! Records of the local node service API, and the partial-update bodies sent to it.

use vstd::prelude::*;
use crate::json::{
    add_optional, array, array_text, field_views, json_quoted, object, object_text, opt_bool_text,
    opt_bool_value, opt_int_text, opt_int_value, opt_string_text, opt_string_value,
    opt_strings_text, opt_strings_value, optional, quote,
};
use crate::rest::opt_view;
use crate::text::views;

verus! {

/// State of the local node.
#[derive(Clone, Debug)]
pub struct NodeStatus {
    pub address: String,
    pub clock: i64,
    pub online: bool,
    pub planet_world_id: i64,
    pub public_identity: String,
    pub tcp_fallback_active: bool,
    pub version: String,
}

/// A network the local node has joined.
#[derive(Clone, Debug)]
pub struct Network {
    pub id: String,
    pub name: String,
    pub status: String,
    pub network_type: String,
    pub mac: String,
    pub mtu: i32,
    pub bridge: bool,
    pub broadcast_enabled: bool,
    pub port_device_name: String,
    pub netconf_revision: i32,
    pub assigned_addresses: Vec<String>,
    pub allow_dns: bool,
    pub allow_default: bool,
    pub allow_global: bool,
    pub allow_managed: bool,
    pub dns: Option<Dns>,
}

/// DNS settings pushed by a network.
#[derive(Clone, Debug)]
pub struct Dns {
    pub domain: String,
    pub servers: Vec<String>,
}

/// Settings of a joined network; only the fields that are set are sent.
#[derive(Clone, Debug)]
pub struct NetworkSettings {
    pub allow_dns: Option<bool>,
    pub allow_default: Option<bool>,
    pub allow_global: Option<bool>,
    pub allow_managed: Option<bool>,
}

/// A peer known to the local node.
#[derive(Clone, Debug)]
pub struct Peer {
    pub address: String,
    pub version: String,
    pub role: String,
    pub latency: i32,
    pub paths: Vec<PeerPath>,
}

/// One physical path to a peer.
#[derive(Clone, Debug)]
pub struct PeerPath {
    pub active: bool,
    pub address: String,
    pub expired: bool,
    pub last_receive: i64,
    pub last_send: i64,
    pub preferred: bool,
    pub trusted_path_id: i64,
}

/// State of the self-hosted controller.
#[derive(Clone, Debug)]
pub struct ControllerStatus {
    pub controller: bool,
    pub api_version: i32,
    pub clock: i64,
}

/// A network defined on the self-hosted controller.
#[derive(Clone, Debug)]
pub struct ControllerNetwork {
    pub id: String,
    pub name: String,
    pub private: bool,
    pub creation_time: i64,
    pub revision: i32,
    pub multicast_limit: i32,
    pub enable_broadcast: bool,
    pub routes: Vec<Route>,
    pub ip_assignment_pools: Vec<IpAssignmentPool>,
    pub v4_assign_mode: Option<AssignMode>,
    pub v6_assign_mode: Option<AssignMode>,
}

/// A managed route.
#[derive(Clone, Debug)]
pub struct Route {
    pub target: String,
    pub via: Option<String>,
}

/// A range of addresses handed out automatically.
#[derive(Clone, Debug)]
pub struct IpAssignmentPool {
    pub ip_range_start: String,
    pub ip_range_end: String,
}

/// Address assignment mode of the controller.
#[derive(Clone, Debug)]
pub struct AssignMode {
    pub zt: bool,
}

/// A member of a network on the self-hosted controller.
#[derive(Clone, Debug)]
pub struct ControllerMember {
    pub id: String,
    pub address: String,
    pub network_id: String,
    pub authorized: bool,
    pub active_bridge: bool,
    pub ip_assignments: Vec<String>,
    pub no_auto_assign_ips: bool,
    pub revision: i32,
    pub creation_time: i64,
    pub last_authorized_time: i64,
    pub last_deauthorized_time: i64,
}

/// Partial configuration of a controller network; only the fields that are set are sent.
#[derive(Clone, Debug)]
pub struct ControllerNetworkConfig {
    pub name: Option<String>,
    pub private: Option<bool>,
    pub enable_broadcast: Option<bool>,
    pub multicast_limit: Option<i32>,
    pub routes: Option<Vec<Route>>,
    pub ip_assignment_pools: Option<Vec<IpAssignmentPool>>,
    pub v4_assign_mode: Option<AssignMode>,
    pub v6_assign_mode: Option<AssignMode>,
}

/// Partial configuration of a controller member; only the fields that are set are sent.
#[derive(Clone, Debug)]
pub struct ControllerMemberConfig {
    pub authorized: Option<bool>,
    pub active_bridge: Option<bool>,
    pub ip_assignments: Option<Vec<String>>,
    pub no_auto_assign_ips: Option<bool>,
}

impl NetworkSettings {
    /// The members sent for these settings: one per field that is set, in declaration order.
    pub open spec fn fields_spec(&self) -> Seq<(Seq<char>, Seq<char>)> {
        optional("allowDns"@, opt_bool_text(self.allow_dns))
            + optional("allowDefault"@, opt_bool_text(self.allow_default))
            + optional("allowGlobal"@, opt_bool_text(self.allow_global))
            + optional("allowManaged"@, opt_bool_text(self.allow_managed))
    }

    /// The JSON body for these settings.
    pub fn to_json(&self) -> (r: String)
        ensures
            r@ == object_text(self.fields_spec()),
    {
        let mut f: Vec<(String, String)> = Vec::new();
        add_optional(&mut f, "allowDns", opt_bool_value(self.allow_dns));
        add_optional(&mut f, "allowDefault", opt_bool_value(self.allow_default));
        add_optional(&mut f, "allowGlobal", opt_bool_value(self.allow_global));
        add_optional(&mut f, "allowManaged", opt_bool_value(self.allow_managed));
        proof {
            assert(field_views(f@) =~= self.fields_spec());
        }
        object(&f)
    }
}

impl Route {
    pub open spec fn json_spec(&self) -> Seq<char> {
        object_text(seq![("target"@, json_quoted(self.target@))] + optional("via"@, opt_string_text(self.via)))
    }

    /// The JSON object for this route; `via` only when set.
    pub fn to_json(&self) -> (r: String)
        ensures
            r@ == self.json_spec(),
    {
        let mut f: Vec<(String, String)> = Vec::new();
        crate::json::add_field(&mut f, "target", quote(self.target.as_str()));
        add_optional(&mut f, "via", opt_string_value(&self.via));
        proof {
            assert(field_views(f@) =~= seq![("target"@, json_quoted(self.target@))] + optional("via"@, opt_string_text(self.via)));
        }
        object(&f)
    }
}

impl IpAssignmentPool {
    pub open spec fn json_spec(&self) -> Seq<char> {
        object_text(seq![("ipRangeStart"@, json_quoted(self.ip_range_start@)), ("ipRangeEnd"@, json_quoted(self.ip_range_end@))])
    }

    /// The JSON object for this pool.
    pub fn to_json(&self) -> (r: String)
        ensures
            r@ == self.json_spec(),
    {
        let mut f: Vec<(String, String)> = Vec::new();
        crate::json::add_field(&mut f, "ipRangeStart", quote(self.ip_range_start.as_str()));
        crate::json::add_field(&mut f, "ipRangeEnd", quote(self.ip_range_end.as_str()));
        proof {
            assert(field_views(f@) =~= seq![("ipRangeStart"@, json_quoted(self.ip_range_start@)), ("ipRangeEnd"@, json_quoted(self.ip_range_end@))]);
        }
        object(&f)
    }
}

impl AssignMode {
    pub open spec fn json_spec(&self) -> Seq<char> {
        object_text(seq![("zt"@, crate::text::bool_text(self.zt))])
    }

    /// The JSON object for this mode.
    pub fn to_json(&self) -> (r: String)
        ensures
            r@ == self.json_spec(),
    {
        let mut f: Vec<(String, String)> = Vec::new();
        crate::json::add_field(&mut f, "zt", crate::json::bool_value(self.zt));
        proof {
            assert(field_views(f@) =~= seq![("zt"@, crate::text::bool_text(self.zt))]);
        }
        object(&f)
    }
}

pub open spec fn routes_text(rs: Seq<Route>) -> Seq<char> {
    array_text(rs.map_values(|r: Route| r.json_spec()))
}

pub open spec fn pools_text(ps: Seq<IpAssignmentPool>) -> Seq<char> {
    array_text(ps.map_values(|p: IpAssignmentPool| p.json_spec()))
}

pub open spec fn opt_routes_text(o: Option<Vec<Route>>) -> Option<Seq<char>> {
    match o {
        Some(v) => Some(routes_text(v@)),
        None => None,
    }
}

pub open spec fn opt_pools_text(o: Option<Vec<IpAssignmentPool>>) -> Option<Seq<char>> {
    match o {
        Some(v) => Some(pools_text(v@)),
        None => None,
    }
}

pub open spec fn opt_mode_text(o: Option<AssignMode>) -> Option<Seq<char>> {
    match o {
        Some(m) => Some(m.json_spec()),
        None => None,
    }
}

/// The JSON array of `routes`.
pub fn routes_json(routes: &Vec<Route>) -> (r: String)
    ensures
        r@ == routes_text(routes@),
{
    let mut items: Vec<String> = Vec::new();
    let mut i: usize = 0;
    while i < routes.len()
        invariant
            i <= routes@.len(),
            items@.len() == i,
            forall|j: int| 0 <= j < i ==> #[trigger] items@[j]@ == routes@[j].json_spec(),
        decreases routes@.len() - i,
    {
        items.push(routes[i].to_json());
        i = i + 1;
    }
    proof {
        assert(views(items@) =~= routes@.map_values(|r: Route| r.json_spec()));
    }
    array(&items)
}

/// The JSON array of `pools`.
pub fn pools_json(pools: &Vec<IpAssignmentPool>) -> (r: String)
    ensures
        r@ == pools_text(pools@),
{
    let mut items: Vec<String> = Vec::new();
    let mut i: usize = 0;
    while i < pools.len()
        invariant
            i <= pools@.len(),
            items@.len() == i,
            forall|j: int| 0 <= j < i ==> #[trigger] items@[j]@ == pools@[j].json_spec(),
        decreases pools@.len() - i,
    {
        items.push(pools[i].to_json());
        i = i + 1;
    }
    proof {
        assert(views(items@) =~= pools@.map_values(|p: IpAssignmentPool| p.json_spec()));
    }
    array(&items)
}

fn opt_routes_value(o: &Option<Vec<Route>>) -> (r: Option<String>)
    ensures
        opt_view(r) == opt_routes_text(*o),
{
    match o {
        Some(v) => Some(routes_json(v)),
        None => None,
    }
}

fn opt_pools_value(o: &Option<Vec<IpAssignmentPool>>) -> (r: Option<String>)
    ensures
        opt_view(r) == opt_pools_text(*o),
{
    match o {
        Some(v) => Some(pools_json(v)),
        None => None,
    }
}

fn opt_mode_value(o: &Option<AssignMode>) -> (r: Option<String>)
    ensures
        opt_view(r) == opt_mode_text(*o),
{
    match o {
        Some(m) => Some(m.to_json()),
        None => None,
    }
}

impl ControllerNetworkConfig {
    /// The members sent for this configuration: one per field that is set, in declaration order.
    pub open spec fn fields_spec(&self) -> Seq<(Seq<char>, Seq<char>)> {
        optional("name"@, opt_string_text(self.name))
            + optional("private"@, opt_bool_text(self.private))
            + optional("enableBroadcast"@, opt_bool_text(self.enable_broadcast))
            + optional("multicastLimit"@, opt_int_text(self.multicast_limit))
            + optional("routes"@, opt_routes_text(self.routes))
            + optional("ipAssignmentPools"@, opt_pools_text(self.ip_assignment_pools))
            + optional("v4AssignMode"@, opt_mode_text(self.v4_assign_mode))
            + optional("v6AssignMode"@, opt_mode_text(self.v6_assign_mode))
    }

    /// The JSON body for this configuration.
    pub fn to_json(&self) -> (r: String)
        ensures
            r@ == object_text(self.fields_spec()),
    {
        let mut f: Vec<(String, String)> = Vec::new();
        add_optional(&mut f, "name", opt_string_value(&self.name));
        add_optional(&mut f, "private", opt_bool_value(self.private));
        add_optional(&mut f, "enableBroadcast", opt_bool_value(self.enable_broadcast));
        add_optional(&mut f, "multicastLimit", opt_int_value(self.multicast_limit));
        add_optional(&mut f, "routes", opt_routes_value(&self.routes));
        add_optional(&mut f, "ipAssignmentPools", opt_pools_value(&self.ip_assignment_pools));
        add_optional(&mut f, "v4AssignMode", opt_mode_value(&self.v4_assign_mode));
        add_optional(&mut f, "v6AssignMode", opt_mode_value(&self.v6_assign_mode));
        proof {
            assert(field_views(f@) =~= self.fields_spec());
        }
        object(&f)
    }
}

impl ControllerMemberConfig {
    /// The members sent for this configuration: one per field that is set, in declaration order.
    pub open spec fn fields_spec(&self) -> Seq<(Seq<char>, Seq<char>)> {
        optional("authorized"@, opt_bool_text(self.authorized))
            + optional("activeBridge"@, opt_bool_text(self.active_bridge))
            + optional("ipAssignments"@, opt_strings_text(self.ip_assignments))
            + optional("noAutoAssignIps"@, opt_bool_text(self.no_auto_assign_ips))
    }

    /// The JSON body for this configuration.
    pub fn to_json(&self) -> (r: String)
        ensures
            r@ == object_text(self.fields_spec()),
    {
        let mut f: Vec<(String, String)> = Vec::new();
        add_optional(&mut f, "authorized", opt_bool_value(self.authorized));
        add_optional(&mut f, "activeBridge", opt_bool_value(self.active_bridge));
        add_optional(&mut f, "ipAssignments", opt_strings_value(&self.ip_assignments));
        add_optional(&mut f, "noAutoAssignIps", opt_bool_value(self.no_auto_assign_ips));
        proof {
            assert(field_views(f@) =~= self.fields_spec());
        }
        object(&f)
    }
}

} // verus!
