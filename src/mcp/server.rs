//! Tool dispatch: one invocation is validated, checked against the configured
//! backends, and turned into exactly one planned request, or refused.

use vstd::prelude::*;
use crate::central::{authorization_change, member_path, members_path, Central, UpdateMemberConfig, UpdateMemberRequest};
use crate::client::{network_path, Client};
use crate::json::{object_text, string_array_text};
use crate::text::{bool_text, views};
use crate::rest::{HttpRequest, Method};

verus! {

/// The sentence of a cloud tool invoked without a cloud credential.
pub const NOT_CONFIGURED: &'static str = "未配置 Central API Token";

/// Argument of the tools that act on one network.
#[derive(Clone, Debug)]
pub struct NetworkIdParam {
    pub network_id: String,
}

/// Argument of the tools that act on one member of a network.
#[derive(Clone, Debug)]
pub struct MemberParam {
    pub network_id: String,
    pub member_id: String,
}

/// Arguments of the tool that authorizes a member with a chosen address.
#[derive(Clone, Debug)]
pub struct AuthorizeWithIpParam {
    pub network_id: String,
    pub member_id: String,
    pub ip_address: String,
}

/// The tools of the catalog.
#[derive(Clone, Copy, Debug, PartialEq, Eq, Structural)]
pub enum Tool {
    Status,
    ListNetworks,
    JoinNetwork,
    LeaveNetwork,
    ListPeers,
    CloudListNetworks,
    CloudListMembers,
    CloudAuthorizeMember,
    CloudAuthorizeMemberWithIp,
    CloudDeauthorizeMember,
}

/// The names of all arguments, in the order in which the tools take them.
pub open spec fn arg_names() -> Seq<Seq<char>> {
    seq!["network_id"@, "member_id"@, "ip_address"@]
}

impl Tool {
    pub open spec fn name_spec(self) -> Seq<char> {
        match self {
            Tool::Status => "status"@,
            Tool::ListNetworks => "list-networks"@,
            Tool::JoinNetwork => "join-network"@,
            Tool::LeaveNetwork => "leave-network"@,
            Tool::ListPeers => "list-peers"@,
            Tool::CloudListNetworks => "cloud-list-networks"@,
            Tool::CloudListMembers => "cloud-list-members"@,
            Tool::CloudAuthorizeMember => "cloud-authorize-member"@,
            Tool::CloudAuthorizeMemberWithIp => "cloud-authorize-member-with-ip"@,
            Tool::CloudDeauthorizeMember => "cloud-deauthorize-member"@,
        }
    }

    /// How many of `arg_names()` the tool requires (always a prefix).
    pub open spec fn arity(self) -> nat {
        match self {
            Tool::Status | Tool::ListNetworks | Tool::ListPeers | Tool::CloudListNetworks => 0,
            Tool::JoinNetwork | Tool::LeaveNetwork | Tool::CloudListMembers => 1,
            Tool::CloudAuthorizeMember | Tool::CloudDeauthorizeMember => 2,
            Tool::CloudAuthorizeMemberWithIp => 3,
        }
    }

    /// Whether the tool acts on the cloud backend.
    pub open spec fn is_cloud(self) -> bool {
        match self {
            Tool::CloudListNetworks | Tool::CloudListMembers | Tool::CloudAuthorizeMember
            | Tool::CloudAuthorizeMemberWithIp | Tool::CloudDeauthorizeMember => true,
            _ => false,
        }
    }

    /// The name under which the tool is invoked.
    pub fn name(&self) -> (r: &'static str)
        ensures
            r@ == self.name_spec(),
    {
        match self {
            Tool::Status => "status",
            Tool::ListNetworks => "list-networks",
            Tool::JoinNetwork => "join-network",
            Tool::LeaveNetwork => "leave-network",
            Tool::ListPeers => "list-peers",
            Tool::CloudListNetworks => "cloud-list-networks",
            Tool::CloudListMembers => "cloud-list-members",
            Tool::CloudAuthorizeMember => "cloud-authorize-member",
            Tool::CloudAuthorizeMemberWithIp => "cloud-authorize-member-with-ip",
            Tool::CloudDeauthorizeMember => "cloud-deauthorize-member",
        }
    }

    pub open spec fn description_spec(self) -> Seq<char> {
        match self {
            Tool::Status => "获取本地 ZeroTier 节点状态"@,
            Tool::ListNetworks => "列出已加入的 ZeroTier 网络"@,
            Tool::JoinNetwork => "加入 ZeroTier 网络"@,
            Tool::LeaveNetwork => "离开 ZeroTier 网络"@,
            Tool::ListPeers => "列出所有 ZeroTier Peers"@,
            Tool::CloudListNetworks => "列出云端 ZeroTier 网络"@,
            Tool::CloudListMembers => "列出网络成员"@,
            Tool::CloudAuthorizeMember => "授权网络成员"@,
            Tool::CloudAuthorizeMemberWithIp => "授权网络成员并指定自定义 IP 地址"@,
            Tool::CloudDeauthorizeMember => "取消成员授权"@,
        }
    }

    /// A one-line description of the tool.
    pub fn description(&self) -> (r: &'static str)
        ensures
            r@ == self.description_spec(),
    {
        match self {
            Tool::Status => "获取本地 ZeroTier 节点状态",
            Tool::ListNetworks => "列出已加入的 ZeroTier 网络",
            Tool::JoinNetwork => "加入 ZeroTier 网络",
            Tool::LeaveNetwork => "离开 ZeroTier 网络",
            Tool::ListPeers => "列出所有 ZeroTier Peers",
            Tool::CloudListNetworks => "列出云端 ZeroTier 网络",
            Tool::CloudListMembers => "列出网络成员",
            Tool::CloudAuthorizeMember => "授权网络成员",
            Tool::CloudAuthorizeMemberWithIp => "授权网络成员并指定自定义 IP 地址",
            Tool::CloudDeauthorizeMember => "取消成员授权",
        }
    }

    /// The number of arguments the tool requires: the first ones of `network_id`,
    /// `member_id`, `ip_address`.
    pub fn arity_of(&self) -> (r: usize)
        ensures
            r == self.arity(),
    {
        match self {
            Tool::Status | Tool::ListNetworks | Tool::ListPeers | Tool::CloudListNetworks => 0,
            Tool::JoinNetwork | Tool::LeaveNetwork | Tool::CloudListMembers => 1,
            Tool::CloudAuthorizeMember | Tool::CloudDeauthorizeMember => 2,
            Tool::CloudAuthorizeMemberWithIp => 3,
        }
    }

    /// The whole catalog, in a fixed order.
    pub fn all() -> (r: Vec<Tool>)
        ensures
            r@ == seq![Tool::Status, Tool::ListNetworks, Tool::JoinNetwork, Tool::LeaveNetwork,
                Tool::ListPeers, Tool::CloudListNetworks, Tool::CloudListMembers,
                Tool::CloudAuthorizeMember, Tool::CloudAuthorizeMemberWithIp, Tool::CloudDeauthorizeMember],
    {
        let r = vec![Tool::Status, Tool::ListNetworks, Tool::JoinNetwork, Tool::LeaveNetwork,
            Tool::ListPeers, Tool::CloudListNetworks, Tool::CloudListMembers,
            Tool::CloudAuthorizeMember, Tool::CloudAuthorizeMemberWithIp, Tool::CloudDeauthorizeMember];
        proof {
            assert(r@ =~= seq![Tool::Status, Tool::ListNetworks, Tool::JoinNetwork, Tool::LeaveNetwork,
                Tool::ListPeers, Tool::CloudListNetworks, Tool::CloudListMembers,
                Tool::CloudAuthorizeMember, Tool::CloudAuthorizeMemberWithIp, Tool::CloudDeauthorizeMember]);
        }
        r
    }
}

/// The tool registered under `name`, if any.
pub open spec fn tool_named(name: Seq<char>) -> Option<Tool> {
    if name == Tool::Status.name_spec() { Some(Tool::Status) }
    else if name == Tool::ListNetworks.name_spec() { Some(Tool::ListNetworks) }
    else if name == Tool::JoinNetwork.name_spec() { Some(Tool::JoinNetwork) }
    else if name == Tool::LeaveNetwork.name_spec() { Some(Tool::LeaveNetwork) }
    else if name == Tool::ListPeers.name_spec() { Some(Tool::ListPeers) }
    else if name == Tool::CloudListNetworks.name_spec() { Some(Tool::CloudListNetworks) }
    else if name == Tool::CloudListMembers.name_spec() { Some(Tool::CloudListMembers) }
    else if name == Tool::CloudAuthorizeMember.name_spec() { Some(Tool::CloudAuthorizeMember) }
    else if name == Tool::CloudAuthorizeMemberWithIp.name_spec() { Some(Tool::CloudAuthorizeMemberWithIp) }
    else if name == Tool::CloudDeauthorizeMember.name_spec() { Some(Tool::CloudDeauthorizeMember) }
    else { None }
}

/// The arguments `t` requires, in order.
pub open spec fn required_args(t: Tool) -> Seq<Seq<char>> {
    arg_names().take(t.arity() as int)
}

/// A value given for an argument.
#[derive(Clone, Debug)]
pub enum ArgValue {
    Text(String),
    /// Anything but a string.
    Other,
}

/// One request of the caller: a tool name and named argument values.
#[derive(Clone, Debug)]
pub struct ToolInvocation {
    pub name: String,
    pub arguments: Vec<(String, ArgValue)>,
}

/// The value given first for `key`.
pub open spec fn lookup(args: Seq<(String, ArgValue)>, key: Seq<char>) -> Option<ArgValue>
    decreases args.len(),
{
    if args.len() == 0 {
        None
    } else if args[0].0@ == key {
        Some(args[0].1)
    } else {
        lookup(args.drop_first(), key)
    }
}

/// The text given for `key`, when a string was given.
pub open spec fn arg_text(args: Seq<(String, ArgValue)>, key: Seq<char>) -> Option<Seq<char>> {
    match lookup(args, key) {
        Some(ArgValue::Text(s)) => Some(s@),
        _ => None,
    }
}

/// What is wrong with argument `key`, if anything.
pub open spec fn problem(args: Seq<(String, ArgValue)>, key: Seq<char>) -> Option<Seq<char>> {
    match lookup(args, key) {
        None => Some("missing required argument: "@ + key),
        Some(ArgValue::Other) => Some("argument "@ + key + " must be a string"@),
        Some(ArgValue::Text(_)) => None,
    }
}

/// What is wrong with the first of `keys` that has a problem, if any.
pub open spec fn first_problem(args: Seq<(String, ArgValue)>, keys: Seq<Seq<char>>) -> Option<Seq<char>>
    decreases keys.len(),
{
    if keys.len() == 0 {
        None
    } else {
        match problem(args, keys[0]) {
            Some(m) => Some(m),
            None => first_problem(args, keys.drop_first()),
        }
    }
}

/// A validated invocation: the tool with its arguments.
#[derive(Clone, Debug)]
pub enum Call {
    Status,
    ListNetworks,
    JoinNetwork(NetworkIdParam),
    LeaveNetwork(NetworkIdParam),
    ListPeers,
    CloudListNetworks,
    CloudListMembers(NetworkIdParam),
    CloudAuthorizeMember(MemberParam),
    CloudAuthorizeMemberWithIp(AuthorizeWithIpParam),
    CloudDeauthorizeMember(MemberParam),
}

impl Call {
    /// The tool of this call.
    pub open spec fn tool(self) -> Tool {
        match self {
            Call::Status => Tool::Status,
            Call::ListNetworks => Tool::ListNetworks,
            Call::JoinNetwork(_) => Tool::JoinNetwork,
            Call::LeaveNetwork(_) => Tool::LeaveNetwork,
            Call::ListPeers => Tool::ListPeers,
            Call::CloudListNetworks => Tool::CloudListNetworks,
            Call::CloudListMembers(_) => Tool::CloudListMembers,
            Call::CloudAuthorizeMember(_) => Tool::CloudAuthorizeMember,
            Call::CloudAuthorizeMemberWithIp(_) => Tool::CloudAuthorizeMemberWithIp,
            Call::CloudDeauthorizeMember(_) => Tool::CloudDeauthorizeMember,
        }
    }

    /// The argument values of this call, in the order of `arg_names()`.
    pub open spec fn args(self) -> Seq<Seq<char>> {
        match self {
            Call::JoinNetwork(p) | Call::LeaveNetwork(p) | Call::CloudListMembers(p) => seq![p.network_id@],
            Call::CloudAuthorizeMember(p) | Call::CloudDeauthorizeMember(p) => seq![p.network_id@, p.member_id@],
            Call::CloudAuthorizeMemberWithIp(p) => seq![p.network_id@, p.member_id@, p.ip_address@],
            _ => Seq::empty(),
        }
    }
}

/// The body that authorizes a member and gives it exactly the address `ip`,
/// leaving every other field unset.
pub open spec fn ip_authorization_text(ip: Seq<char>) -> Seq<char> {
    object_text(seq![("config"@, object_text(seq![
        ("authorized"@, bool_text(true)),
        ("ipAssignments"@, string_array_text(seq![ip])),
    ]))])
}

/// The outcome of the first stage of an invocation.
#[derive(Clone, Debug)]
pub enum Step {
    /// Unknown tool, or a missing or mistyped argument: nothing was attempted.
    Rejected(String),
    /// The tool needs a backend that is not configured: nothing was attempted.
    Failed(String),
    /// The one request to perform for this call.
    Execute(Call, HttpRequest),
}

/// The dispatcher: one local backend, and a cloud backend when a credential was given.
#[derive(Clone, Debug)]
pub struct McpServer {
    pub local_client: Client,
    pub central_client: Option<Central>,
}

fn lookup_from(args: &Vec<(String, ArgValue)>, key: &str) -> (r: Option<ArgValue>)
    ensures
        r == lookup(args@, key@),
{
    let k = key.to_owned();
    let mut i: usize = 0;
    proof {
        assert(args@.subrange(0, args@.len() as int) =~= args@);
    }
    while i < args.len()
        invariant
            i <= args@.len(),
            k@ == key@,
            lookup(args@, key@) == lookup(args@.subrange(i as int, args@.len() as int), key@),
        decreases args@.len() - i,
    {
        let ghost rest = args@.subrange(i as int, args@.len() as int);
        proof {
            assert(rest[0] == args@[i as int]);
            assert(rest.drop_first() =~= args@.subrange(i as int + 1, args@.len() as int));
        }
        if args[i].0 == k {
            return Some(args[i].1.clone_value());
        }
        i = i + 1;
    }
    proof {
        assert(args@.subrange(i as int, args@.len() as int).len() == 0);
    }
    None
}

impl ArgValue {
    /// A copy of this value.
    pub fn clone_value(&self) -> (r: ArgValue)
        ensures
            r == *self,
    {
        match self {
            ArgValue::Text(s) => ArgValue::Text(s.clone()),
            ArgValue::Other => ArgValue::Other,
        }
    }
}

/// The text given for `key`, or what is wrong with it.
fn text_arg(args: &Vec<(String, ArgValue)>, key: &str) -> (r: Result<String, String>)
    ensures
        match problem(args@, key@) {
            Some(m) => r matches Err(x) && x@ == m,
            None => r matches Ok(s) && arg_text(args@, key@) == Some(s@),
        },
{
    match lookup_from(args, key) {
        None => {
            let mut m = String::from_str("missing required argument: ");
            m.append(key);
            Err(m)
        },
        Some(ArgValue::Other) => {
            let mut m = String::from_str("argument ");
            m.append(key);
            m.append(" must be a string");
            Err(m)
        },
        Some(ArgValue::Text(s)) => Ok(s),
    }
}

/// The argument texts of a valid invocation of `t`, in order.
pub open spec fn required_texts(args: Seq<(String, ArgValue)>, t: Tool) -> Seq<Seq<char>> {
    required_args(t).map_values(|k: Seq<char>| arg_text(args, k)->Some_0)
}

proof fn lemma_required_args(t: Tool)
    ensures
        t.arity() == 0 ==> required_args(t) =~= Seq::<Seq<char>>::empty(),
        t.arity() == 1 ==> required_args(t) =~= seq!["network_id"@],
        t.arity() == 2 ==> required_args(t) =~= seq!["network_id"@, "member_id"@],
        t.arity() == 3 ==> required_args(t) =~= seq!["network_id"@, "member_id"@, "ip_address"@],
{
}

proof fn lemma_first_problem_unfold(args: Seq<(String, ArgValue)>, a: Seq<char>, b: Seq<char>, c: Seq<char>)
    ensures
        first_problem(args, Seq::empty()) is None,
        first_problem(args, seq![a]) == (if problem(args, a) is Some { problem(args, a) } else { None }),
        first_problem(args, seq![a, b]) == (if problem(args, a) is Some { problem(args, a) }
            else if problem(args, b) is Some { problem(args, b) } else { None }),
        first_problem(args, seq![a, b, c]) == (if problem(args, a) is Some { problem(args, a) }
            else if problem(args, b) is Some { problem(args, b) }
            else if problem(args, c) is Some { problem(args, c) } else { None }),
{
    reveal_with_fuel(first_problem, 4);
    assert(seq![a].drop_first() =~= Seq::<Seq<char>>::empty());
    assert(seq![a, b].drop_first() =~= seq![b]);
    assert(seq![a, b, c].drop_first() =~= seq![b, c]);
    assert(seq![b, c].drop_first() =~= seq![c]);
    assert(seq![b].drop_first() =~= Seq::<Seq<char>>::empty());
    assert(seq![c].drop_first() =~= Seq::<Seq<char>>::empty());
}

/// Validates the arguments of an invocation of `tool`: the first problem of
/// its required arguments, or the call they make.
pub fn validate(tool: Tool, args: &Vec<(String, ArgValue)>) -> (r: Result<Call, String>)
    ensures
        match first_problem(args@, required_args(tool)) {
            Some(m) => r matches Err(x) && x@ == m,
            None => r matches Ok(c) && c.tool() == tool && c.args() =~= required_texts(args@, tool),
        },
{
    proof {
        lemma_required_args(tool);
        lemma_first_problem_unfold(args@, "network_id"@, "member_id"@, "ip_address"@);
    }
    match tool {
        Tool::Status => Ok(Call::Status),
        Tool::ListNetworks => Ok(Call::ListNetworks),
        Tool::ListPeers => Ok(Call::ListPeers),
        Tool::CloudListNetworks => Ok(Call::CloudListNetworks),
        Tool::JoinNetwork | Tool::LeaveNetwork | Tool::CloudListMembers => {
            let network_id = match text_arg(args, "network_id") {
                Err(m) => { return Err(m); },
                Ok(s) => s,
            };
            let p = NetworkIdParam { network_id };
            match tool {
                Tool::JoinNetwork => Ok(Call::JoinNetwork(p)),
                Tool::LeaveNetwork => Ok(Call::LeaveNetwork(p)),
                _ => Ok(Call::CloudListMembers(p)),
            }
        },
        Tool::CloudAuthorizeMember | Tool::CloudDeauthorizeMember => {
            let network_id = match text_arg(args, "network_id") {
                Err(m) => { return Err(m); },
                Ok(s) => s,
            };
            let member_id = match text_arg(args, "member_id") {
                Err(m) => { return Err(m); },
                Ok(s) => s,
            };
            let p = MemberParam { network_id, member_id };
            match tool {
                Tool::CloudAuthorizeMember => Ok(Call::CloudAuthorizeMember(p)),
                _ => Ok(Call::CloudDeauthorizeMember(p)),
            }
        },
        Tool::CloudAuthorizeMemberWithIp => {
            let network_id = match text_arg(args, "network_id") {
                Err(m) => { return Err(m); },
                Ok(s) => s,
            };
            let member_id = match text_arg(args, "member_id") {
                Err(m) => { return Err(m); },
                Ok(s) => s,
            };
            let ip_address = match text_arg(args, "ip_address") {
                Err(m) => { return Err(m); },
                Ok(s) => s,
            };
            Ok(Call::CloudAuthorizeMemberWithIp(AuthorizeWithIpParam { network_id, member_id, ip_address }))
        },
    }
}

impl Tool {
    /// The tool registered under `name`, if any.
    pub fn from_name(name: &String) -> (r: Option<Tool>)
        ensures
            r == tool_named(name@),
    {
        let candidates = Tool::all();
        let mut i: usize = 0;
        while i < candidates.len()
            invariant
                i <= candidates@.len(),
                candidates@ == seq![Tool::Status, Tool::ListNetworks, Tool::JoinNetwork, Tool::LeaveNetwork,
                    Tool::ListPeers, Tool::CloudListNetworks, Tool::CloudListMembers,
                    Tool::CloudAuthorizeMember, Tool::CloudAuthorizeMemberWithIp, Tool::CloudDeauthorizeMember],
                forall|j: int| 0 <= j < i ==> name@ != #[trigger] candidates@[j].name_spec(),
            decreases candidates@.len() - i,
        {
            let t = candidates[i];
            let n = String::from_str(t.name());
            if *name == n {
                return Some(t);
            }
            i = i + 1;
        }
        None
    }
}

impl McpServer {
    /// `req` is the request that `call` makes against the configured backends.
    pub open spec fn requests(self, call: Call, req: HttpRequest) -> bool {
        let local = self.local_client.backend_spec();
        let cloud = self.central_client->Some_0.backend_spec();
        match call {
            Call::Status => local.plans(req, Method::Get, "/status"@, None),
            Call::ListNetworks => local.plans(req, Method::Get, "/network"@, None),
            Call::JoinNetwork(p) => local.plans(req, Method::Post, network_path(p.network_id@), Some("{}"@)),
            Call::LeaveNetwork(p) => local.plans(req, Method::Delete, network_path(p.network_id@), None),
            Call::ListPeers => local.plans(req, Method::Get, "/peer"@, None),
            Call::CloudListNetworks => cloud.plans(req, Method::Get, "/network"@, None),
            Call::CloudListMembers(p) => cloud.plans(req, Method::Get, members_path(p.network_id@), None),
            Call::CloudAuthorizeMember(p) => cloud.plans(req, Method::Post, member_path(p.network_id@, p.member_id@),
                Some(object_text(authorization_change(true).fields_spec()))),
            Call::CloudAuthorizeMemberWithIp(p) => cloud.plans(req, Method::Post, member_path(p.network_id@, p.member_id@),
                Some(ip_authorization_text(p.ip_address@))),
            Call::CloudDeauthorizeMember(p) => cloud.plans(req, Method::Post, member_path(p.network_id@, p.member_id@),
                Some(object_text(authorization_change(false).fields_spec()))),
        }
    }

    /// `r` is the first stage of invocation `inv`: an unknown tool or an invalid
    /// argument rejects it; a cloud tool without a cloud backend fails it; any
    /// other invocation becomes its call and the one request that call makes.
    pub open spec fn planned(self, inv: ToolInvocation, r: Step) -> bool {
        match tool_named(inv.name@) {
            None => r matches Step::Rejected(m) && m@ == "unknown tool: "@ + inv.name@,
            Some(t) => match first_problem(inv.arguments@, required_args(t)) {
                Some(m) => r matches Step::Rejected(x) && x@ == m,
                None => if t.is_cloud() && self.central_client is None {
                    r matches Step::Failed(x) && x@ == NOT_CONFIGURED@
                } else {
                    r matches Step::Execute(call, req) && call.tool() == t
                        && call.args() == required_texts(inv.arguments@, t) && self.requests(call, req)
                },
            },
        }
    }

    /// A dispatcher over `local_client`, without a cloud backend.
    pub fn new(local_client: Client) -> (r: McpServer)
        ensures
            r.local_client == local_client,
            r.central_client is None,
    {
        McpServer { local_client, central_client: None }
    }

    /// The same dispatcher over another local backend.
    pub fn with_local_client(self, client: Client) -> (r: McpServer)
        ensures
            r.local_client == client,
            r.central_client == self.central_client,
    {
        McpServer { local_client: client, central_client: self.central_client }
    }

    /// The same dispatcher with the cloud backend `client`.
    pub fn with_central_client(self, client: Central) -> (r: McpServer)
        ensures
            r.local_client == self.local_client,
            r.central_client == Some(client),
    {
        McpServer { local_client: self.local_client, central_client: Some(client) }
    }

    /// The same dispatcher with a default cloud backend using the credential `token`.
    pub fn with_central_token(self, token: String) -> (r: McpServer)
        ensures
            r.local_client == self.local_client,
            r.central_client matches Some(c) && c.backend_spec().token@ == token@
                && c.backend_spec().base_url@ == crate::central::DEFAULT_BASE_URL@
                && c.backend_spec().scheme == crate::rest::AuthScheme::BearerToken
                && c.backend_spec().timeout_secs == crate::central::DEFAULT_TIMEOUT_SECS,
    {
        let c = Central::new(token);
        self.with_central_client(c)
    }

    /// The request a validated call makes, or the sentence saying that the cloud
    /// backend it needs is not configured.
    pub fn request_for(&self, call: &Call) -> (r: Result<HttpRequest, String>)
        ensures
            call.tool().is_cloud() && self.central_client is None ==> (r matches Err(x) && x@ == NOT_CONFIGURED@),
            !(call.tool().is_cloud() && self.central_client is None) ==> (r matches Ok(req) && self.requests(*call, req)),
    {
        let local = &self.local_client;
        match call {
            Call::Status => Ok(local.status()),
            Call::ListNetworks => Ok(local.networks().list()),
            Call::JoinNetwork(p) => Ok(local.networks().join(p.network_id.as_str())),
            Call::LeaveNetwork(p) => Ok(local.networks().leave(p.network_id.as_str())),
            Call::ListPeers => Ok(local.peers().list()),
            Call::CloudListNetworks => match &self.central_client {
                None => Err(String::from_str(NOT_CONFIGURED)),
                Some(cloud) => Ok(cloud.networks().list()),
            },
            Call::CloudListMembers(p) => match &self.central_client {
                None => Err(String::from_str(NOT_CONFIGURED)),
                Some(cloud) => Ok(cloud.networks().members(p.network_id.as_str()).list()),
            },
            Call::CloudAuthorizeMember(p) => match &self.central_client {
                None => Err(String::from_str(NOT_CONFIGURED)),
                Some(cloud) => Ok(cloud.networks().members(p.network_id.as_str()).authorize(p.member_id.as_str())),
            },
            Call::CloudDeauthorizeMember(p) => match &self.central_client {
                None => Err(String::from_str(NOT_CONFIGURED)),
                Some(cloud) => Ok(cloud.networks().members(p.network_id.as_str()).deauthorize(p.member_id.as_str())),
            },
            Call::CloudAuthorizeMemberWithIp(p) => match &self.central_client {
                None => Err(String::from_str(NOT_CONFIGURED)),
                Some(cloud) => {
                    let req = ip_authorization(&p.ip_address);
                    Ok(cloud.networks().members(p.network_id.as_str()).update(p.member_id.as_str(), &req))
                },
            },
        }
    }

    /// The first stage of an invocation: validation, the check of the backend the
    /// tool needs, and the request to perform. Nothing is attempted unless the
    /// result is `Step::Execute`.
    pub fn plan(&self, inv: &ToolInvocation) -> (r: Step)
        ensures
            self.planned(*inv, r),
    {
        let tool = match Tool::from_name(&inv.name) {
            None => {
                let mut m = String::from_str("unknown tool: ");
                m.append(inv.name.as_str());
                return Step::Rejected(m);
            },
            Some(t) => t,
        };
        let call = match validate(tool, &inv.arguments) {
            Err(m) => { return Step::Rejected(m); },
            Ok(c) => c,
        };
        match self.request_for(&call) {
            Err(m) => Step::Failed(m),
            Ok(req) => Step::Execute(call, req),
        }
    }
}

/// The update that authorizes a member and gives it exactly the address `ip`.
fn ip_authorization(ip: &String) -> (r: UpdateMemberRequest)
    ensures
        object_text(r.fields_spec()) == ip_authorization_text(ip@),
{
    let ips = vec![ip.clone()];
    let config = UpdateMemberConfig { authorized: Some(true), active_bridge: None, no_auto_assign_ips: None, ip_assignments: Some(ips) };
    let r = UpdateMemberRequest { name: None, description: None, config: Some(config) };
    proof {
        assert(views(ips@) =~= seq![ip@]);
        assert(config.fields_spec() =~= seq![
            ("authorized"@, bool_text(true)),
            ("ipAssignments"@, string_array_text(seq![ip@])),
        ]);
        assert(r.fields_spec() =~= seq![("config"@, object_text(config.fields_spec()))]);
    }
    r
}

/// An invocation of a known tool that lacks one of the arguments the tool
/// requires is rejected: no request is made.
pub proof fn lemma_missing_argument_rejected(server: McpServer, inv: ToolInvocation, key: Seq<char>)
    requires
        tool_named(inv.name@) is Some,
        required_args(tool_named(inv.name@)->Some_0).contains(key),
        lookup(inv.arguments@, key) is None,
    ensures
        forall|r: Step| server.planned(inv, r) ==> r is Rejected,
{
    lemma_missing_key_is_a_problem(inv.arguments@, required_args(tool_named(inv.name@)->Some_0), key);
}

proof fn lemma_missing_key_is_a_problem(args: Seq<(String, ArgValue)>, keys: Seq<Seq<char>>, key: Seq<char>)
    requires
        keys.contains(key),
        lookup(args, key) is None,
    ensures
        first_problem(args, keys) is Some,
    decreases keys.len(),
{
    if keys[0] != key {
        let i = choose|i: int| 0 <= i < keys.len() && keys[i] == key;
        assert(keys.drop_first()[i - 1] == key);
        lemma_missing_key_is_a_problem(args, keys.drop_first(), key);
    }
}

/// A cloud tool invoked with valid arguments on a dispatcher without a cloud
/// backend fails with the not-configured sentence, and no request is made.
pub proof fn lemma_cloud_tool_needs_credential(server: McpServer, inv: ToolInvocation)
    requires
        tool_named(inv.name@) is Some,
        tool_named(inv.name@)->Some_0.is_cloud(),
        first_problem(inv.arguments@, required_args(tool_named(inv.name@)->Some_0)) is None,
        server.central_client is None,
    ensures
        forall|r: Step| server.planned(inv, r) ==> (r matches Step::Failed(m) && m@ == NOT_CONFIGURED@),
{
}

} // verus!
