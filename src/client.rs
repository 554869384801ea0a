//! Requests for the local node service API, authenticated by the node's secret.

mod controller;
mod network;
mod peer;
mod types;

pub use controller::{
    controller_member_path, controller_members_path, controller_network_path, new_network_id,
    ControllerService,
};
pub use network::{lemma_single_field_updates, network_path, no_settings, NetworkService, NetworkSettingsBuilder};
pub use peer::{peer_path, PeerService};
pub use types::{
    routes_json, pools_json, routes_text, pools_text, AssignMode, ControllerMember,
    ControllerMemberConfig, ControllerNetwork, ControllerNetworkConfig, ControllerStatus, Dns,
    IpAssignmentPool, Network, NetworkSettings, NodeStatus, Peer, PeerPath, Route,
};
pub use crate::rest::Error;

use vstd::prelude::*;
use crate::rest::{AuthScheme, HttpRequest, Method, RestBackend};

verus! {

/// Address of the node service when none is given.
pub const DEFAULT_BASE_URL: &'static str = "http://localhost:9993";

/// Per-call timeout, in seconds, when none is given: a same-host request.
pub const DEFAULT_TIMEOUT_SECS: u64 = 10;

/// Whether `c` has the Unicode `White_Space` property.
pub open spec fn is_white_space(c: char) -> bool {
    let u = c as u32;
    (0x9 <= u && u <= 0xd) || u == 0x20 || u == 0x85 || u == 0xa0 || u == 0x1680
        || (0x2000 <= u && u <= 0x200a) || u == 0x2028 || u == 0x2029 || u == 0x202f
        || u == 0x205f || u == 0x3000
}

/// `s` without its leading white space.
pub open spec fn trim_start(s: Seq<char>) -> Seq<char>
    decreases s.len(),
{
    if s.len() > 0 && is_white_space(s[0]) { trim_start(s.drop_first()) } else { s }
}

/// `s` without its trailing white space.
pub open spec fn trim_end(s: Seq<char>) -> Seq<char>
    decreases s.len(),
{
    if s.len() > 0 && is_white_space(s.last()) { trim_end(s.drop_last()) } else { s }
}

/// `s` without its leading and trailing white space.
pub open spec fn trimmed(s: Seq<char>) -> Seq<char> {
    trim_end(trim_start(s))
}

/// Relies on `str::trim`: it removes the leading and trailing characters that
/// have the Unicode `White_Space` property, and nothing else.
#[verifier::external_body]
fn trim(s: &str) -> (r: String)
    ensures
        r@ == trimmed(s@),
{
    s.trim().to_string()
}

/// Client of the local node service API.
#[derive(Debug)]
pub struct Client {
    backend: RestBackend,
}

impl Clone for Client {
    fn clone(&self) -> (r: Self)
        ensures
            r == *self,
    {
        proof {
            use_type_invariant(self);
        }
        Client { backend: self.backend.clone() }
    }
}

/// How to build a `Client`; every field is optional.
#[derive(Clone, Debug)]
pub struct ClientOptions {
    pub base_url: Option<String>,
    pub token: Option<String>,
    /// A file holding the secret.
    pub token_file: Option<String>,
    pub timeout_secs: Option<u64>,
}

/// The secret chosen for a client: the explicit one, else the contents of the
/// given file, else the contents of the platform's default file, else nothing;
/// surrounding whitespace removed.
pub open spec fn chosen_token(opts: ClientOptions, file_token: Option<String>, default_token: Option<String>) -> Seq<char> {
    let raw = if opts.token is Some {
        opts.token->Some_0@
    } else if opts.token_file is Some && file_token is Some {
        file_token->Some_0@
    } else if default_token is Some {
        default_token->Some_0@
    } else {
        Seq::empty()
    };
    trimmed(raw)
}

impl ClientOptions {
    /// Options with nothing set.
    pub fn new() -> (r: ClientOptions)
        ensures
            r.base_url is None,
            r.token is None,
            r.token_file is None,
            r.timeout_secs is None,
    {
        ClientOptions { base_url: None, token: None, token_file: None, timeout_secs: None }
    }
}

impl Client {
    /// The backend always authenticates with the `X-ZT1-AUTH` header.
    #[verifier::type_invariant]
    spec fn uses_own_scheme(self) -> bool {
        self.backend.scheme == AuthScheme::HeaderToken
    }

    /// The backend this client talks to.
    pub closed spec fn backend_spec(self) -> RestBackend {
        self.backend
    }

    /// The backend this client talks to.
    pub fn backend(&self) -> (r: &RestBackend)
        ensures
            *r == self.backend_spec(),
            r.scheme == AuthScheme::HeaderToken,
    {
        proof {
            use_type_invariant(self);
        }
        &self.backend
    }

    /// A client for the default address, whose secret is `default_token` (the
    /// contents of the platform's default secret file, when it could be read).
    pub fn new(default_token: Option<String>) -> (r: Client)
        ensures
            r.backend_spec().base_url@ == DEFAULT_BASE_URL@,
            r.backend_spec().scheme == AuthScheme::HeaderToken,
            r.backend_spec().timeout_secs == DEFAULT_TIMEOUT_SECS,
            r.backend_spec().token@ == trimmed(if default_token is Some { default_token->Some_0@ } else { Seq::empty() }),
    {
        Client::with_options(ClientOptions::new(), None, default_token)
    }

    /// A client built from `opts`. `file_token` is the contents of
    /// `opts.token_file` and `default_token` that of the platform's default
    /// secret file, each when it could be read.
    pub fn with_options(opts: ClientOptions, file_token: Option<String>, default_token: Option<String>) -> (r: Client)
        ensures
            r.backend_spec().base_url@ == (if opts.base_url is Some { opts.base_url->Some_0@ } else { DEFAULT_BASE_URL@ }),
            r.backend_spec().scheme == AuthScheme::HeaderToken,
            r.backend_spec().timeout_secs == (if opts.timeout_secs is Some { opts.timeout_secs->Some_0 } else { DEFAULT_TIMEOUT_SECS }),
            r.backend_spec().token@ == chosen_token(opts, file_token, default_token),
    {
        let base_url = match opts.base_url {
            Some(b) => b,
            None => String::from_str(DEFAULT_BASE_URL),
        };
        let raw = match opts.token {
            Some(t) => t,
            None => {
                let from_file = match opts.token_file {
                    Some(_) => file_token,
                    None => None,
                };
                match from_file {
                    Some(t) => t,
                    None => match default_token {
                        Some(t) => t,
                        None => String::new(),
                    },
                }
            },
        };
        let token = trim(raw.as_str());
        let timeout_secs = match opts.timeout_secs {
            Some(t) => t,
            None => DEFAULT_TIMEOUT_SECS,
        };
        Client { backend: RestBackend { base_url, token, scheme: AuthScheme::HeaderToken, timeout_secs } }
    }

    /// A client for the default address with the secret `token`.
    pub fn with_token(token: String) -> (r: Client)
        ensures
            r.backend_spec().base_url@ == DEFAULT_BASE_URL@,
            r.backend_spec().scheme == AuthScheme::HeaderToken,
            r.backend_spec().timeout_secs == DEFAULT_TIMEOUT_SECS,
            r.backend_spec().token@ == trimmed(token@),
    {
        let opts = ClientOptions { base_url: None, token: Some(token), token_file: None, timeout_secs: None };
        Client::with_options(opts, None, None)
    }

    /// Plans `GET /status`.
    pub fn status(&self) -> (r: HttpRequest)
        ensures
            self.backend_spec().plans(r, Method::Get, "/status"@, None),
    {
        self.backend().request_empty(Method::Get, "/status")
    }

    /// The joined-network resource.
    pub fn networks(&self) -> (r: NetworkService)
        ensures
            r.client == *self,
    {
        NetworkService::new(self.clone())
    }

    /// The peer resource.
    pub fn peers(&self) -> (r: PeerService)
        ensures
            r.client == *self,
    {
        PeerService::new(self.clone())
    }

    /// The self-hosted controller resource.
    pub fn controller(&self) -> (r: ControllerService)
        ensures
            r.client == *self,
    {
        ControllerService::new(self.clone())
    }
}

} // verus!
