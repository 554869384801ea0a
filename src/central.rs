//! Requests for the cloud management API, authenticated by a bearer token.

mod member;
mod network;
mod types;

pub use member::{
    authorization_change, lemma_authorize_keeps_other_fields, lemma_authorization_sends_only_flag,
    lemma_deauthorize_idempotent, member_path, members_path, MemberConfigBuilder, MemberService,
};
pub use network::{cloud_network_path, lemma_single_field_updates, NetworkConfigBuilder, NetworkService};
pub use types::{
    dns_json, dns_text, network_request_json, network_request_text, opt_network_config_text, AssignMode, CentralStatus, CreateNetworkConfig, CreateNetworkRequest, Member,
    MemberConfig, Network, NetworkConfig, StatusUser, UpdateMemberConfig, UpdateMemberRequest,
};
pub use crate::client::{Dns, IpAssignmentPool, Route};
pub use crate::rest::Error;

use vstd::prelude::*;
use crate::rest::{AuthScheme, HttpRequest, Method, RestBackend};

verus! {

/// Address of the cloud API when none is given.
pub const DEFAULT_BASE_URL: &'static str = "https://api.zerotier.com/api/v1";

/// Per-call timeout, in seconds, when none is given: a request across the network.
pub const DEFAULT_TIMEOUT_SECS: u64 = 30;

/// Client of the cloud management API.
#[derive(Debug)]
pub struct Central {
    backend: RestBackend,
}

impl Clone for Central {
    fn clone(&self) -> (r: Self)
        ensures
            r == *self,
    {
        proof {
            use_type_invariant(self);
        }
        Central { backend: self.backend.clone() }
    }
}

/// How to build a `Central`; every field is optional.
#[derive(Clone, Debug)]
pub struct CentralOptions {
    pub base_url: Option<String>,
    pub timeout_secs: Option<u64>,
}

impl CentralOptions {
    /// Options with nothing set.
    pub fn new() -> (r: CentralOptions)
        ensures
            r.base_url is None,
            r.timeout_secs is None,
    {
        CentralOptions { base_url: None, timeout_secs: None }
    }
}

impl Central {
    /// The backend always authenticates with the bearer token.
    #[verifier::type_invariant]
    spec fn uses_own_scheme(self) -> bool {
        self.backend.scheme == AuthScheme::BearerToken
    }

    /// The backend this client talks to.
    pub closed spec fn backend_spec(self) -> RestBackend {
        self.backend
    }

    /// The backend this client talks to.
    pub fn backend(&self) -> (r: &RestBackend)
        ensures
            *r == self.backend_spec(),
            r.scheme == AuthScheme::BearerToken,
    {
        proof {
            use_type_invariant(self);
        }
        &self.backend
    }

    /// A client for the default address with the credential `token`.
    pub fn new(token: String) -> (r: Central)
        ensures
            r.backend_spec().base_url@ == DEFAULT_BASE_URL@,
            r.backend_spec().token@ == token@,
            r.backend_spec().scheme == AuthScheme::BearerToken,
            r.backend_spec().timeout_secs == DEFAULT_TIMEOUT_SECS,
    {
        Central::with_options(token, CentralOptions::new())
    }

    /// A client with the credential `token`, built from `opts`.
    pub fn with_options(token: String, opts: CentralOptions) -> (r: Central)
        ensures
            r.backend_spec().base_url@ == (if opts.base_url is Some { opts.base_url->Some_0@ } else { DEFAULT_BASE_URL@ }),
            r.backend_spec().token@ == token@,
            r.backend_spec().scheme == AuthScheme::BearerToken,
            r.backend_spec().timeout_secs == (if opts.timeout_secs is Some { opts.timeout_secs->Some_0 } else { DEFAULT_TIMEOUT_SECS }),
    {
        let base_url = match opts.base_url {
            Some(b) => b,
            None => String::from_str(DEFAULT_BASE_URL),
        };
        let timeout_secs = match opts.timeout_secs {
            Some(t) => t,
            None => DEFAULT_TIMEOUT_SECS,
        };
        Central { backend: RestBackend { base_url, token, scheme: AuthScheme::BearerToken, timeout_secs } }
    }

    /// Plans `GET /status`.
    pub fn status(&self) -> (r: HttpRequest)
        ensures
            self.backend_spec().plans(r, Method::Get, "/status"@, None),
    {
        self.backend().request_empty(Method::Get, "/status")
    }

    /// The network resource.
    pub fn networks(&self) -> (r: NetworkService)
        ensures
            r.client == *self,
    {
        NetworkService::new(self.clone())
    }
}

} // verus!
