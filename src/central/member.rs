//! Members of a cloud network.

use vstd::prelude::*;
use super::{Central, MemberConfig, UpdateMemberConfig, UpdateMemberRequest};
use crate::json::{keys, object_text};
use crate::rest::{HttpRequest, Method};
use crate::text::bool_text;

verus! {

/// `/network/<network_id>/member`.
pub open spec fn members_path(network_id: Seq<char>) -> Seq<char> {
    "/network/"@ + network_id + "/member"@
}

/// `/network/<network_id>/member/<member_id>`.
pub open spec fn member_path(network_id: Seq<char>, member_id: Seq<char>) -> Seq<char> {
    members_path(network_id) + "/"@ + member_id
}

/// The update that sets the authorization flag of a member to `flag` and
/// leaves every other field unset.
pub open spec fn authorization_change(flag: bool) -> UpdateMemberRequest {
    UpdateMemberRequest {
        name: None,
        description: None,
        config: Some(UpdateMemberConfig { authorized: Some(flag), ..UpdateMemberConfig::unset() }),
    }
}

fn make_authorization_change(flag: bool) -> (r: UpdateMemberRequest)
    ensures
        r == authorization_change(flag),
{
    UpdateMemberRequest {
        name: None,
        description: None,
        config: Some(UpdateMemberConfig { authorized: Some(flag), active_bridge: None, no_auto_assign_ips: None, ip_assignments: None }),
    }
}

/// Requests on the members of one cloud network.
#[derive(Clone, Debug)]
pub struct MemberService {
    pub client: Central,
    pub network_id: String,
}

impl MemberService {
    pub(crate) fn new(client: Central, network_id: String) -> (r: MemberService)
        ensures
            r.client == client,
            r.network_id == network_id,
    {
        MemberService { client, network_id }
    }

    fn base_path(&self) -> (r: String)
        ensures
            r@ == members_path(self.network_id@),
    {
        let mut p = String::from_str("/network/");
        p.append(self.network_id.as_str());
        p.append("/member");
        p
    }

    fn path_of(&self, member_id: &str) -> (r: String)
        ensures
            r@ == member_path(self.network_id@, member_id@),
    {
        let mut p = self.base_path();
        p.append("/");
        p.append(member_id);
        p
    }

    /// Plans `GET /network/<id>/member`: every member of the network.
    pub fn list(&self) -> (r: HttpRequest)
        ensures
            self.client.backend_spec().plans(r, Method::Get, members_path(self.network_id@), None),
    {
        let p = self.base_path();
        self.client.backend().request_empty(Method::Get, p.as_str())
    }

    /// Plans `GET /network/<id>/member/<member>`.
    pub fn get(&self, member_id: &str) -> (r: HttpRequest)
        ensures
            self.client.backend_spec().plans(r, Method::Get, member_path(self.network_id@, member_id@), None),
    {
        let p = self.path_of(member_id);
        self.client.backend().request_empty(Method::Get, p.as_str())
    }

    /// Plans `POST /network/<id>/member/<member>` carrying only the fields of `req` that are set.
    pub fn update(&self, member_id: &str, req: &UpdateMemberRequest) -> (r: HttpRequest)
        ensures
            self.client.backend_spec().plans(r, Method::Post, member_path(self.network_id@, member_id@),
                Some(object_text(req.fields_spec()))),
    {
        let p = self.path_of(member_id);
        self.client.backend().request(Method::Post, p.as_str(), Some(req.to_json()))
    }

    /// Plans the update that authorizes the member and changes nothing else.
    pub fn authorize(&self, member_id: &str) -> (r: HttpRequest)
        ensures
            self.client.backend_spec().plans(r, Method::Post, member_path(self.network_id@, member_id@),
                Some(object_text(authorization_change(true).fields_spec()))),
    {
        self.update(member_id, &make_authorization_change(true))
    }

    /// Plans the update that deauthorizes the member and changes nothing else.
    pub fn deauthorize(&self, member_id: &str) -> (r: HttpRequest)
        ensures
            self.client.backend_spec().plans(r, Method::Post, member_path(self.network_id@, member_id@),
                Some(object_text(authorization_change(false).fields_spec()))),
    {
        self.update(member_id, &make_authorization_change(false))
    }

    /// Plans `DELETE /network/<id>/member/<member>`.
    pub fn delete(&self, member_id: &str) -> (r: HttpRequest)
        ensures
            self.client.backend_spec().plans(r, Method::Delete, member_path(self.network_id@, member_id@), None),
    {
        let p = self.path_of(member_id);
        self.client.backend().request_empty(Method::Delete, p.as_str())
    }
}

/// An authorization change sends one member, `config`, which holds one member,
/// `authorized`: no other field of the member is ever sent.
pub proof fn lemma_authorization_sends_only_flag(flag: bool)
    ensures
        keys(authorization_change(flag).fields_spec()) == seq!["config"@],
        authorization_change(flag).fields_spec()
            == seq![("config"@, object_text(seq![("authorized"@, bool_text(flag))]))],
        keys(authorization_change(flag).config->Some_0.fields_spec()) == seq!["authorized"@],
{
    let c = authorization_change(flag).config->Some_0;
    assert(c.fields_spec() =~= seq![("authorized"@, bool_text(flag))]);
    assert(authorization_change(flag).fields_spec()
        =~= seq![("config"@, object_text(seq![("authorized"@, bool_text(flag))]))]);
    assert(keys(authorization_change(flag).fields_spec()) =~= seq!["config"@]);
    assert(keys(c.fields_spec()) =~= seq!["authorized"@]);
}

/// Authorizing a member changes its authorization flag and nothing else: in
/// particular its assigned addresses stay as they were.
pub proof fn lemma_authorize_keeps_other_fields(m: MemberConfig)
    ensures
        m.updated_by(authorization_change(true).config->Some_0) == (MemberConfig { authorized: true, ..m }),
        m.updated_by(authorization_change(true).config->Some_0).ip_assignments == m.ip_assignments,
{
}

/// Deauthorizing a member twice leaves it as deauthorizing it once does, and
/// never leaves it authorized.
pub proof fn lemma_deauthorize_idempotent(m: MemberConfig)
    ensures
        ({
            let u = authorization_change(false).config->Some_0;
            &&& m.updated_by(u).updated_by(u) == m.updated_by(u)
            &&& !m.updated_by(u).authorized
            &&& !m.updated_by(u).updated_by(u).authorized
        }),
{
}

/// Builds an `UpdateMemberConfig` one field at a time; fields never set stay unset.
#[derive(Clone, Debug)]
pub struct MemberConfigBuilder {
    config: UpdateMemberConfig,
}

impl View for MemberConfigBuilder {
    type V = UpdateMemberConfig;

    closed spec fn view(&self) -> UpdateMemberConfig {
        self.config
    }
}

impl MemberConfigBuilder {
    /// A builder with no field set.
    pub fn new() -> (r: MemberConfigBuilder)
        ensures
            r@ == UpdateMemberConfig::unset(),
    {
        MemberConfigBuilder {
            config: UpdateMemberConfig { authorized: None, active_bridge: None, no_auto_assign_ips: None, ip_assignments: None },
        }
    }

    pub fn authorized(self, v: bool) -> (r: MemberConfigBuilder)
        ensures
            r@ == (UpdateMemberConfig { authorized: Some(v), ..self@ }),
    {
        let mut b = self;
        b.config.authorized = Some(v);
        b
    }

    pub fn active_bridge(self, v: bool) -> (r: MemberConfigBuilder)
        ensures
            r@ == (UpdateMemberConfig { active_bridge: Some(v), ..self@ }),
    {
        let mut b = self;
        b.config.active_bridge = Some(v);
        b
    }

    pub fn ip_assignments(self, ips: Vec<String>) -> (r: MemberConfigBuilder)
        ensures
            r@ == (UpdateMemberConfig { ip_assignments: Some(ips), ..self@ }),
    {
        let mut b = self;
        b.config.ip_assignments = Some(ips);
        b
    }

    /// The configuration built so far.
    pub fn build(self) -> (r: UpdateMemberConfig)
        ensures
            r == self@,
    {
        self.config
    }
}

} // verus!
