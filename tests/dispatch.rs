use zerotier_mcp::central::{Central, CentralOptions};
use zerotier_mcp::client::{Client, ClientOptions};
use zerotier_mcp::mcp::{ArgValue, Call, McpServer, Step, Tool, ToolInvocation, NOT_CONFIGURED};
use zerotier_mcp::rest::{AuthScheme, HttpRequest, Method};

fn local() -> Client {
    Client::with_token("secret".to_string())
}

fn invocation(name: &str, args: &[(&str, &str)]) -> ToolInvocation {
    ToolInvocation {
        name: name.to_string(),
        arguments: args.iter().map(|(k, v)| (k.to_string(), ArgValue::Text(v.to_string()))).collect(),
    }
}

fn executed(step: Step) -> (Call, HttpRequest) {
    match step {
        Step::Execute(call, req) => (call, req),
        other => panic!("expected a request, got {:?}", other),
    }
}

fn cloud_tools() -> Vec<(&'static str, Vec<(&'static str, &'static str)>)> {
    vec![
        ("cloud-list-networks", vec![]),
        ("cloud-list-members", vec![("network_id", "abcd")]),
        ("cloud-authorize-member", vec![("network_id", "abcd"), ("member_id", "1234")]),
        (
            "cloud-authorize-member-with-ip",
            vec![("network_id", "abcd"), ("member_id", "1234"), ("ip_address", "10.0.0.5")],
        ),
        ("cloud-deauthorize-member", vec![("network_id", "abcd"), ("member_id", "1234")]),
    ]
}

#[test]
fn every_cloud_tool_without_credential_fails_not_configured() {
    let server = McpServer::new(local());
    for (name, args) in cloud_tools() {
        match server.plan(&invocation(name, &args)) {
            Step::Failed(m) => assert_eq!(m, NOT_CONFIGURED),
            other => panic!("{}: expected not configured, got {:?}", name, other),
        }
    }
    assert_eq!(NOT_CONFIGURED, "未配置 Central API Token");
}

#[test]
fn missing_argument_is_rejected_before_anything() {
    let server = McpServer::new(local()).with_central_token("tok".to_string());
    match server.plan(&invocation("join-network", &[])) {
        Step::Rejected(m) => assert_eq!(m, "missing required argument: network_id"),
        other => panic!("expected rejection, got {:?}", other),
    }
    match server.plan(&invocation("cloud-authorize-member-with-ip", &[("network_id", "a"), ("member_id", "b")])) {
        Step::Rejected(m) => assert_eq!(m, "missing required argument: ip_address"),
        other => panic!("expected rejection, got {:?}", other),
    }
    // Validation comes before the backend check.
    let bare = McpServer::new(local());
    match bare.plan(&invocation("cloud-list-members", &[])) {
        Step::Rejected(m) => assert_eq!(m, "missing required argument: network_id"),
        other => panic!("expected rejection, got {:?}", other),
    }
}

#[test]
fn mistyped_argument_is_rejected() {
    let server = McpServer::new(local());
    let inv = ToolInvocation {
        name: "leave-network".to_string(),
        arguments: vec![("network_id".to_string(), ArgValue::Other)],
    };
    match server.plan(&inv) {
        Step::Rejected(m) => assert_eq!(m, "argument network_id must be a string"),
        other => panic!("expected rejection, got {:?}", other),
    }
}

#[test]
fn unknown_tool_is_rejected() {
    let server = McpServer::new(local());
    match server.plan(&invocation("reboot", &[])) {
        Step::Rejected(m) => assert_eq!(m, "unknown tool: reboot"),
        other => panic!("expected rejection, got {:?}", other),
    }
}

#[test]
fn first_given_value_of_an_argument_is_used_and_extras_are_ignored() {
    let server = McpServer::new(local());
    let inv = invocation("join-network", &[("extra", "x"), ("network_id", "n1"), ("network_id", "n2")]);
    let (call, req) = executed(server.plan(&inv));
    match call {
        Call::JoinNetwork(p) => assert_eq!(p.network_id, "n1"),
        other => panic!("unexpected call {:?}", other),
    }
    assert_eq!(req.url, "http://localhost:9993/network/n1");
}

#[test]
fn status_tool_plans_local_get_with_header_token() {
    let server = McpServer::new(local());
    let (call, req) = executed(server.plan(&invocation("status", &[])));
    assert!(matches!(call, Call::Status));
    assert_eq!(req.method, Method::Get);
    assert_eq!(req.url, "http://localhost:9993/status");
    assert_eq!(req.auth_name, "X-ZT1-AUTH");
    assert_eq!(req.auth_value, "secret");
    assert_eq!(req.body, None);
    assert_eq!(req.timeout_secs, 10);
}

#[test]
fn local_tools_plan_their_requests() {
    let server = McpServer::new(local());
    let (_, req) = executed(server.plan(&invocation("list-networks", &[])));
    assert_eq!((req.method, req.url.as_str()), (Method::Get, "http://localhost:9993/network"));
    let (_, req) = executed(server.plan(&invocation("join-network", &[("network_id", "8056c2e21c000001")])));
    assert_eq!((req.method, req.url.as_str()), (Method::Post, "http://localhost:9993/network/8056c2e21c000001"));
    assert_eq!(req.body.as_deref(), Some("{}"));
    let (_, req) = executed(server.plan(&invocation("leave-network", &[("network_id", "8056c2e21c000001")])));
    assert_eq!((req.method, req.url.as_str()), (Method::Delete, "http://localhost:9993/network/8056c2e21c000001"));
    assert_eq!(req.body, None);
    let (_, req) = executed(server.plan(&invocation("list-peers", &[])));
    assert_eq!((req.method, req.url.as_str()), (Method::Get, "http://localhost:9993/peer"));
}

#[test]
fn authorize_with_ip_plans_authorized_and_address_only() {
    let server = McpServer::new(local()).with_central_token("tok".to_string());
    let inv = invocation(
        "cloud-authorize-member-with-ip",
        &[("network_id", "abcd"), ("member_id", "1234"), ("ip_address", "10.0.0.5")],
    );
    let (call, req) = executed(server.plan(&inv));
    match call {
        Call::CloudAuthorizeMemberWithIp(p) => {
            assert_eq!(p.network_id, "abcd");
            assert_eq!(p.member_id, "1234");
            assert_eq!(p.ip_address, "10.0.0.5");
        }
        other => panic!("unexpected call {:?}", other),
    }
    assert_eq!(req.method, Method::Post);
    assert_eq!(req.url, "https://api.zerotier.com/api/v1/network/abcd/member/1234");
    assert_eq!(req.auth_name, "Authorization");
    assert_eq!(req.auth_value, "token tok");
    assert_eq!(req.timeout_secs, 30);
    assert_eq!(req.body.as_deref(), Some(r#"{"config":{"authorized":true,"ipAssignments":["10.0.0.5"]}}"#));
}

#[test]
fn cloud_authorize_and_deauthorize_send_only_the_flag() {
    let server = McpServer::new(local()).with_central_token("tok".to_string());
    let (_, req) = executed(server.plan(&invocation("cloud-authorize-member", &[("network_id", "n"), ("member_id", "m")])));
    assert_eq!(req.body.as_deref(), Some(r#"{"config":{"authorized":true}}"#));
    let first = executed(server.plan(&invocation("cloud-deauthorize-member", &[("network_id", "n"), ("member_id", "m")]))).1;
    let second = executed(server.plan(&invocation("cloud-deauthorize-member", &[("network_id", "n"), ("member_id", "m")]))).1;
    assert_eq!(first.body.as_deref(), Some(r#"{"config":{"authorized":false}}"#));
    assert_eq!(first.body, second.body);
    assert_eq!(first.url, second.url);
    assert_eq!(first.url, "https://api.zerotier.com/api/v1/network/n/member/m");
}

#[test]
fn cloud_listing_tools_plan_gets() {
    let server = McpServer::new(local()).with_central_client(Central::with_options(
        "tok".to_string(),
        CentralOptions { base_url: Some("http://cloud".to_string()), timeout_secs: Some(5) },
    ));
    let (_, req) = executed(server.plan(&invocation("cloud-list-networks", &[])));
    assert_eq!((req.method, req.url.as_str(), req.timeout_secs), (Method::Get, "http://cloud/network", 5));
    let (_, req) = executed(server.plan(&invocation("cloud-list-members", &[("network_id", "abcd")])));
    assert_eq!((req.method, req.url.as_str()), (Method::Get, "http://cloud/network/abcd/member"));
}

#[test]
fn catalog_names_round_trip() {
    let all = Tool::all();
    assert_eq!(all.len(), 10);
    for t in all {
        assert_eq!(Tool::from_name(&t.name().to_string()), Some(t));
    }
    assert_eq!(Tool::CloudAuthorizeMemberWithIp.arity_of(), 3);
    assert_eq!(Tool::Status.arity_of(), 0);
}

#[test]
fn with_local_client_replaces_the_local_backend() {
    let other = Client::with_options(
        ClientOptions { base_url: Some("http://10.0.0.1:9993".to_string()), token: Some("x".to_string()), token_file: None, timeout_secs: None },
        None,
        None,
    );
    let server = McpServer::new(local()).with_local_client(other);
    let (_, req) = executed(server.plan(&invocation("status", &[])));
    assert_eq!(req.url, "http://10.0.0.1:9993/status");
    assert_eq!(req.auth_value, "x");
    assert_eq!(server.local_client.backend().scheme, AuthScheme::HeaderToken);
}
