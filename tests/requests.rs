use zerotier_mcp::central::{
    AssignMode as CloudAssignMode, Central, CentralOptions, CreateNetworkConfig, CreateNetworkRequest,
    MemberConfigBuilder, NetworkConfigBuilder, UpdateMemberRequest,
};
use zerotier_mcp::client::{
    AssignMode, Client, ClientOptions, ControllerMemberConfig, ControllerNetworkConfig, Dns, IpAssignmentPool,
    NetworkSettingsBuilder, Route,
};
use zerotier_mcp::rest::{classify, decoded, AuthScheme, Error, HttpResponse, Method};

#[test]
fn client_token_priority_and_trim() {
    let explicit = Client::with_options(
        ClientOptions { base_url: None, token: Some("  abc\n".to_string()), token_file: Some("f".to_string()), timeout_secs: None },
        Some("file".to_string()),
        Some("default".to_string()),
    );
    assert_eq!(explicit.backend().token, "abc");
    let from_file = Client::with_options(
        ClientOptions { base_url: None, token: None, token_file: Some("f".to_string()), timeout_secs: Some(3) },
        Some("file-token\n".to_string()),
        Some("default".to_string()),
    );
    assert_eq!(from_file.backend().token, "file-token");
    assert_eq!(from_file.backend().timeout_secs, 3);
    let unreadable_file = Client::with_options(
        ClientOptions { base_url: None, token: None, token_file: Some("f".to_string()), timeout_secs: None },
        None,
        Some(" default ".to_string()),
    );
    assert_eq!(unreadable_file.backend().token, "default");
    let nothing = Client::new(None);
    assert_eq!(nothing.backend().token, "");
    assert_eq!(nothing.backend().base_url, "http://localhost:9993");
    assert_eq!(Client::new(Some("t\n".to_string())).backend().token, "t");
    let opts = ClientOptions::new();
    assert!(opts.base_url.is_none() && opts.token.is_none() && opts.token_file.is_none() && opts.timeout_secs.is_none());
}

#[test]
fn local_services_plan_paths() {
    let c = Client::with_token("s".to_string());
    assert_eq!(c.status().url, "http://localhost:9993/status");
    assert_eq!(c.networks().get("n1").url, "http://localhost:9993/network/n1");
    assert_eq!(c.peers().get("p1").url, "http://localhost:9993/peer/p1");
    assert_eq!(c.peers().list().url, "http://localhost:9993/peer");
    let ctl = c.controller();
    assert_eq!(ctl.status().url, "http://localhost:9993/controller");
    assert_eq!(ctl.list_networks().url, "http://localhost:9993/controller/network");
    assert_eq!(ctl.get_network("n").url, "http://localhost:9993/controller/network/n");
    assert_eq!(ctl.list_members("n").url, "http://localhost:9993/controller/network/n/member");
    let m = ctl.get_member("n", "m");
    assert_eq!((m.method, m.url.as_str()), (Method::Get, "http://localhost:9993/controller/network/n/member/m"));
    let d = ctl.delete_member("n", "m");
    assert_eq!((d.method, d.body), (Method::Delete, None));
    let dn = ctl.delete_network("n");
    assert_eq!((dn.method, dn.url.as_str()), (Method::Delete, "http://localhost:9993/controller/network/n"));
}

#[test]
fn controller_network_id_gets_six_underscores() {
    let ctl = Client::with_token("s".to_string()).controller();
    let r = ctl.create_network("deadbeef00", None);
    assert_eq!(r.method, Method::Post);
    assert_eq!(r.url, "http://localhost:9993/controller/network/deadbeef00______");
    assert_eq!(r.body.as_deref(), Some("{}"));
    let cfg = ControllerNetworkConfig {
        name: Some("lab".to_string()),
        private: Some(true),
        enable_broadcast: None,
        multicast_limit: Some(64),
        routes: Some(vec![
            Route { target: "10.0.0.0/24".to_string(), via: None },
            Route { target: "0.0.0.0/0".to_string(), via: Some("10.0.0.1".to_string()) },
        ]),
        ip_assignment_pools: Some(vec![IpAssignmentPool { ip_range_start: "10.0.0.10".to_string(), ip_range_end: "10.0.0.99".to_string() }]),
        v4_assign_mode: Some(AssignMode { zt: true }),
        v6_assign_mode: None,
    };
    let r = ctl.create_network("deadbeef00", Some(&cfg));
    assert_eq!(
        r.body.as_deref(),
        Some(r#"{"name":"lab","private":true,"multicastLimit":64,"routes":[{"target":"10.0.0.0/24"},{"target":"0.0.0.0/0","via":"10.0.0.1"}],"ipAssignmentPools":[{"ipRangeStart":"10.0.0.10","ipRangeEnd":"10.0.0.99"}],"v4AssignMode":{"zt":true}}"#)
    );
    let u = ctl.update_network("n", &cfg);
    assert_eq!(u.body, r.body);
    assert_eq!(u.url, "http://localhost:9993/controller/network/n");
}

#[test]
fn controller_member_update_sends_set_fields_only() {
    let ctl = Client::with_token("s".to_string()).controller();
    let cfg = ControllerMemberConfig { authorized: Some(true), active_bridge: None, ip_assignments: Some(vec!["10.0.0.7".to_string()]), no_auto_assign_ips: Some(false) };
    let r = ctl.update_member("n", "m", &cfg);
    assert_eq!(r.body.as_deref(), Some(r#"{"authorized":true,"ipAssignments":["10.0.0.7"],"noAutoAssignIps":false}"#));
    assert_eq!(r.url, "http://localhost:9993/controller/network/n/member/m");
}

#[test]
fn network_settings_single_field_round_trip() {
    let s = NetworkSettingsBuilder::new().allow_dns(true).build();
    assert_eq!(s.to_json(), r#"{"allowDns":true}"#);
    let s = NetworkSettingsBuilder::new().allow_managed(false).build();
    assert_eq!(s.to_json(), r#"{"allowManaged":false}"#);
    let all = NetworkSettingsBuilder::new().allow_dns(true).allow_default(false).allow_global(true).allow_managed(true).build();
    assert_eq!(all.to_json(), r#"{"allowDns":true,"allowDefault":false,"allowGlobal":true,"allowManaged":true}"#);
    assert_eq!(NetworkSettingsBuilder::new().build().to_json(), "{}");
    let c = Client::with_token("s".to_string());
    let r = c.networks().update("n", &NetworkSettingsBuilder::new().allow_global(true).build());
    assert_eq!((r.method, r.url.as_str(), r.body.as_deref()), (Method::Post, "http://localhost:9993/network/n", Some(r#"{"allowGlobal":true}"#)));
}

#[test]
fn cloud_network_config_single_field_round_trip() {
    let name = NetworkConfigBuilder::new().name("my \"net\"".to_string()).build();
    assert_eq!(name.to_json(), r#"{"name":"my \"net\""}"#);
    let mtu = NetworkConfigBuilder::new().mtu(-5).build();
    assert_eq!(mtu.to_json(), r#"{"mtu":-5}"#);
    let mixed = NetworkConfigBuilder::new().private(false).enable_broadcast(true).mtu(2800).build();
    assert_eq!(mixed.to_json(), r#"{"private":false,"enableBroadcast":true,"mtu":2800}"#);
}

#[test]
fn cloud_network_requests() {
    let cloud = Central::new("tok".to_string());
    let n = cloud.networks();
    assert_eq!(n.list().url, "https://api.zerotier.com/api/v1/network");
    let created = n.create(None);
    assert_eq!(created.body.as_deref(), Some("{}"));
    let cfg = CreateNetworkConfig {
        name: Some("x".to_string()),
        private: None,
        enable_broadcast: None,
        mtu: None,
        multicast_limit: Some(16),
        routes: None,
        ip_assignment_pools: None,
        v4_assign_mode: Some(CloudAssignMode { zt: true, rfc4193: false, n6plane: true }),
        v6_assign_mode: None,
        dns: Some(Dns { domain: "lan".to_string(), servers: vec!["10.0.0.1".to_string()] }),
    };
    let upd = n.update("abcd", &cfg);
    assert_eq!(upd.url, "https://api.zerotier.com/api/v1/network/abcd");
    assert_eq!(
        upd.body.as_deref(),
        Some(r#"{"config":{"name":"x","multicastLimit":16,"v4AssignMode":{"zt":true,"rfc4193":false,"6plane":true},"dns":{"domain":"lan","servers":["10.0.0.1"]}}}"#)
    );
    assert_eq!(CreateNetworkRequest { config: Some(cfg) }.to_json(), upd.body.unwrap());
    assert_eq!(n.delete("abcd").method, Method::Delete);
    assert_eq!(n.get("abcd").url, "https://api.zerotier.com/api/v1/network/abcd");
    assert_eq!(cloud.status().url, "https://api.zerotier.com/api/v1/status");
}

#[test]
fn member_requests() {
    let cloud = Central::with_options("tok".to_string(), CentralOptions::new());
    let members = cloud.networks().members("abcd");
    assert_eq!(members.list().url, "https://api.zerotier.com/api/v1/network/abcd/member");
    assert_eq!(members.get("m").url, "https://api.zerotier.com/api/v1/network/abcd/member/m");
    assert_eq!(members.delete("m").method, Method::Delete);
    let req = UpdateMemberRequest {
        name: Some("laptop".to_string()),
        description: None,
        config: Some(MemberConfigBuilder::new().active_bridge(true).ip_assignments(vec!["10.0.0.9".to_string()]).build()),
    };
    let r = members.update("m", &req);
    assert_eq!(r.body.as_deref(), Some(r#"{"name":"laptop","config":{"activeBridge":true,"ipAssignments":["10.0.0.9"]}}"#));
    let only_flag = MemberConfigBuilder::new().authorized(true).build();
    assert_eq!(only_flag.to_json(), r#"{"authorized":true}"#);
    assert_eq!(members.authorize("m").body.as_deref(), Some(r#"{"config":{"authorized":true}}"#));
    assert_eq!(members.deauthorize("m").body.as_deref(), Some(r#"{"config":{"authorized":false}}"#));
}

#[test]
fn json_strings_are_escaped() {
    let cfg = NetworkConfigBuilder::new().name("tab\there\\ \u{1}".to_string()).build();
    assert_eq!(cfg.to_json(), "{\"name\":\"tab\\there\\\\ \\u0001\"}");
}

#[test]
fn classification_of_outcomes() {
    match classify(Ok(HttpResponse { status: 200, text: "{}".to_string() })) {
        Ok(t) => assert_eq!(t, "{}"),
        Err(e) => panic!("{:?}", e),
    }
    match classify(Ok(HttpResponse { status: 299, text: String::new() })) {
        Ok(t) => assert_eq!(t, ""),
        Err(e) => panic!("{:?}", e),
    }
    match classify(Ok(HttpResponse { status: 404, text: "missing".to_string() })) {
        Err(Error::Api { status, message }) => assert_eq!((status, message.as_str()), (404, "missing")),
        other => panic!("{:?}", other),
    }
    match classify(Ok(HttpResponse { status: 199, text: String::new() })) {
        Err(Error::Api { status, .. }) => assert_eq!(status, 199),
        other => panic!("{:?}", other),
    }
    match classify(Err("connection refused".to_string())) {
        Err(Error::Http { cause }) => assert_eq!(cause, "connection refused"),
        other => panic!("{:?}", other),
    }
    match decoded::<u32>(Err("bad".to_string())) {
        Err(Error::Json { cause }) => assert_eq!(cause, "bad"),
        other => panic!("{:?}", other),
    }
    assert!(matches!(decoded::<u32>(Ok(7)), Ok(7)));
}

#[test]
fn cloud_network_creation_without_configuration_sends_empty_object() {
    let r = Central::new("tok".to_string()).networks().create(None);
    assert_eq!((r.method, r.url.as_str()), (Method::Post, "https://api.zerotier.com/api/v1/network"));
    assert_eq!(r.body.as_deref(), Some("{}"));
    assert!(!r.body.unwrap().contains("null"));
}

#[test]
fn token_trim_removes_unicode_white_space_only() {
    let c = Client::with_token("\u{3000}\u{a0} tok\u{2009}en\u{85}\t".to_string());
    assert_eq!(c.backend().token, "tok\u{2009}en");
    let z = Client::with_token("\u{200b}x".to_string());
    assert_eq!(z.backend().token, "\u{200b}x");
}

#[test]
fn each_client_keeps_its_auth_scheme() {
    assert_eq!(Client::new(None).backend().scheme, AuthScheme::HeaderToken);
    let cloud = Central::with_options("t".to_string(), CentralOptions { base_url: None, timeout_secs: Some(1) });
    assert_eq!(cloud.backend().scheme, AuthScheme::BearerToken);
    assert_eq!(cloud.backend().timeout_secs, 1);
    let r = cloud.status();
    assert_eq!((r.auth_name.as_str(), r.auth_value.as_str()), ("Authorization", "token t"));
}

#[test]
fn json_control_characters_use_lowercase_hex() {
    let cfg = NetworkConfigBuilder::new().name("\u{1f}\u{8}\u{c}\r\n/\u{7f}".to_string()).build();
    assert_eq!(cfg.to_json(), "{\"name\":\"\\u001f\\b\\f\\r\\n/\u{7f}\"}");
}
