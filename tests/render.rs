use std::collections::HashMap;
use zerotier_mcp::central::{Member, MemberConfig, Network as CloudNetwork, NetworkConfig};
use zerotier_mcp::client::{Network, NodeStatus, Peer};
use zerotier_mcp::mcp::{
    authorized_text, authorized_with_ip_text, cloud_members_text, cloud_networks_text, deauthorized_text,
    error_text, join_text, leave_text, networks_text, peers_text, status_text,
};
use zerotier_mcp::rest::Error;

fn node_status() -> NodeStatus {
    NodeStatus {
        address: "abcd1234".to_string(),
        clock: 0,
        online: true,
        planet_world_id: 0,
        public_identity: String::new(),
        tcp_fallback_active: false,
        version: "1.10.1".to_string(),
    }
}

fn local_network(id: &str, name: &str, addresses: &[&str]) -> Network {
    Network {
        id: id.to_string(),
        name: name.to_string(),
        status: "OK".to_string(),
        network_type: "PRIVATE".to_string(),
        mac: String::new(),
        mtu: 2800,
        bridge: false,
        broadcast_enabled: true,
        port_device_name: String::new(),
        netconf_revision: 1,
        assigned_addresses: addresses.iter().map(|a| a.to_string()).collect(),
        allow_dns: false,
        allow_default: false,
        allow_global: false,
        allow_managed: true,
        dns: None,
    }
}

fn member(node_id: &str, name: &str, config: Option<(bool, &[&str])>) -> Member {
    Member {
        id: String::new(),
        network_id: "abcd".to_string(),
        node_id: node_id.to_string(),
        name: name.to_string(),
        description: String::new(),
        config: config.map(|(authorized, ips)| MemberConfig {
            authorized,
            active_bridge: false,
            no_auto_assign_ips: false,
            creation_time: 0,
            ip_assignments: ips.iter().map(|a| a.to_string()).collect(),
            sso_exempt: false,
        }),
        last_online: 0,
        last_seen: 0,
        physical_address: String::new(),
        client_version: String::new(),
        protocol_version: 0,
        supports_rules_engine: true,
    }
}

fn cloud_network(id: &str, name: Option<&str>, counts: (i32, i32, i32)) -> CloudNetwork {
    CloudNetwork {
        id: id.to_string(),
        clock: 0,
        config: name.map(|n| NetworkConfig {
            id: id.to_string(),
            name: n.to_string(),
            private: true,
            creation_time: 0,
            last_modified: 0,
            enable_broadcast: true,
            mtu: 2800,
            multicast_limit: 32,
            routes: vec![],
            ip_assignment_pools: vec![],
            v4_assign_mode: None,
            v6_assign_mode: None,
            dns: None,
        }),
        description: String::new(),
        rules_source: String::new(),
        owner_id: String::new(),
        online_member_count: counts.0,
        authorized_member_count: counts.1,
        total_member_count: counts.2,
        capabilities_by_name: HashMap::new(),
        tags_by_name: HashMap::new(),
    }
}

#[test]
fn status_renders_fixed_template() {
    let text = status_text(&Ok(node_status()));
    assert_eq!(text, "节点状态:\n- 地址: abcd1234\n- 版本: 1.10.1\n- 在线: true\n- TCP回退: false");
    for part in ["abcd1234", "1.10.1", "true", "false"] {
        assert!(text.contains(part));
    }
}

#[test]
fn status_failure_renders_sentence() {
    let e = Error::Http { cause: "connection refused".to_string() };
    assert_eq!(status_text(&Err(e)), "获取状态失败: HTTP request failed: connection refused");
}

#[test]
fn empty_network_list_renders_fixed_sentence() {
    let text = networks_text(&Ok(vec![]));
    assert_eq!(text, "暂未加入任何网络");
    assert!(!text.is_empty());
}

#[test]
fn network_list_keeps_order_and_debug_lists_addresses() {
    let nets = vec![
        local_network("b", "second", &["10.0.0.2/24"]),
        local_network("a", "first", &[]),
        local_network("c", "q\"uote", &["fd00::1/88", "10.1.0.1/16"]),
    ];
    let text = networks_text(&Ok(nets));
    assert_eq!(
        text,
        "已加入的网络:\n\n[b] second\n  状态: OK\n  IP: [\"10.0.0.2/24\"]\n\n[a] first\n  状态: OK\n  IP: []\n\n[c] q\"uote\n  状态: OK\n  IP: [\"fd00::1/88\", \"10.1.0.1/16\"]\n"
    );
}

#[test]
fn debug_list_escapes_quotes() {
    let text = networks_text(&Ok(vec![local_network("x", "n", &["a\"b"])]));
    assert!(text.contains("IP: [\"a\\\"b\"]"));
}

#[test]
fn join_and_leave_render() {
    assert_eq!(join_text(&Ok(local_network("8056c2e21c000001", "home", &[]))), "已加入网络: 8056c2e21c000001 (home)");
    assert_eq!(leave_text("8056c2e21c000001", &Ok(())), "已离开网络: 8056c2e21c000001");
    let e = Error::Api { status: 404, message: "not found".to_string() };
    assert_eq!(leave_text("x", &Err(e.clone())), "离开网络失败: API error (404): not found");
    assert_eq!(join_text(&Err(e)), "加入网络失败: API error (404): not found");
}

#[test]
fn peers_render_with_latency() {
    assert_eq!(peers_text(&Ok(vec![])), "暂无 Peers");
    let peers = vec![
        Peer { address: "aaaaaaaaaa".to_string(), version: "1.10.1".to_string(), role: "LEAF".to_string(), latency: 12, paths: vec![] },
        Peer { address: "bbbbbbbbbb".to_string(), version: "-1.-1.-1".to_string(), role: "PLANET".to_string(), latency: -1, paths: vec![] },
    ];
    assert_eq!(
        peers_text(&Ok(peers)),
        "Peers:\n\n[aaaaaaaaaa]\n  角色: LEAF\n  版本: 1.10.1\n  延迟: 12ms\n\n[bbbbbbbbbb]\n  角色: PLANET\n  版本: -1.-1.-1\n  延迟: -1ms\n"
    );
    let e = Error::Json { cause: "expected value".to_string() };
    assert_eq!(peers_text(&Err(e)), "获取 Peers 失败: JSON error: expected value");
}

#[test]
fn cloud_networks_render_counts_and_unnamed() {
    assert_eq!(cloud_networks_text(&Ok(vec![])), "暂无网络");
    let nets = vec![cloud_network("n1", Some("office"), (3, 5, 7)), cloud_network("n2", None, (0, 0, -2147483648))];
    assert_eq!(
        cloud_networks_text(&Ok(nets)),
        "云端网络:\n\n[n1] office\n  在线: 3 / 授权: 5 / 总计: 7\n\n[n2] 未命名\n  在线: 0 / 授权: 0 / 总计: -2147483648\n"
    );
}

#[test]
fn cloud_members_render_marks() {
    assert_eq!(cloud_members_text("abcd", &Ok(vec![])), "暂无成员");
    let members = vec![
        member("1111111111", "laptop", Some((true, &["10.0.0.5"]))),
        member("2222222222", "phone", Some((false, &[]))),
        member("3333333333", "new", None),
    ];
    assert_eq!(
        cloud_members_text("abcd", &Ok(members)),
        "网络 abcd 的成员:\n\n✅ [1111111111] laptop\n  IP: [\"10.0.0.5\"]\n\n❌ [2222222222] phone\n  IP: []\n\n❌ [3333333333] new\n"
    );
    let e = Error::Api { status: 403, message: "forbidden".to_string() };
    assert_eq!(cloud_members_text("abcd", &Err(e)), "获取成员失败: API error (403): forbidden");
}

#[test]
fn authorize_renders() {
    let m = member("1234", "box", Some((true, &[])));
    assert_eq!(authorized_text(&Ok(m.clone())), "已授权成员: 1234 (box)");
    assert_eq!(deauthorized_text(&Ok(m)), "已取消授权: 1234 (box)");
    let e = Error::Http { cause: "timeout".to_string() };
    assert_eq!(authorized_text(&Err(e.clone())), "授权失败: HTTP request failed: timeout");
    assert_eq!(deauthorized_text(&Err(e)), "取消授权失败: HTTP request failed: timeout");
}

#[test]
fn authorize_with_ip_renders_echoed_address() {
    let m = member("1234", "box", Some((true, &["10.0.0.5"])));
    let text = authorized_with_ip_text(&Ok(m));
    assert!(text.contains("10.0.0.5"));
    assert_eq!(text, "已授权成员: 1234 (box)\nIP: 10.0.0.5");
    let two = member("1234", "box", Some((true, &["10.0.0.5", "10.0.0.6"])));
    assert_eq!(authorized_with_ip_text(&Ok(two)), "已授权成员: 1234 (box)\nIP: 10.0.0.5, 10.0.0.6");
    let none = member("1234", "box", None);
    assert_eq!(authorized_with_ip_text(&Ok(none)), "已授权成员: 1234 (box)\nIP: ");
}

#[test]
fn error_sentences() {
    assert_eq!(error_text(&Error::Api { status: 500, message: String::new() }), "API error (500): ");
    assert_eq!(Error::Json { cause: "eof".to_string() }.to_string(), "JSON error: eof");
    assert_eq!(Error::Http { cause: "dns".to_string() }.to_string(), "HTTP request failed: dns");
}
