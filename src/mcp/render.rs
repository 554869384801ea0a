//! The text of a tool's result: one fixed template per tool, a fixed sentence
//! for an empty collection, one block per item in the order received, and a
//! short sentence for a failure.

use vstd::prelude::*;
use crate::central::{Member, Network as CloudNetwork};
use crate::client::{Network, NodeStatus, Peer};
use crate::rest::Error;
use crate::text::{bool_text, debug_list_text, int_decimal, push_bool, push_debug_list, push_int, views};

verus! {

/// `prefix` followed by the sentence for `e`.
pub open spec fn failure_text(prefix: Seq<char>, e: Error) -> Seq<char> {
    prefix + e.text_spec()
}

fn failure(prefix: &str, e: &Error) -> (r: String)
    ensures
        r@ == failure_text(prefix@, *e),
{
    let mut r = String::from_str(prefix);
    let t = e.to_string();
    r.append(t.as_str());
    r
}

/// The sentence for a failure, on its own.
pub fn error_text(e: &Error) -> (r: String)
    ensures
        r@ == e.text_spec(),
{
    e.to_string()
}

// ---- local node status ----

pub open spec fn status_spec(r: Result<NodeStatus, Error>) -> Seq<char> {
    match r {
        Ok(s) => "节点状态:\n- 地址: "@ + s.address@ + "\n- 版本: "@ + s.version@ + "\n- 在线: "@
            + bool_text(s.online) + "\n- TCP回退: "@ + bool_text(s.tcp_fallback_active),
        Err(e) => failure_text("获取状态失败: "@, e),
    }
}

/// The text of `status`: address, version, online flag and TCP fallback flag.
pub fn status_text(r: &Result<NodeStatus, Error>) -> (t: String)
    ensures
        t@ == status_spec(*r),
{
    match r {
        Ok(s) => {
            let mut t = String::from_str("节点状态:\n- 地址: ");
            t.append(s.address.as_str());
            t.append("\n- 版本: ");
            t.append(s.version.as_str());
            t.append("\n- 在线: ");
            push_bool(&mut t, s.online);
            t.append("\n- TCP回退: ");
            push_bool(&mut t, s.tcp_fallback_active);
            t
        },
        Err(e) => failure("获取状态失败: ", e),
    }
}

// ---- joined networks ----

pub open spec fn network_entry(n: Network) -> Seq<char> {
    "\n["@ + n.id@ + "] "@ + n.name@ + "\n"@ + "  状态: "@ + n.status@ + "\n"@ + "  IP: "@
        + debug_list_text(views(n.assigned_addresses@)) + "\n"@
}

pub open spec fn network_entries(ns: Seq<Network>) -> Seq<char>
    decreases ns.len(),
{
    if ns.len() == 0 { Seq::empty() } else { network_entries(ns.drop_last()) + network_entry(ns.last()) }
}

pub open spec fn networks_spec(r: Result<Vec<Network>, Error>) -> Seq<char> {
    match r {
        Ok(v) => if v@.len() == 0 { "暂未加入任何网络"@ } else { "已加入的网络:\n"@ + network_entries(v@) },
        Err(e) => failure_text("获取网络失败: "@, e),
    }
}

/// The text of `list-networks`: a fixed sentence when none is joined, else one
/// block per network in the order received.
pub fn networks_text(r: &Result<Vec<Network>, Error>) -> (t: String)
    ensures
        t@ == networks_spec(*r),
{
    match r {
        Err(e) => failure("获取网络失败: ", e),
        Ok(v) => {
            if v.len() == 0 {
                return String::from_str("暂未加入任何网络");
            }
            let mut t = String::from_str("已加入的网络:\n");
            let mut i: usize = 0;
            while i < v.len()
                invariant
                    i <= v@.len(),
                    t@ == "已加入的网络:\n"@ + network_entries(v@.subrange(0, i as int)),
                decreases v@.len() - i,
            {
                proof {
                    assert(v@.subrange(0, i as int + 1).drop_last() =~= v@.subrange(0, i as int));
                }
                let n = &v[i];
                t.append("\n[");
                t.append(n.id.as_str());
                t.append("] ");
                t.append(n.name.as_str());
                t.append("\n");
                t.append("  状态: ");
                t.append(n.status.as_str());
                t.append("\n");
                t.append("  IP: ");
                push_debug_list(&mut t, &n.assigned_addresses);
                t.append("\n");
                i = i + 1;
            }
            proof {
                assert(v@.subrange(0, v@.len() as int) =~= v@);
            }
            t
        },
    }
}

pub open spec fn join_spec(r: Result<Network, Error>) -> Seq<char> {
    match r {
        Ok(n) => "已加入网络: "@ + n.id@ + " ("@ + n.name@ + ")"@,
        Err(e) => failure_text("加入网络失败: "@, e),
    }
}

/// The text of `join-network`.
pub fn join_text(r: &Result<Network, Error>) -> (t: String)
    ensures
        t@ == join_spec(*r),
{
    match r {
        Ok(n) => {
            let mut t = String::from_str("已加入网络: ");
            t.append(n.id.as_str());
            t.append(" (");
            t.append(n.name.as_str());
            t.append(")");
            t
        },
        Err(e) => failure("加入网络失败: ", e),
    }
}

pub open spec fn leave_spec(network_id: Seq<char>, r: Result<(), Error>) -> Seq<char> {
    match r {
        Ok(_) => "已离开网络: "@ + network_id,
        Err(e) => failure_text("离开网络失败: "@, e),
    }
}

/// The text of `leave-network` for network `network_id`.
pub fn leave_text(network_id: &str, r: &Result<(), Error>) -> (t: String)
    ensures
        t@ == leave_spec(network_id@, *r),
{
    match r {
        Ok(_) => {
            let mut t = String::from_str("已离开网络: ");
            t.append(network_id);
            t
        },
        Err(e) => failure("离开网络失败: ", e),
    }
}

// ---- peers ----

pub open spec fn peer_entry(p: Peer) -> Seq<char> {
    "\n["@ + p.address@ + "]\n"@ + "  角色: "@ + p.role@ + "\n"@ + "  版本: "@ + p.version@ + "\n"@
        + "  延迟: "@ + int_decimal(p.latency as int) + "ms\n"@
}

pub open spec fn peer_entries(ps: Seq<Peer>) -> Seq<char>
    decreases ps.len(),
{
    if ps.len() == 0 { Seq::empty() } else { peer_entries(ps.drop_last()) + peer_entry(ps.last()) }
}

pub open spec fn peers_spec(r: Result<Vec<Peer>, Error>) -> Seq<char> {
    match r {
        Ok(v) => if v@.len() == 0 { "暂无 Peers"@ } else { "Peers:\n"@ + peer_entries(v@) },
        Err(e) => failure_text("获取 Peers 失败: "@, e),
    }
}

/// The text of `list-peers`: a fixed sentence when there is none, else one
/// block per peer in the order received.
pub fn peers_text(r: &Result<Vec<Peer>, Error>) -> (t: String)
    ensures
        t@ == peers_spec(*r),
{
    match r {
        Err(e) => failure("获取 Peers 失败: ", e),
        Ok(v) => {
            if v.len() == 0 {
                return String::from_str("暂无 Peers");
            }
            let mut t = String::from_str("Peers:\n");
            let mut i: usize = 0;
            while i < v.len()
                invariant
                    i <= v@.len(),
                    t@ == "Peers:\n"@ + peer_entries(v@.subrange(0, i as int)),
                decreases v@.len() - i,
            {
                proof {
                    assert(v@.subrange(0, i as int + 1).drop_last() =~= v@.subrange(0, i as int));
                }
                let p = &v[i];
                t.append("\n[");
                t.append(p.address.as_str());
                t.append("]\n");
                t.append("  角色: ");
                t.append(p.role.as_str());
                t.append("\n");
                t.append("  版本: ");
                t.append(p.version.as_str());
                t.append("\n");
                t.append("  延迟: ");
                push_int(&mut t, p.latency as i64);
                t.append("ms\n");
                i = i + 1;
            }
            proof {
                assert(v@.subrange(0, v@.len() as int) =~= v@);
            }
            t
        },
    }
}

// ---- cloud networks ----

/// The name shown for a cloud network: its configured name, else a fixed word.
pub open spec fn cloud_network_name(n: CloudNetwork) -> Seq<char> {
    match n.config {
        Some(c) => c.name@,
        None => "未命名"@,
    }
}

pub open spec fn cloud_network_entry(n: CloudNetwork) -> Seq<char> {
    "\n["@ + n.id@ + "] "@ + cloud_network_name(n) + "\n"@
        + "  在线: "@ + int_decimal(n.online_member_count as int)
        + " / 授权: "@ + int_decimal(n.authorized_member_count as int)
        + " / 总计: "@ + int_decimal(n.total_member_count as int) + "\n"@
}

fn push_cloud_network_entry(t: &mut String, n: &CloudNetwork)
    ensures
        final(t)@ == old(t)@ + cloud_network_entry(*n),
{
    let ghost start = t@;
    t.append("\n[");
    t.append(n.id.as_str());
    t.append("] ");
    match &n.config {
        Some(c) => t.append(c.name.as_str()),
        None => t.append("未命名"),
    }
    t.append("\n");
    t.append("  在线: ");
    push_int(t, n.online_member_count as i64);
    t.append(" / 授权: ");
    push_int(t, n.authorized_member_count as i64);
    t.append(" / 总计: ");
    push_int(t, n.total_member_count as i64);
    t.append("\n");
    proof {
        assert(t@ =~= start + cloud_network_entry(*n));
    }
}

pub open spec fn cloud_network_entries(ns: Seq<CloudNetwork>) -> Seq<char>
    decreases ns.len(),
{
    if ns.len() == 0 { Seq::empty() } else { cloud_network_entries(ns.drop_last()) + cloud_network_entry(ns.last()) }
}

pub open spec fn cloud_networks_spec(r: Result<Vec<CloudNetwork>, Error>) -> Seq<char> {
    match r {
        Ok(v) => if v@.len() == 0 { "暂无网络"@ } else { "云端网络:\n"@ + cloud_network_entries(v@) },
        Err(e) => failure_text("获取网络失败: "@, e),
    }
}

/// The text of `cloud-list-networks`: a fixed sentence when there is none, else
/// one block per network in the order received, with its member counts.
pub fn cloud_networks_text(r: &Result<Vec<CloudNetwork>, Error>) -> (t: String)
    ensures
        t@ == cloud_networks_spec(*r),
{
    match r {
        Err(e) => failure("获取网络失败: ", e),
        Ok(v) => {
            if v.len() == 0 {
                return String::from_str("暂无网络");
            }
            let mut t = String::from_str("云端网络:\n");
            let mut i: usize = 0;
            while i < v.len()
                invariant
                    i <= v@.len(),
                    t@ == "云端网络:\n"@ + cloud_network_entries(v@.subrange(0, i as int)),
                decreases v@.len() - i,
            {
                proof {
                    assert(v@.subrange(0, i as int + 1).drop_last() =~= v@.subrange(0, i as int));
                }
                push_cloud_network_entry(&mut t, &v[i]);
                i = i + 1;
            }
            proof {
                assert(v@.subrange(0, v@.len() as int) =~= v@);
            }
            t
        },
    }
}

// ---- cloud members ----

/// The mark of a member: authorized or not (a member without configuration is not).
pub open spec fn member_mark(m: Member) -> Seq<char> {
    if m.config is Some && m.config->Some_0.authorized { "✅"@ } else { "❌"@ }
}

pub open spec fn member_entry(m: Member) -> Seq<char> {
    "\n"@ + member_mark(m) + " ["@ + m.node_id@ + "] "@ + m.name@ + "\n"@
        + match m.config {
            Some(c) => "  IP: "@ + debug_list_text(views(c.ip_assignments@)) + "\n"@,
            None => Seq::empty(),
        }
}

fn push_member_entry(t: &mut String, m: &Member)
    ensures
        final(t)@ == old(t)@ + member_entry(*m),
{
    let ghost start = t@;
    t.append("\n");
    let authorized = match &m.config {
        Some(c) => c.authorized,
        None => false,
    };
    if authorized {
        t.append("✅");
    } else {
        t.append("❌");
    }
    t.append(" [");
    t.append(m.node_id.as_str());
    t.append("] ");
    t.append(m.name.as_str());
    t.append("\n");
    let ghost mid = t@;
    match &m.config {
        Some(c) => {
            t.append("  IP: ");
            push_debug_list(t, &c.ip_assignments);
            t.append("\n");
        },
        None => {},
    }
    proof {
        assert(mid =~= start + "\n"@ + member_mark(*m) + " ["@ + m.node_id@ + "] "@ + m.name@ + "\n"@);
        assert(t@ =~= start + member_entry(*m));
    }
}

pub open spec fn member_entries(ms: Seq<Member>) -> Seq<char>
    decreases ms.len(),
{
    if ms.len() == 0 { Seq::empty() } else { member_entries(ms.drop_last()) + member_entry(ms.last()) }
}

pub open spec fn cloud_members_spec(network_id: Seq<char>, r: Result<Vec<Member>, Error>) -> Seq<char> {
    match r {
        Ok(v) => if v@.len() == 0 { "暂无成员"@ } else { "网络 "@ + network_id + " 的成员:\n"@ + member_entries(v@) },
        Err(e) => failure_text("获取成员失败: "@, e),
    }
}

/// The text of `cloud-list-members` for network `network_id`: a fixed sentence
/// when there is none, else one block per member in the order received.
pub fn cloud_members_text(network_id: &str, r: &Result<Vec<Member>, Error>) -> (t: String)
    ensures
        t@ == cloud_members_spec(network_id@, *r),
{
    match r {
        Err(e) => failure("获取成员失败: ", e),
        Ok(v) => {
            if v.len() == 0 {
                return String::from_str("暂无成员");
            }
            let mut t = String::from_str("网络 ");
            t.append(network_id);
            t.append(" 的成员:\n");
            let ghost head = t@;
            let mut i: usize = 0;
            while i < v.len()
                invariant
                    i <= v@.len(),
                    head == "网络 "@ + network_id@ + " 的成员:\n"@,
                    t@ == head + member_entries(v@.subrange(0, i as int)),
                decreases v@.len() - i,
            {
                proof {
                    assert(v@.subrange(0, i as int + 1).drop_last() =~= v@.subrange(0, i as int));
                }
                push_member_entry(&mut t, &v[i]);
                i = i + 1;
            }
            proof {
                assert(v@.subrange(0, v@.len() as int) =~= v@);
            }
            t
        },
    }
}

// ---- member authorization ----

pub open spec fn member_change_spec(done: Seq<char>, failed: Seq<char>, r: Result<Member, Error>) -> Seq<char> {
    match r {
        Ok(m) => done + m.node_id@ + " ("@ + m.name@ + ")"@,
        Err(e) => failure_text(failed, e),
    }
}

fn member_change(done: &str, failed: &str, r: &Result<Member, Error>) -> (t: String)
    ensures
        t@ == member_change_spec(done@, failed@, *r),
{
    match r {
        Ok(m) => {
            let mut t = String::from_str(done);
            t.append(m.node_id.as_str());
            t.append(" (");
            t.append(m.name.as_str());
            t.append(")");
            t
        },
        Err(e) => failure(failed, e),
    }
}

/// The text of `cloud-authorize-member`.
pub fn authorized_text(r: &Result<Member, Error>) -> (t: String)
    ensures
        t@ == member_change_spec("已授权成员: "@, "授权失败: "@, *r),
{
    member_change("已授权成员: ", "授权失败: ", r)
}

/// The text of `cloud-deauthorize-member`.
pub fn deauthorized_text(r: &Result<Member, Error>) -> (t: String)
    ensures
        t@ == member_change_spec("已取消授权: "@, "取消授权失败: "@, *r),
{
    member_change("已取消授权: ", "取消授权失败: ", r)
}

/// The addresses of a member, joined by `, ` (none without configuration).
pub open spec fn member_ips(m: Member) -> Seq<char> {
    match m.config {
        Some(c) => crate::text::join(views(c.ip_assignments@), ", "@),
        None => Seq::empty(),
    }
}

pub open spec fn authorized_with_ip_spec(r: Result<Member, Error>) -> Seq<char> {
    match r {
        Ok(m) => "已授权成员: "@ + m.node_id@ + " ("@ + m.name@ + ")\nIP: "@ + member_ips(m),
        Err(e) => failure_text("授权失败: "@, e),
    }
}

/// The text of `cloud-authorize-member-with-ip`: the member and the addresses
/// the backend reports for it.
pub fn authorized_with_ip_text(r: &Result<Member, Error>) -> (t: String)
    ensures
        t@ == authorized_with_ip_spec(*r),
{
    match r {
        Ok(m) => {
            let mut t = String::from_str("已授权成员: ");
            t.append(m.node_id.as_str());
            t.append(" (");
            t.append(m.name.as_str());
            t.append(")\nIP: ");
            match &m.config {
                Some(c) => {
                    let ips = crate::text::join_strings(&c.ip_assignments, ", ");
                    t.append(ips.as_str());
                },
                None => {},
            }
            t
        },
        Err(e) => failure("授权失败: ", e),
    }
}

} // verus!
