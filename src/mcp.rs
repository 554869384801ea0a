//! The tool catalog offered to an orchestrating agent: validation of an
//! invocation, the request it leads to, and the text of its result.

mod render;
mod server;

pub use render::{
    authorized_text, authorized_with_ip_spec, authorized_with_ip_text, cloud_members_spec,
    cloud_members_text, cloud_network_entries, cloud_network_entry, cloud_network_name,
    cloud_networks_spec, cloud_networks_text, deauthorized_text, error_text, failure_text, join_spec,
    join_text, leave_spec, leave_text, member_change_spec, member_entries, member_entry, member_ips,
    member_mark, network_entries, network_entry, networks_spec, networks_text, peer_entries,
    peer_entry, peers_spec, peers_text, status_spec, status_text,
};
pub use server::{
    arg_names, arg_text, first_problem, lemma_cloud_tool_needs_credential,
    lemma_missing_argument_rejected, ip_authorization_text, lookup, problem, required_args,
    required_texts, tool_named, validate, ArgValue,
    AuthorizeWithIpParam, Call, McpServer, MemberParam, NetworkIdParam, Step, Tool, ToolInvocation,
    NOT_CONFIGURED,
};
