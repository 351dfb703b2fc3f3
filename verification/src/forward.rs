//! Counters and queries for a table of port-forwarding servers. The table
//! is an explicit owned registry handed in by the caller and keyed by
//! index; the transport work of such a server is no part of this crate.

use vstd::prelude::*;
use vstd::string::StringExecFns;
use crate::digits::{spec_digits, u64_to_string};

verus! {

/// Traffic counters of one forwarding server.
#[derive(Clone, Copy, Debug)]
pub struct ServerStats {
    pub connections: usize,
    pub bytes_sent: u64,
    pub bytes_received: u64,
}

impl ServerStats {
    /// Fresh counters, all zero.
    pub fn new() -> (r: ServerStats)
        ensures
            r.connections == 0,
            r.bytes_sent == 0,
            r.bytes_received == 0,
    {
        ServerStats { connections: 0, bytes_sent: 0, bytes_received: 0 }
    }

    /// The number of connections currently open.
    pub fn get_connections(&self) -> (r: usize)
        ensures
            r == self.connections,
    {
        self.connections
    }

    /// The bytes sent onward so far.
    pub fn get_bytes_sent(&self) -> (r: u64)
        ensures
            r == self.bytes_sent,
    {
        self.bytes_sent
    }

    /// The bytes received back so far.
    pub fn get_bytes_received(&self) -> (r: u64)
        ensures
            r == self.bytes_received,
    {
        self.bytes_received
    }
}

/// One forwarding server as the registry sees it: its counters and
/// whether it is running.
#[derive(Clone, Copy, Debug)]
pub struct ForwardServerEntry {
    pub stats: ServerStats,
    pub running: bool,
}

/// The owned table of forwarding servers, keyed by index.
#[derive(Clone, Debug)]
pub struct ForwardRegistry {
    pub servers: Vec<ForwardServerEntry>,
}

/// The message that names an index the registry does not hold.
pub open spec fn spec_invalid_index_message(index: nat) -> Seq<char> {
    "无效的服务器索引: "@ + spec_digits(index)
}

/// The counters of the server at `index`: connections, bytes sent, bytes
/// received. An index at or past the end of the table is refused, named
/// in the message.
pub fn get_forward_server_stats(registry: &ForwardRegistry, index: usize) -> (r: Result<
    (usize, u64, u64),
    String,
>)
    ensures
        index < registry.servers@.len() ==> (r matches Ok(t) && t == (
            registry.servers@[index as int].stats.connections,
            registry.servers@[index as int].stats.bytes_sent,
            registry.servers@[index as int].stats.bytes_received,
        )),
        index >= registry.servers@.len() ==> (r matches Err(m) && m@
            == spec_invalid_index_message(index as nat)),
{
    if index >= registry.servers.len() {
        let mut message = String::from_str("无效的服务器索引: ");
        let rendered = u64_to_string(index as u64);
        message.append(rendered.as_str());
        return Err(message);
    }
    let stats = &registry.servers[index].stats;
    Ok((stats.get_connections(), stats.get_bytes_sent(), stats.get_bytes_received()))
}

/// How many servers the registry holds.
pub fn get_forward_server_count(registry: &ForwardRegistry) -> (n: usize)
    ensures
        n == registry.servers@.len(),
{
    registry.servers.len()
}

/// Whether the server at `index` exists and is running.
pub fn is_forward_server_running(registry: &ForwardRegistry, index: usize) -> (r: bool)
    ensures
        r == (index < registry.servers@.len() && registry.servers@[index as int].running),
{
    if index >= registry.servers.len() {
        return false;
    }
    registry.servers[index].running
}

} // verus!
