//! Small pieces of text that name network endpoints.
use vstd::prelude::*;

verus! {

/// The text `host:port` that names a socket address.
pub open spec fn host_port(host: Seq<char>, port: Seq<char>) -> Seq<char> {
    host + seq![':'] + port
}

/// Joins a host and a port as `host:port`.
pub fn join_host_port(host: &String, port: &String) -> (r: String)
    ensures
        r@ == host_port(host@, port@),
{
    let mut r = host.clone();
    proof { reveal_strlit(":"); }
    r.append(":");
    r.append(port.as_str());
    r
}

} // verus!
