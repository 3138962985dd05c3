//! What the web service answers: its routes and the bodies of its replies.
use vstd::prelude::*;

use crate::lookup::DnsLookupServices;
use crate::net::{host_port, join_host_port};

verus! {

broadcast use vstd::string::group_string_axioms;

/// The routes the web service answers on.
#[derive(Clone, Copy, Debug, PartialEq, Eq, Structural)]
pub enum Route {
    /// `/lookup/:hostname`: look up a host.
    Lookup,
    /// `/:hostname`: look up a host.
    Index,
    /// `/get_config`: the configured services.
    GetConfig,
}

pub open spec fn route_pattern(r: Route) -> Seq<char> {
    match r {
        Route::Lookup => "/lookup/:hostname"@,
        Route::Index => "/:hostname"@,
        Route::GetConfig => "/get_config"@,
    }
}

pub open spec fn route_id(r: Route) -> Seq<char> {
    match r {
        Route::Lookup => "lookup"@,
        Route::Index => "index"@,
        Route::GetConfig => "get_dns_servers"@,
    }
}

/// The body of the reply to a request whose body could not be read.
pub open spec fn invalid_request_text() -> Seq<char> {
    "{\"error\":true, \"message\":\"invalid web request\"}"@
}

/// The body of the reply when the answer could not be written as JSON.
pub open spec fn unparseable_text() -> Seq<char> {
    "{\"error\":true, \"message\":\"unable to parse web request\"}"@
}

impl Route {
    /// The path pattern the route matches.
    pub fn pattern(self) -> (p: String)
        ensures
            p@ == route_pattern(self),
    {
        match self {
            Route::Lookup => {
                proof { reveal_strlit("/lookup/:hostname"); }
                "/lookup/:hostname".to_string()
            },
            Route::Index => {
                proof { reveal_strlit("/:hostname"); }
                "/:hostname".to_string()
            },
            Route::GetConfig => {
                proof { reveal_strlit("/get_config"); }
                "/get_config".to_string()
            },
        }
    }

    /// The name under which the route is registered.
    pub fn id(self) -> (p: String)
        ensures
            p@ == route_id(self),
    {
        match self {
            Route::Lookup => {
                proof { reveal_strlit("lookup"); }
                "lookup".to_string()
            },
            Route::Index => {
                proof { reveal_strlit("index"); }
                "index".to_string()
            },
            Route::GetConfig => {
                proof { reveal_strlit("get_dns_servers"); }
                "get_dns_servers".to_string()
            },
        }
    }

    /// Whether the route looks up a host (rather than showing the
    /// configuration).
    pub fn is_lookup(self) -> (b: bool)
        ensures
            b == (self != Route::GetConfig),
    {
        match self {
            Route::GetConfig => false,
            _ => true,
        }
    }
}

/// The host name a lookup request asks for: the `hostname` part of its path,
/// or `/` when the path has none.
pub fn route_hostname(param: Option<String>) -> (h: String)
    ensures
        h@ == match param {
            Some(p) => p@,
            None => "/"@,
        },
{
    match param {
        Some(p) => p,
        None => {
            proof { reveal_strlit("/"); }
            "/".to_string()
        },
    }
}

/// The reply owed before any lookup, from whether the request's body could
/// be read: none when it could, the invalid-request reply when not.
pub fn body_read_reply(read_ok: bool) -> (r: Option<String>)
    ensures
        read_ok ==> r is None,
        !read_ok ==> (r matches Some(s) && s@ == invalid_request_text()),
{
    if read_ok {
        None
    } else {
        proof { reveal_strlit("{\"error\":true, \"message\":\"invalid web request\"}"); }
        Some("{\"error\":true, \"message\":\"invalid web request\"}".to_string())
    }
}

/// The body of a reply from the JSON text of its answer, or the
/// unparseable reply when the answer could not be written as JSON.
pub fn serialized_reply(serialized: Option<String>) -> (r: String)
    ensures
        r@ == match serialized {
            Some(s) => s@,
            None => unparseable_text(),
        },
{
    match serialized {
        Some(s) => s,
        None => {
            proof { reveal_strlit("{\"error\":true, \"message\":\"unable to parse web request\"}"); }
            "{\"error\":true, \"message\":\"unable to parse web request\"}".to_string()
        },
    }
}

/// The address the web service listens on, as `host:port`.
pub fn listen_address(dlss: &DnsLookupServices) -> (a: String)
    ensures
        a@ == host_port(dlss.listen_host@, dlss.listen_port@),
{
    join_host_port(&dlss.listen_host, &dlss.listen_port)
}

} // verus!
