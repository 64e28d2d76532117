//! The forwarding decision for an inbound HTTP request: which peer receives
//! it, at which URI, and what the caller gets when the peer cannot be reached.
use crate::address::{decimal, dotted_quad, push_decimal};
use crate::server::Peer;
use vstd::prelude::*;

verus! {

/// The status returned when no peer is registered.
pub const NO_CONTENT: u16 = 204;

/// The status returned when the selected peer cannot be reached.
pub const BAD_REQUEST: u16 = 400;

/// What to do with a request.
#[derive(Debug)]
pub enum Route {
    /// No peer is registered: answer with no content and forward nothing.
    NoContent,
    /// Forward the request, method and body unchanged, to this URI.
    Forward(String),
}

/// The path and query of a request: the full path-and-query where the request
/// has one, its path otherwise.
pub open spec fn request_target(path: &str, path_and_query: Option<&str>) -> Seq<char> {
    match path_and_query {
        Some(pq) => pq@,
        None => path@,
    }
}

/// `http://<address>:<port><target>` for a peer.
pub open spec fn forward_uri(peer: Peer, target: Seq<char>) -> Seq<char> {
    "http://"@ + dotted_quad(peer.address.ip_address.bits) + ":"@ + decimal(peer.port as nat)
        + target
}

/// Chooses where a request goes: always to the first registered peer, at the
/// request's own path and query; nowhere when no peer is registered.
pub fn route(peers: &Vec<Peer>, path: &str, path_and_query: Option<&str>) -> (r: Route)
    ensures
        peers.len() == 0 ==> r is NoContent,
        peers.len() > 0 ==> (r matches Route::Forward(uri) && uri@ == forward_uri(
            peers[0],
            request_target(path, path_and_query),
        )),
{
    if peers.len() == 0 {
        return Route::NoContent;
    }
    let peer = &peers[0];
    let target = match path_and_query {
        Some(pq) => pq,
        None => path,
    };
    proof {
        reveal_strlit("http://");
        reveal_strlit(":");
    }
    let mut uri = String::from_str("http://");
    peer.address.ip_address.push_dotted(&mut uri);
    uri.append(":");
    push_decimal(&mut uri, peer.port as u32);
    uri.append(target);
    proof {
        assert(uri@ =~= forward_uri(
            peers[0],
            request_target(path, path_and_query),
        ));
    }
    Route::Forward(uri)
}

/// What the caller receives for a forwarded request: the peer's response
/// unchanged, or `BAD_REQUEST` where the transport to the peer failed.
pub fn relay_outcome<R, E>(upstream: Result<R, E>) -> (r: Result<R, u16>)
    ensures
        upstream matches Ok(resp) ==> r == Ok::<R, u16>(resp),
        upstream is Err ==> r == Err::<R, u16>(BAD_REQUEST),
{
    match upstream {
        Ok(resp) => Ok(resp),
        Err(_) => Err(BAD_REQUEST),
    }
}

} // verus!
