//! Session identities at the edge of the pairing endpoint: which identity a
//! request carries, and where a request without one is sent.
use vstd::prelude::*;
use crate::identity::{Player, cookie_player};

verus! {

/// The path of the endpoint that mints identities.
pub const CREATE_SESSION_ENDPOINT: &'static str = "/create-session";

/// The name of the cookie that carries the identity.
pub const SESSION_COOKIE: &'static str = "SESSION";

/// The path of the endpoint that mints identities.
pub open spec fn create_session_path() -> Seq<char> {
    seq!['/', 'c', 'r', 'e', 'a', 't', 'e', '-', 's', 'e', 's', 's', 'i', 'o', 'n']
}

/// Where a request without an identity is sent: the identity-minting
/// endpoint, with the requested path as its `redirect` parameter.
pub open spec fn session_redirect_text(uri: Seq<char>) -> Seq<char> {
    create_session_path() + seq![
        '?',
        'r',
        'e',
        'd',
        'i',
        'r',
        'e',
        'c',
        't',
        '=',
    ] + uri
}

/// The address that sends a request for `uri` to get an identity first.
pub fn session_redirect(uri: &str) -> (r: String)
    ensures
        r@ == session_redirect_text(uri@),
{
    let mut r = String::from_str("/create-session?redirect=");
    proof {
        reveal_strlit("/create-session?redirect=");
    }
    r.append(uri);
    r
}

/// Where the identity-minting endpoint sends its visitor: the `redirect`
/// parameter where there is one, the root otherwise.
pub fn redirect_target(param: Option<&str>) -> (r: String)
    ensures
        r@ == match param {
            Some(p) => p@,
            None => seq!['/'],
        },
{
    match param {
        Some(p) => String::from_str(p),
        None => {
            proof {
                reveal_strlit("/");
            }
            String::from_str("/")
        },
    }
}

/// The identity that a request carries, given the value of its session
/// cookie (where the cookie is present and its signature holds): the
/// identity the value encodes; otherwise, as the error, the address that
/// sends the request for `uri` to get an identity first.
pub fn identify(cookie: Option<&str>, uri: &str) -> (r: Result<Player, String>)
    ensures
        match cookie {
            Some(v) => match cookie_player(v@) {
                Some(p) => r == Ok::<Player, String>(p),
                None => (r matches Err(e) && e@ == session_redirect_text(uri@)),
            },
            None => (r matches Err(e) && e@ == session_redirect_text(uri@)),
        },
{
    match cookie {
        Some(v) => match Player::from_cookie_value(v) {
            Some(p) => Ok(p),
            None => Err(session_redirect(uri)),
        },
        None => Err(session_redirect(uri)),
    }
}

} // verus!
