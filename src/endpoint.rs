//! The fixed parts of the HTTP surface: the liveness reply and the address
//! that the service listens on.
use vstd::prelude::*;

verus! {

/// `pong`
pub open spec fn pong() -> Seq<char> {
    seq!['p', 'o', 'n', 'g']
}

/// `0.0.0.0:`, every interface.
pub open spec fn any_host() -> Seq<char> {
    seq!['0', '.', '0', '.', '0', '.', '0', ':']
}

/// `8080`, the port when none is given.
pub open spec fn default_port() -> Seq<char> {
    seq!['8', '0', '8', '0']
}

/// The body of the reply to `GET /ping`, which does not depend on the broker.
pub fn ping() -> (r: String)
    ensures
        r@ == pong(),
{
    proof {
        reveal_strlit("pong");
    }
    let r = String::from_str("pong");
    assert(r@ =~= pong());
    r
}

/// The address to listen on: every interface, at the given port or else at
/// port 8080.
pub fn listen_address(port: Option<&str>) -> (r: String)
    ensures
        port matches Some(p) ==> r@ == any_host() + p@,
        port is None ==> r@ == any_host() + default_port(),
{
    proof {
        reveal_strlit("0.0.0.0:");
        reveal_strlit("8080");
    }
    let host = String::from_str("0.0.0.0:");
    assert(host@ =~= any_host());
    match port {
        Some(p) => host.concat(p),
        None => {
            let r = host.concat("8080");
            assert(r@ =~= any_host() + default_port());
            r
        },
    }
}

} // verus!
