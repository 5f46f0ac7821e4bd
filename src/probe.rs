use vstd::prelude::*;
use crate::decimal::{decimal, decimal_of};

verus! {

/// Loopback host on which the backend listens.
pub const BACKEND_HOST: &'static str = "127.0.0.1";

/// Port on which the backend listens.
pub const BACKEND_PORT: u16 = 3721;

/// The socket address that the liveness probe connects to.
pub open spec fn probe_address_spec() -> Seq<char> {
    BACKEND_HOST@ + ":"@ + decimal_of(BACKEND_PORT as nat)
}

/// The address `host:port` that a liveness probe connects to: a bare TCP
/// connect, no protocol exchanged.
pub fn probe_address() -> (r: String)
    ensures
        r@ == probe_address_spec(),
{
    let mut s = String::from_str(BACKEND_HOST);
    s.append(":");
    let port = decimal(BACKEND_PORT as u32);
    s.append(port.as_str());
    s
}

} // verus!
