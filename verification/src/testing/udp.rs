//! What a test over UDP asks for.
use crate::protocol::{EndpointClaim, EndpointClaims, Protocol};
use vstd::prelude::*;

verus! {

/// The claim of one UDP endpoint for a local port.
pub fn get_endpoint_claims_single(local_port: u16) -> (claims: EndpointClaims)
    ensures
        claims@ == seq![
            EndpointClaim { protocol: Protocol::UDP, local_port, remote_port: 0 },
        ],
{
    let mut claims: EndpointClaims = Vec::new();
    claims.push(EndpointClaim { protocol: Protocol::UDP, local_port, remote_port: 0 });
    assert(claims@ =~= seq![
        EndpointClaim { protocol: Protocol::UDP, local_port, remote_port: 0 },
    ]);
    claims
}

} // verus!
