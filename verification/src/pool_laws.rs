//! What the pool of ports promises, said of ports, claims and endpoints.
use crate::port_allocator::{
    acceptable, answered, answers, claim_at, claimed, conflicts, grouped, in_groups,
    lemma_claims_for_empty, lemma_claims_for_push, lemma_local_ports_push, local_ports,
    remote_ports, PortAllocator, PortAllocatorError, PortRange,
};
use crate::protocol::{Endpoint, EndpointClaim, Endpoints};
use std::ops::Range;
use vstd::prelude::*;

verus! {

/// A range covers the ports from its start up to, and not including, its end.
pub proof fn law_range_covers_up_to_its_end(range: Range<u16>, port: u16)
    ensures
        range.covers(port) <==> range.start <= port && port < range.end,
{
}

/// A port can be taken exactly while one is free. The one that is taken was free and is not any
/// more, and every other port is as it was.
pub proof fn law_one_free_port_is_taken<R: PortRange>(
    before: PortAllocator<R>,
    after: PortAllocator<R>,
    r: Result<u16, PortAllocatorError>,
)
    requires
        after.took_one(before, r),
    ensures
        r is Ok <==> exists|p: u16| before.available().contains(p),
        r matches Ok(p) ==> before.available().contains(p) && !after.available().contains(p),
        r matches Err(e) ==> e == PortAllocatorError::AllocationFailed,
        forall|q: u16|
            r != Ok::<u16, PortAllocatorError>(q) ==> (#[trigger] after.available().contains(q)
                <==> before.available().contains(q)),
        after.range() == before.range(),
{
    if r is Err {
        assert(forall|p: u16| !before.available().contains(p));
    }
}

/// A port can be put back exactly if it belongs to the pool and is not free. It is free then, and
/// every other port is as it was; a port that is not taken back changes nothing.
pub proof fn law_port_is_put_back_once<R: PortRange>(
    before: PortAllocator<R>,
    after: PortAllocator<R>,
    port: u16,
    r: Result<(), PortAllocatorError>,
)
    requires
        after.released(before, port, r),
    ensures
        r is Ok <==> before.range().covers(port) && !before.available().contains(port),
        r == Err::<(), _>(PortAllocatorError::PortOutOfRange) <==> !before.range().covers(port),
        r == Err::<(), _>(PortAllocatorError::PortAlreadyReleased) <==> before.range().covers(port)
            && before.available().contains(port),
        r is Ok ==> after.available().contains(port),
        r is Err ==> after.available() == before.available(),
        forall|q: u16|
            q != port ==> (#[trigger] after.available().contains(q)
                <==> before.available().contains(q)),
        after.range() == before.range(),
{
}

/// A port that was taken can be put back, and then the pool is as it was; it cannot be put back
/// again.
pub proof fn law_taken_port_goes_back<R: PortRange>(
    before: PortAllocator<R>,
    taken: PortAllocator<R>,
    port: u16,
    after: PortAllocator<R>,
    r: Result<(), PortAllocatorError>,
    twice: PortAllocator<R>,
    again: Result<(), PortAllocatorError>,
)
    requires
        before.wf(),
        taken.took_one(before, Ok(port)),
        after.released(taken, port, r),
        twice.released(after, port, again),
    ensures
        r is Ok,
        after.available() == before.available(),
        again == Err::<(), _>(PortAllocatorError::PortAlreadyReleased),
        twice.available() == before.available(),
{
    assert(after.available() =~= before.available());
}

/// The claims can be served from the free ports: none names a remote port, no two name the same
/// local port over the same protocol, and there is a free port for each local port.
pub open spec fn can_be_served(claims: Seq<EndpointClaim>, free: Set<u16>) -> bool {
    &&& forall|i: int| 0 <= i < claims.len() ==> (#[trigger] claims[i]).remote_port == 0
    &&& forall|i: int, j: int|
        0 <= i < claims.len() && 0 <= j < claims.len() && i != j ==> (
        #[trigger] claims[i]).local_port != (#[trigger] claims[j]).local_port || claims[i].protocol
            != claims[j].protocol
    &&& claims.map_values(|c: EndpointClaim| c.local_port).to_set().len() <= free.len()
}

/// Some endpoint has the port.
pub open spec fn some_has_port(endpoints: Seq<Endpoint>, p: u16) -> bool {
    exists|j: int| 0 <= j < endpoints.len() && (#[trigger] endpoints[j]).remote_port == p
}

/// Some endpoint leads to the local port of the claim over its protocol.
pub open spec fn some_leads_to(endpoints: Seq<Endpoint>, c: EndpointClaim) -> bool {
    exists|j: int|
        0 <= j < endpoints.len() && (#[trigger] endpoints[j]).local_port == c.local_port
            && endpoints[j].protocol == c.protocol
}

/// Some claim asks for the local port of the endpoint over its protocol.
pub open spec fn some_asks_for(claims: Seq<EndpointClaim>, e: Endpoint) -> bool {
    exists|i: int|
        0 <= i < claims.len() && (#[trigger] claims[i]).local_port == e.local_port
            && claims[i].protocol == e.protocol
}

/// The endpoints serve the claims: there are as many, each claim has one and each is for a claim;
/// their ports were free and are not any more, two endpoints share a port exactly if they share a
/// local port, and every other port is as it was.
pub open spec fn served(
    endpoints: Seq<Endpoint>,
    claims: Seq<EndpointClaim>,
    free: Set<u16>,
    still_free: Set<u16>,
) -> bool {
    &&& endpoints.len() == claims.len()
    &&& forall|i: int|
        0 <= i < claims.len() ==> some_leads_to(endpoints, #[trigger] claims[i])
    &&& forall|j: int|
        0 <= j < endpoints.len() ==> some_asks_for(claims, #[trigger] endpoints[j])
    &&& forall|j: int|
        0 <= j < endpoints.len() ==> free.contains((#[trigger] endpoints[j]).remote_port)
            && !still_free.contains(endpoints[j].remote_port)
    &&& forall|i: int, j: int|
        0 <= i < endpoints.len() && 0 <= j < endpoints.len() ==> ((
        #[trigger] endpoints[i]).remote_port == (#[trigger] endpoints[j]).remote_port
            <==> endpoints[i].local_port == endpoints[j].local_port)
    &&& forall|p: u16|
        !some_has_port(endpoints, p) ==> (#[trigger] still_free.contains(p) <==> free.contains(p))
}

/// What `acceptable` and enough free ports come to.
pub proof fn lemma_servable(claims: Seq<EndpointClaim>, free: Set<u16>)
    ensures
        acceptable(claims) && local_ports(claims).len() <= free.len() <==> can_be_served(
            claims,
            free,
        ),
{
    if acceptable(claims) {
        assert forall|i: int, j: int| 0 <= i < claims.len() && 0 <= j < claims.len() && i != j implies (
        #[trigger] claims[i]).local_port != (#[trigger] claims[j]).local_port || claims[i].protocol
            != claims[j].protocol by {
            if i < j {
                assert(!conflicts(claims[i], claims[j]));
            } else {
                assert(!conflicts(claims[j], claims[i]));
            }
        }
    }
}

/// What `serves` and the difference of the free ports come to.
pub proof fn lemma_served(
    endpoints: Seq<Endpoint>,
    claims: Seq<EndpointClaim>,
    free: Set<u16>,
    still_free: Set<u16>,
)
    requires
        crate::port_allocator::serves(endpoints, claims),
        remote_ports(endpoints).subset_of(free),
        still_free == free.difference(remote_ports(endpoints)),
    ensures
        served(endpoints, claims, free, still_free),
{
    let ports = endpoints.map_values(|e: Endpoint| e.remote_port);
    assert forall|j: int| 0 <= j < endpoints.len() implies remote_ports(endpoints).contains(
        (#[trigger] endpoints[j]).remote_port,
    ) by {
        assert(ports[j] == endpoints[j].remote_port);
    }
    assert forall|p: u16| !some_has_port(endpoints, p) implies (#[trigger] still_free.contains(p)
        <==> free.contains(p)) by {
        if remote_ports(endpoints).contains(p) {
            let j = choose|j: int| 0 <= j < ports.len() && ports[j] == p;
            assert(endpoints[j].remote_port == p);
        }
    }
    assert forall|i: int| 0 <= i < claims.len() implies some_leads_to(
        endpoints,
        #[trigger] claims[i],
    ) by {
        assert(answered(endpoints, claims[i]));
        let j = choose|j: int|
            0 <= j < endpoints.len() && answers(#[trigger] endpoints[j], claims[i]);
        assert(endpoints[j].local_port == claims[i].local_port);
    }
    assert forall|j: int| 0 <= j < endpoints.len() implies some_asks_for(
        claims,
        #[trigger] endpoints[j],
    ) by {
        assert(claimed(claims, endpoints[j]));
        let i = choose|i: int| 0 <= i < claims.len() && answers(endpoints[j], #[trigger] claims[i]);
        assert(claims[i].local_port == endpoints[j].local_port);
    }
}

/// Claims that can be served are served whole; others change nothing.
pub proof fn law_claims_are_served_or_nothing_happens<R: PortRange>(
    before: PortAllocator<R>,
    after: PortAllocator<R>,
    claims: Seq<EndpointClaim>,
    r: Result<Endpoints, PortAllocatorError>,
)
    requires
        after.allocated(before, claims, r),
    ensures
        r is Ok <==> can_be_served(claims, before.available()),
        r matches Ok(endpoints) ==> served(
            endpoints@,
            claims,
            before.available(),
            after.available(),
        ),
        r matches Err(e) ==> e == PortAllocatorError::AllocationFailed && after.available()
            == before.available(),
        after.range() == before.range(),
{
    lemma_servable(claims, before.available());
    if r is Ok {
        lemma_served(r->Ok_0@, claims, before.available(), after.available());
    }
}

/// Grouped claims can be served exactly if there is a free port for each local port, no claim names
/// a remote port, and no local port is claimed twice for one protocol.
pub proof fn law_groups_are_checked<R: PortRange>(
    pool: PortAllocator<R>,
    groups: Map<u16, Vec<EndpointClaim>>,
    r: Result<(), PortAllocatorError>,
)
    requires
        pool.validated(groups, r),
    ensures
        r is Ok <==> {
            &&& groups.dom().len() <= pool.available().len()
            &&& forall|p: u16, i: int|
                groups.contains_key(p) && 0 <= i < groups[p]@.len() ==> (
                #[trigger] groups[p]@[i]).remote_port == 0
            &&& forall|p: u16, i: int, q: u16, j: int|
                groups.contains_key(p) && 0 <= i < groups[p]@.len() && groups.contains_key(q) && 0
                    <= j < groups[q]@.len() && (p, i) != (q, j) ==> (
                #[trigger] groups[p]@[i]).local_port != (#[trigger] groups[q]@[j]).local_port
                    || groups[p]@[i].protocol != groups[q]@[j].protocol
        },
        r matches Err(e) ==> e == PortAllocatorError::AllocationFailed,
{
    if r is Ok {
        assert forall|p: u16, i: int|
            groups.contains_key(p) && 0 <= i < groups[p]@.len() implies (
        #[trigger] groups[p]@[i]).remote_port == 0 by {
            assert(claim_at(groups, (p, i)).remote_port == 0);
        }
        assert forall|p: u16, i: int, q: u16, j: int|
            groups.contains_key(p) && 0 <= i < groups[p]@.len() && groups.contains_key(q) && 0 <= j
                < groups[q]@.len() && (p, i) != (q, j) implies (
        #[trigger] groups[p]@[i]).local_port != (#[trigger] groups[q]@[j]).local_port
            || groups[p]@[i].protocol != groups[q]@[j].protocol by {
            assert(!conflicts(claim_at(groups, (p, i)), claim_at(groups, (q, j))));
        }
    }
    if (forall|p: u16, i: int|
        groups.contains_key(p) && 0 <= i < groups[p]@.len() ==> (
        #[trigger] groups[p]@[i]).remote_port == 0) && (forall|p: u16, i: int, q: u16, j: int|
        groups.contains_key(p) && 0 <= i < groups[p]@.len() && groups.contains_key(q) && 0 <= j
            < groups[q]@.len() && (p, i) != (q, j) ==> (#[trigger] groups[p]@[i]).local_port != (
        #[trigger] groups[q]@[j]).local_port || groups[p]@[i].protocol
            != groups[q]@[j].protocol) {
        assert forall|at: (u16, int)| in_groups(groups, at) implies (
        #[trigger] claim_at(groups, at)).remote_port == 0 by {
            assert(groups[at.0]@[at.1].remote_port == 0);
        }
        assert forall|a: (u16, int), b: (u16, int)|
            in_groups(groups, a) && in_groups(groups, b) && a != b implies !conflicts(
            #[trigger] claim_at(groups, a),
            #[trigger] claim_at(groups, b),
        ) by {
            assert(groups[a.0]@[a.1].local_port != groups[b.0]@[b.1].local_port
                || groups[a.0]@[a.1].protocol != groups[b.0]@[b.1].protocol);
        }
    }
}

/// Claims are grouped one after the other: each further claim goes to the end of the group of its
/// local port, which is a new one if no claim before was for that port, and no other group changes.
/// Without claims there are no groups.
pub proof fn law_claims_are_grouped_one_by_one(
    claims: Seq<EndpointClaim>,
    claim: EndpointClaim,
    before: Map<u16, Vec<EndpointClaim>>,
    after: Map<u16, Vec<EndpointClaim>>,
    p: u16,
)
    requires
        grouped(claims, before),
        grouped(claims.push(claim), after),
    ensures
        claims.len() == 0 ==> !before.contains_key(p),
        after.contains_key(claim.local_port),
        before.contains_key(claim.local_port) ==> after[claim.local_port]@
            == before[claim.local_port]@.push(claim),
        !before.contains_key(claim.local_port) ==> after[claim.local_port]@ == seq![claim],
        p != claim.local_port ==> after.contains_key(p) == before.contains_key(p),
        p != claim.local_port && before.contains_key(p) ==> after[p]@ == before[p]@,
{
    lemma_local_ports_push(claims, claim);
    lemma_claims_for_push(claims, claim, claim.local_port);
    lemma_claims_for_push(claims, claim, p);
    assert(after.dom().contains(claim.local_port));
    assert(after.dom().contains(p) == before.dom().insert(claim.local_port).contains(p));
    if !before.contains_key(claim.local_port) {
        assert(!before.dom().contains(claim.local_port));
        lemma_claims_for_empty(claims, claim.local_port);
        assert(Seq::<EndpointClaim>::empty().push(claim) =~= seq![claim]);
    }
    if claims.len() == 0 && before.dom().contains(p) {
        assert(claims.map_values(|c: EndpointClaim| c.local_port).contains(p));
    }
}

} // verus!
