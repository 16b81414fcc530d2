//! The pool of remote ports: which are free, and how they are handed to clients.
use crate::id::{is_version_4, EndpointId};
use crate::protocol::{Endpoint, EndpointClaim, EndpointClaims, Endpoints, Protocol};
use rand::rngs::StdRng;
use rand::seq::IteratorRandom;
use std::collections::{HashMap, HashSet};
use std::ops::{Range, RangeInclusive};
use vstd::prelude::*;
use vstd::string::*;

verus! {

broadcast use vstd::std_specs::hash::group_hash_axioms;

/// Why a port was not handed out or not taken back.
#[derive(Clone, Copy, Debug, PartialEq, Eq, Structural)]
pub enum PortAllocatorError {
    AllocationFailed,
    PortOutOfRange,
    PortAlreadyReleased,
}

impl PortAllocatorError {
    /// How the error is printed.
    pub open spec fn text(self) -> Seq<char> {
        match self {
            PortAllocatorError::AllocationFailed =>
                "Port allocation failed because there is no available port."@,
            PortAllocatorError::PortOutOfRange => "Try to release port that is out of range."@,
            PortAllocatorError::PortAlreadyReleased =>
                "Try to release port that is already exist in available port table."@,
        }
    }

    /// The error in words.
    pub fn to_string(&self) -> (r: String)
        ensures
            r@ == self.text(),
    {
        match self {
            PortAllocatorError::AllocationFailed =>
                "Port allocation failed because there is no available port.".to_owned(),
            PortAllocatorError::PortOutOfRange =>
                "Try to release port that is out of range.".to_owned(),
            PortAllocatorError::PortAlreadyReleased =>
                "Try to release port that is already exist in available port table.".to_owned(),
        }
    }
}

#[verifier::external_type_specification]
#[verifier::external_body]
pub struct ExStdRng(StdRng);

/// Calls `rand::seq::IteratorRandom::choose` on the set's iterator: some element of the set, or
/// nothing when the set is empty. Which element it is rests on the generator's state and on the
/// order in which the set is walked.
#[verifier::external_body]
fn choose_port(ports: &HashSet<u16>, rng: &mut StdRng) -> (choice: Option<u16>)
    ensures
        match choice {
            Some(p) => ports@.contains(p),
            None => forall|p: u16| !ports@.contains(p),
        },
{
    ports.iter().choose(rng).copied()
}

/// A set of port numbers that a pool may be made from.
pub trait PortRange: Sized {
    /// Whether `port` belongs to the range.
    spec fn covers(&self, port: u16) -> bool;

    /// Tests whether `port` belongs to the range.
    fn covers_port(&self, port: u16) -> (b: bool)
        ensures
            b == self.covers(port),
    ;
}

impl PortRange for Range<u16> {
    open spec fn covers(&self, port: u16) -> bool {
        self.start <= port < self.end
    }

    fn covers_port(&self, port: u16) -> (b: bool) {
        self.contains(&port)
    }
}

impl PortRange for RangeInclusive<u16> {
    open spec fn covers(&self, port: u16) -> bool {
        self@.start <= port && (if self@.exhausted {
            port < self@.end
        } else {
            port <= self@.end
        })
    }

    fn covers_port(&self, port: u16) -> (b: bool) {
        self.contains(&port)
    }
}

/// The claims for one local port, in the order in which they were made.
pub open spec fn claims_for(claims: Seq<EndpointClaim>, port: u16) -> Seq<EndpointClaim> {
    claims.filter(|c: EndpointClaim| c.local_port == port)
}

/// The local ports that are claimed.
pub open spec fn local_ports(claims: Seq<EndpointClaim>) -> Set<u16> {
    claims.map_values(|c: EndpointClaim| c.local_port).to_set()
}

/// Two claims ask for the same local port and protocol.
pub open spec fn conflicts(a: EndpointClaim, b: EndpointClaim) -> bool {
    a.local_port == b.local_port && a.protocol == b.protocol
}

/// Claims that can be served: none names a remote port, and no two are for the same local
/// port and protocol.
pub open spec fn acceptable(claims: Seq<EndpointClaim>) -> bool {
    &&& forall|i: int| 0 <= i < claims.len() ==> (#[trigger] claims[i]).remote_port == 0
    &&& forall|i: int, j: int|
        0 <= i < j < claims.len() ==> !conflicts(#[trigger] claims[i], #[trigger] claims[j])
}

/// A position in claims that are grouped by local port.
pub open spec fn in_groups(groups: Map<u16, Vec<EndpointClaim>>, at: (u16, int)) -> bool {
    groups.contains_key(at.0) && 0 <= at.1 < groups[at.0]@.len()
}

/// The claim at a position of the groups.
pub open spec fn claim_at(groups: Map<u16, Vec<EndpointClaim>>, at: (u16, int)) -> EndpointClaim {
    groups[at.0]@[at.1]
}

/// What `acceptable` says, of claims that are grouped.
pub open spec fn acceptable_groups(groups: Map<u16, Vec<EndpointClaim>>) -> bool {
    &&& forall|at: (u16, int)|
        in_groups(groups, at) ==> (#[trigger] claim_at(groups, at)).remote_port == 0
    &&& forall|a: (u16, int), b: (u16, int)|
        in_groups(groups, a) && in_groups(groups, b) && a != b ==> !conflicts(
            #[trigger] claim_at(groups, a),
            #[trigger] claim_at(groups, b),
        )
}

/// The groups hold the claims `claims`, each under its local port.
pub open spec fn grouped(
    claims: Seq<EndpointClaim>,
    groups: Map<u16, Vec<EndpointClaim>>,
) -> bool {
    &&& groups.dom() == local_ports(claims)
    &&& forall|p: u16| #[trigger]
        groups.contains_key(p) ==> groups[p]@ == claims_for(claims, p)
}

/// The remote ports of some endpoints.
pub open spec fn remote_ports(endpoints: Seq<Endpoint>) -> Set<u16> {
    endpoints.map_values(|e: Endpoint| e.remote_port).to_set()
}

/// The endpoint leads to the local port of the claim, over its protocol.
pub open spec fn answers(e: Endpoint, c: EndpointClaim) -> bool {
    e.protocol == c.protocol && e.local_port == c.local_port
}

/// Some endpoint answers the claim.
pub open spec fn answered(endpoints: Seq<Endpoint>, c: EndpointClaim) -> bool {
    exists|j: int| 0 <= j < endpoints.len() && answers(#[trigger] endpoints[j], c)
}

/// The endpoint answers some claim.
pub open spec fn claimed(claims: Seq<EndpointClaim>, e: Endpoint) -> bool {
    exists|i: int| 0 <= i < claims.len() && answers(e, #[trigger] claims[i])
}

/// The endpoints answer the claims one for one; endpoints share a remote port exactly when
/// they share a local port.
pub open spec fn serves(endpoints: Seq<Endpoint>, claims: Seq<EndpointClaim>) -> bool {
    &&& endpoints.len() == claims.len()
    &&& forall|i: int|
        0 <= i < claims.len() ==> answered(endpoints, #[trigger] claims[i])
    &&& forall|j: int|
        0 <= j < endpoints.len() ==> claimed(claims, #[trigger] endpoints[j])
    &&& forall|i: int, j: int|
        0 <= i < j < endpoints.len() ==> !((#[trigger] endpoints[i]).local_port == (
        #[trigger] endpoints[j]).local_port && endpoints[i].protocol == endpoints[j].protocol)
    &&& forall|i: int, j: int|
        0 <= i < endpoints.len() && 0 <= j < endpoints.len() ==> ((
        #[trigger] endpoints[i]).local_port == (#[trigger] endpoints[j]).local_port
            <==> endpoints[i].remote_port == endpoints[j].remote_port)
    &&& forall|j: int|
        0 <= j < endpoints.len() ==> is_version_4((#[trigger] endpoints[j]).id.uuid)
}

/// The free ports of a range.
#[verifier::reject_recursive_types(R)]
pub struct PortAllocator<R = Range<u16>> {
    available_ports: HashSet<u16>,
    range: R,
}

impl Default for PortAllocator<Range<u16>> {
    /// A pool of the ports 10000 to 19999.
    fn default() -> (r: Self)
        ensures
            r.wf(),
            r.range() == (10000u16..20000u16),
            forall|p: u16| r.available().contains(p) <==> 10000 <= p < 20000,
    {
        PortAllocator::new(10000..20000)
    }
}

impl<R: PortRange> PortAllocator<R> {
    /// The ports that can still be handed out.
    pub closed spec fn available(self) -> Set<u16> {
        self.available_ports@
    }

    /// The range that the pool was made from.
    pub closed spec fn range(self) -> R {
        self.range
    }

    /// Every free port lies in the range.
    pub open spec fn wf(self) -> bool {
        &&& self.available().finite()
        &&& forall|p: u16| self.available().contains(p) ==> self.range().covers(p)
    }

    /// What is left of `before` after one port was taken out of it.
    pub open spec fn took_one(self, before: Self, r: Result<u16, PortAllocatorError>) -> bool {
        &&& self.range() == before.range()
        &&& match r {
            Ok(p) => {
                &&& before.available().contains(p)
                &&& self.available() == before.available().remove(p)
            },
            Err(e) => {
                &&& e == PortAllocatorError::AllocationFailed
                &&& before.available().is_empty()
                &&& self.available() == before.available()
            },
        }
    }

    /// What is left of `before` after claims were served, or could not be.
    pub open spec fn allocated(
        self,
        before: Self,
        claims: Seq<EndpointClaim>,
        r: Result<Endpoints, PortAllocatorError>,
    ) -> bool {
        &&& self.range() == before.range()
        &&& match r {
            Ok(endpoints) => {
                &&& acceptable(claims)
                &&& local_ports(claims).len() <= before.available().len()
                &&& serves(endpoints@, claims)
                &&& remote_ports(endpoints@).subset_of(before.available())
                &&& self.available() == before.available().difference(remote_ports(endpoints@))
            },
            Err(e) => {
                &&& e == PortAllocatorError::AllocationFailed
                &&& !(acceptable(claims) && local_ports(claims).len() <= before.available().len())
                &&& self.available() == before.available()
            },
        }
    }

    /// What `before` has become after a port was put back into it, or could not be.
    pub open spec fn released(self, before: Self, port: u16, r: Result<(), PortAllocatorError>) -> bool {
        &&& self.range() == before.range()
        &&& match r {
            Ok(_) => {
                &&& before.range().covers(port)
                &&& !before.available().contains(port)
                &&& self.available() == before.available().insert(port)
            },
            Err(e) => {
                &&& e == (if !before.range().covers(port) {
                    PortAllocatorError::PortOutOfRange
                } else {
                    PortAllocatorError::PortAlreadyReleased
                })
                &&& !before.range().covers(port) || before.available().contains(port)
                &&& self.available() == before.available()
            },
        }
    }

    /// A pool in which every port of `range` is free.
    pub fn new(range: R) -> (r: Self)
        ensures
            r.wf(),
            r.range() == range,
            forall|p: u16| #[trigger] r.available().contains(p) <==> range.covers(p),
    {
        let mut available_ports: HashSet<u16> = HashSet::new();
        let mut n: u32 = 0;
        while n <= 0xFFFF
            invariant
                n <= 0x1_0000,
                available_ports@.finite(),
                forall|p: u16| available_ports@.contains(p) <==> p < n && range.covers(p),
            decreases 0x1_0000 - n,
        {
            let p: u16 = n as u16;
            if range.covers_port(p) {
                available_ports.insert(p);
            }
            n = n + 1;
        }
        PortAllocator { available_ports, range }
    }

    /// How many ports are free.
    pub fn available_len(&self) -> (n: usize)
        ensures
            n == self.available().len(),
    {
        self.available_ports.len()
    }

    /// Takes one free port out of the pool, at random.
    pub fn allocate_port(&mut self, rng: &mut StdRng) -> (r: Result<u16, PortAllocatorError>)
        requires
            old(self).wf(),
        ensures
            final(self).wf(),
            final(self).took_one(*old(self), r),
    {
        let choice = choose_port(&self.available_ports, rng);
        self.take_port(choice)
    }

    /// Takes the chosen port out of the pool. Nothing is chosen only when no port is free.
    pub fn take_port(&mut self, choice: Option<u16>) -> (r: Result<u16, PortAllocatorError>)
        requires
            old(self).wf(),
            match choice {
                Some(p) => old(self).available().contains(p),
                None => forall|p: u16| !old(self).available().contains(p),
            },
        ensures
            final(self).wf(),
            final(self).range() == old(self).range(),
            match choice {
                Some(p) => r == Ok::<u16, PortAllocatorError>(p) && final(self).available()
                    == old(self).available().remove(p),
                None => r == Err::<u16, PortAllocatorError>(PortAllocatorError::AllocationFailed)
                    && old(self).available().is_empty() && final(self).available() == old(
                    self,
                ).available(),
            },
    {
        match choice {
            Some(n) => {
                self.available_ports.remove(&n);
                Ok(n)
            },
            None => {
                assert(self.available() =~= Set::empty());
                Err(PortAllocatorError::AllocationFailed)
            },
        }
    }

    /// Sorts claims by their local port, keeping their order within each group.
    pub fn aggregate_claims_by_local_port(&self, claims: EndpointClaims) -> (groups: HashMap<
        u16,
        EndpointClaims,
    >)
        ensures
            grouped(claims@, groups@),
    {
        let mut map: HashMap<u16, EndpointClaims> = HashMap::new();
        let mut i: usize = 0;
        assert(local_ports(claims@.take(0)) =~= Set::empty());
        assert(map@.dom() =~= Set::empty());
        while i < claims.len()
            invariant
                i <= claims.len(),
                grouped(claims@.take(i as int), map@),
            decreases claims.len() - i,
        {
            let claim = claims[i];
            let ghost before = map@;
            let ghost seen = claims@.take(i as int);
            let ghost next = claims@.take(i + 1);
            proof {
                assert(next =~= seen.push(claim));
                lemma_local_ports_push(seen, claim);
                assert forall|p: u16| claims_for(next, p) == (if claim.local_port == p {
                    claims_for(seen, p).push(claim)
                } else {
                    claims_for(seen, p)
                }) by {
                    lemma_claims_for_push(seen, claim, p);
                }
                if !before.contains_key(claim.local_port) {
                    lemma_claims_for_empty(seen, claim.local_port);
                }
            }
            map.entry(claim.local_port).or_insert(Vec::new()).push(claim);
            proof {
                assert(map@.dom() =~= before.dom().insert(claim.local_port));
                assert forall|p: u16| #[trigger] map@.contains_key(p) implies map@[p]@
                    == claims_for(next, p) by {
                    if p != claim.local_port {
                        assert(before.contains_key(p));
                    }
                }
            }
            i = i + 1;
        }
        assert(claims@.take(i as int) =~= claims@);
        map
    }

    /// Whether grouped claims can be served.
    pub open spec fn validated(
        self,
        groups: Map<u16, Vec<EndpointClaim>>,
        r: Result<(), PortAllocatorError>,
    ) -> bool {
        match r {
            Ok(_) => groups.dom().len() <= self.available().len() && acceptable_groups(groups),
            Err(e) => e == PortAllocatorError::AllocationFailed && !(groups.dom().len()
                <= self.available().len() && acceptable_groups(groups)),
        }
    }

    /// Checks that grouped claims can be served: there is a free port for each local port, no
    /// claim names a remote port, and no two claims are for the same local port and protocol.
    pub fn validate_endpoint_claims(
        &self,
        aggregated_claims: &HashMap<u16, EndpointClaims>,
    ) -> (r: Result<(), PortAllocatorError>)
        ensures
            self.validated(aggregated_claims@, r),
    {
        if aggregated_claims.len() > self.available_ports.len() {
            return Err(PortAllocatorError::AllocationFailed);
        }
        let ghost groups = aggregated_claims@;
        let mut seen: HashSet<u32> = HashSet::new();
        // The positions that were visited, and where each code in `seen` was met.
        let ghost mut visited: Set<(u16, int)> = Set::empty();
        for key in keys: aggregated_claims.keys()
            invariant
                groups == aggregated_claims@,
                keys.seq().unref().to_set() == groups.dom(),
                keys.seq().no_duplicates(),
                forall|at: (u16, int)| #[trigger]
                    visited.contains(at) <==> in_groups(groups, at) && exists|k: int|
                        0 <= k < keys.index() && *(#[trigger] keys.seq()[k]) == at.0,
                no_conflict_among(groups, visited),
                forall|code: u32| #[trigger]
                    seen@.contains(code) <==> exists|at: (u16, int)| #[trigger]
                        visited.contains(at) && claim_code(claim_at(groups, at)) == code,
        {
            let ghost n = keys.index();
            proof {
                assert(keys.seq().unref()[n] == *key);
                assert(keys.seq().unref().to_set().contains(*key));
            }
            let group = aggregated_claims.get(key).unwrap();
            let mut i: usize = 0;
            while i < group.len()
                invariant
                    i <= group.len(),
                    groups == aggregated_claims@,
                    groups.contains_key(*key),
                    groups[*key] == group,
                    0 <= n < keys.seq().len(),
                    keys.seq().no_duplicates(),
                    *keys.seq()[n] == *key,
                    forall|at: (u16, int)| #[trigger]
                        visited.contains(at) <==> in_groups(groups, at) && ((exists|k: int|
                            0 <= k < n && *(#[trigger] keys.seq()[k]) == at.0) || (at.0 == *key
                            && at.1 < i)),
                    no_conflict_among(groups, visited),
                    forall|code: u32| #[trigger]
                        seen@.contains(code) <==> exists|at: (u16, int)| #[trigger]
                            visited.contains(at) && claim_code(claim_at(groups, at)) == code,
                decreases group.len() - i,
            {
                let claim = group[i];
                let ghost here = (*key, i as int);
                let ghost visited_before = visited;
                let ghost seen_before = seen@;
                assert(claim_at(groups, here) == claim && in_groups(groups, here));
                assert(!visited.contains(here)) by {
                    if exists|k: int| 0 <= k < n && *(#[trigger] keys.seq()[k]) == here.0 {
                        let k = choose|k: int| 0 <= k < n && *(#[trigger] keys.seq()[k]) == here.0;
                        assert(keys.seq()[k] == keys.seq()[n]);
                    }
                }
                let code: u32 = code_of(&claim);
                if !seen.insert(code) {
                    proof {
                        let other = choose|at: (u16, int)| #[trigger]
                            visited.contains(at) && claim_code(claim_at(groups, at)) == code;
                        lemma_code_conflicts(claim_at(groups, here), claim_at(groups, other));
                        assert(in_groups(groups, other));
                    }
                    return Err(PortAllocatorError::AllocationFailed);
                }
                if claim.remote_port != 0 {
                    return Err(PortAllocatorError::AllocationFailed);
                }
                proof {
                    visited = visited.insert(here);
                    assert forall|a: (u16, int), b: (u16, int)|
                        visited.contains(a) && visited.contains(b) && a != b implies !conflicts(
                        #[trigger] claim_at(groups, a),
                        #[trigger] claim_at(groups, b),
                    ) by {
                        lemma_code_conflicts(claim_at(groups, a), claim_at(groups, b));
                        if a == here {
                            assert(visited_before.contains(b));
                        } else if b == here {
                            assert(visited_before.contains(a));
                        } else {
                            assert(visited_before.contains(a) && visited_before.contains(b));
                        }
                    }
                    assert forall|c: u32| #[trigger]
                        seen@.contains(c) <==> exists|at: (u16, int)| #[trigger]
                            visited.contains(at) && claim_code(claim_at(groups, at)) == c by {
                        if seen_before.contains(c) {
                            let at = choose|at: (u16, int)| #[trigger]
                                visited_before.contains(at) && claim_code(claim_at(groups, at))
                                    == c;
                            assert(visited.contains(at));
                        }
                        if c == code {
                            assert(visited.contains(here));
                        }
                        if exists|at: (u16, int)| #[trigger]
                            visited.contains(at) && claim_code(claim_at(groups, at)) == c {
                            let at = choose|at: (u16, int)| #[trigger]
                                visited.contains(at) && claim_code(claim_at(groups, at)) == c;
                            if at != here {
                                assert(visited_before.contains(at));
                            }
                        }
                    }
                }
                i = i + 1;
            }
            proof {
                assert forall|at: (u16, int)| #[trigger]
                    visited.contains(at) <==> in_groups(groups, at) && exists|k: int|
                        0 <= k < n + 1 && *(#[trigger] keys.seq()[k]) == at.0 by {
                    if visited.contains(at) && at.0 == *key {
                        assert(*keys.seq()[n] == at.0);
                    }
                }
            }
        }
        proof {
            assert forall|at: (u16, int)| in_groups(groups, at) implies visited.contains(at) by {
                assert(groups.dom().contains(at.0));
            }
        }
        Ok(())
    }

    /// Takes one free port for each claimed local port, at random, and gives each claim its
    /// endpoint. Either every claim is served or nothing changes.
    pub fn allocate_ports(
        &mut self,
        rng: &mut StdRng,
        client_claims: EndpointClaims,
    ) -> (r: Result<Endpoints, PortAllocatorError>)
        requires
            old(self).wf(),
        ensures
            final(self).wf(),
            final(self).allocated(*old(self), client_claims@, r),
    {
        let ghost claims = client_claims@;
        let ghost free = self.available();
        let aggregated_claims = self.aggregate_claims_by_local_port(client_claims);
        let ghost groups = aggregated_claims@;
        proof {
            lemma_acceptable_groups(claims, groups);
        }
        match self.validate_endpoint_claims(&aggregated_claims) {
            Ok(_) => {},
            Err(e) => {
                return Err(e);
            },
        }
        let num_ports: usize = aggregated_claims.len();
        let mut ports: Vec<u16> = Vec::new();
        while ports.len() < num_ports
            invariant
                self.wf(),
                self.range() == old(self).range(),
                ports.len() <= num_ports <= free.len(),
                free.finite(),
                ports@.no_duplicates(),
                ports@.to_set().subset_of(free),
                self.available() == free.difference(ports@.to_set()),
            decreases num_ports - ports.len(),
        {
            proof {
                ports@.unique_seq_to_set();
                vstd::set_lib::lemma_len_difference(free, ports@.to_set());
                lemma_difference_nonempty(free, ports@.to_set());
            }
            let ghost taken = ports@;
            match self.allocate_port(rng) {
                Ok(n) => {
                    ports.push(n);
                    proof {
                        assert(!taken.contains(n)) by {
                            assert(taken.to_set().contains(n) == taken.contains(n));
                        }
                        lemma_to_set_push(taken, n);
                        assert(self.available() =~= free.difference(ports@.to_set()));
                    }
                },
                Err(e) => {
                    assert(false);
                    return Err(e);
                },
            }
        }
        let endpoints = assign_ports(&aggregated_claims, &ports);
        proof {
            let origin = choose|origin: Seq<(u16, int)>|
                #[trigger] assigned(groups, endpoints@, origin);
            lemma_serves(claims, groups, endpoints@, origin);
        }
        Ok(endpoints)
    }

    /// Puts a port back into the pool.
    pub fn release_port(&mut self, port: u16) -> (r: Result<(), PortAllocatorError>)
        requires
            old(self).wf(),
        ensures
            final(self).wf(),
            final(self).released(*old(self), port, r),
    {
        if !self.range.covers_port(port) {
            return Err(PortAllocatorError::PortOutOfRange);
        }
        if self.available_ports.contains(&port) {
            return Err(PortAllocatorError::PortAlreadyReleased);
        }
        self.available_ports.insert(port);
        Ok(())
    }
}

/// The endpoint number `a` answers the claim at the position `origin[a]`, and every claim of
/// the groups is answered once.
spec fn assigned(
    groups: Map<u16, Vec<EndpointClaim>>,
    endpoints: Seq<Endpoint>,
    origin: Seq<(u16, int)>,
) -> bool {
    &&& origin.len() == endpoints.len()
    &&& origin.no_duplicates()
    &&& forall|a: int|
        #![trigger endpoints[a]]
        #![trigger origin[a]]
        0 <= a < endpoints.len() ==> in_groups(groups, origin[a]) && answers(
            endpoints[a],
            claim_at(groups, origin[a]),
        )
    &&& forall|at: (u16, int)| #[trigger] in_groups(groups, at) ==> origin.contains(at)
}

/// The local ports under which claims are grouped, each once.
fn group_keys(aggregated_claims: &HashMap<u16, EndpointClaims>) -> (r: Vec<u16>)
    ensures
        r@.no_duplicates(),
        r@.to_set() == aggregated_claims@.dom(),
        r@.len() == aggregated_claims@.dom().len(),
{
    let mut r: Vec<u16> = Vec::new();
    for key in keys: aggregated_claims.keys()
        invariant
            keys.seq().unref().to_set() == aggregated_claims@.dom(),
            keys.seq().no_duplicates(),
            keys.seq().len() == aggregated_claims@.dom().len(),
            r@ == keys.seq().unref().take(keys.index() as int),
            keys.index() == keys.seq().len() ==> r@ == keys.seq().unref(),
    {
        r.push(*key);
        assert(r@ =~= keys.seq().unref().take(keys.index() + 1));
    }
    r
}

/// Gives each group its port, and each claim of the group an endpoint with that port.
fn assign_ports(aggregated_claims: &HashMap<u16, EndpointClaims>, ports: &Vec<u16>) -> (endpoints:
    Endpoints)
    requires
        ports@.len() == aggregated_claims@.dom().len(),
        ports@.no_duplicates(),
        forall|at: (u16, int)|
            in_groups(aggregated_claims@, at) ==> (#[trigger] claim_at(
                aggregated_claims@,
                at,
            )).local_port == at.0,
        forall|p: u16| #[trigger]
            aggregated_claims@.contains_key(p) ==> aggregated_claims@[p]@.len() > 0,
    ensures
        exists|origin: Seq<(u16, int)>|
            #[trigger] assigned(aggregated_claims@, endpoints@, origin),
        forall|i: int, j: int|
            0 <= i < endpoints@.len() && 0 <= j < endpoints@.len() ==> ((
            #[trigger] endpoints@[i]).local_port == (#[trigger] endpoints@[j]).local_port
                <==> endpoints@[i].remote_port == endpoints@[j].remote_port),
        forall|j: int|
            0 <= j < endpoints@.len() ==> is_version_4((#[trigger] endpoints@[j]).id.uuid),
        remote_ports(endpoints@) == ports@.to_set(),
{
    let ghost groups = aggregated_claims@;
    let mut endpoints: Endpoints = Vec::new();
    let ghost mut origin: Seq<(u16, int)> = Seq::empty();
    // For each endpoint, which of the keys its group has.
    let ghost mut slot: Seq<int> = Seq::empty();
    let keys = group_keys(aggregated_claims);
    let ghost ks = keys@;
    let mut n: usize = 0;
    while n < keys.len()
        invariant
            groups == aggregated_claims@,
            ks == keys@,
            ks.to_set() == groups.dom(),
            ks.no_duplicates(),
            ks.len() == ports@.len(),
            n <= keys@.len(),
            forall|at: (u16, int)|
                in_groups(groups, at) ==> (#[trigger] claim_at(groups, at)).local_port == at.0,
            origin.len() == endpoints@.len(),
            slot.len() == endpoints@.len(),
            origin.no_duplicates(),
            forall|a: int|
                0 <= a < endpoints@.len() ==> placed(
                    groups,
                    ks,
                    ports@,
                    #[trigger] endpoints@[a],
                    origin[a],
                    slot[a],
                    n as int,
                ),
            forall|at: (u16, int)| #[trigger]
                in_groups(groups, at) && (exists|k: int| 0 <= k < n && (#[trigger] ks[k]) == at.0)
                    ==> origin.contains(at),
        decreases keys@.len() - n,
    {
        let key: u16 = keys[n];
        assert(ks.to_set().contains(key));
        let group = aggregated_claims.get(&key).unwrap();
        let remote_port: u16 = ports[n];
        let mut i: usize = 0;
        while i < group.len()
            invariant
                i <= group.len(),
                groups.contains_key(key),
                groups[key] == group,
                n < ports@.len(),
                remote_port == ports@[n as int],
                ks.len() == ports@.len(),
                ks.no_duplicates(),
                ks[n as int] == key,
                forall|at: (u16, int)|
                    in_groups(groups, at) ==> (#[trigger] claim_at(groups, at)).local_port == at.0,
                origin.len() == endpoints@.len(),
                slot.len() == endpoints@.len(),
                origin.no_duplicates(),
                forall|a: int|
                    0 <= a < endpoints@.len() ==> placed(
                        groups,
                        ks,
                        ports@,
                        #[trigger] endpoints@[a],
                        origin[a],
                        slot[a],
                        n + 1,
                    ) && (slot[a] == n ==> origin[a].1 < i),
                forall|at: (u16, int)| #[trigger]
                    in_groups(groups, at) && ((exists|k: int|
                        0 <= k < n && (#[trigger] ks[k]) == at.0) || (at.0 == key && at.1 < i))
                        ==> origin.contains(at),
            decreases group.len() - i,
        {
            let claim = group[i];
            let ghost here = (key, i as int);
            assert(in_groups(groups, here) && claim_at(groups, here) == claim);
            let ghost origin_before = origin;
            let ghost before = endpoints@;
            let e = Endpoint {
                id: EndpointId::new(),
                protocol: claim.protocol,
                local_port: claim.local_port,
                remote_port,
            };
            endpoints.push(e);
            i = i + 1;
            proof {
                origin = origin.push(here);
                slot = slot.push(n as int);
                assert(!origin_before.contains(here)) by {
                    if origin_before.contains(here) {
                        let a = choose|a: int|
                            0 <= a < origin_before.len() && origin_before[a] == here;
                        assert(before[a] == endpoints@[a]);
                        assert(ks[slot[a]] == ks[n as int]);
                    }
                }
                assert forall|at: (u16, int)| #[trigger]
                    in_groups(groups, at) && ((exists|k: int|
                        0 <= k < n && (#[trigger] ks[k]) == at.0) || (at.0 == key && at.1 < i))
                    implies origin.contains(at) by {
                    if at == here {
                        assert(origin[origin_before.len() as int] == here);
                    } else {
                        assert(origin_before.contains(at));
                        let a = choose|a: int|
                            0 <= a < origin_before.len() && origin_before[a] == at;
                        assert(origin[a] == at);
                    }
                }
                assert forall|a: int| 0 <= a < endpoints@.len() implies placed(
                    groups,
                    ks,
                    ports@,
                    #[trigger] endpoints@[a],
                    origin[a],
                    slot[a],
                    n + 1,
                ) && (slot[a] == n ==> origin[a].1 < i) by {
                    if a < before.len() {
                        assert(before[a] == endpoints@[a]);
                    }
                }
            }
        }
        proof {
            assert forall|at: (u16, int)| #[trigger]
                in_groups(groups, at) && (exists|k: int|
                    0 <= k < n + 1 && (#[trigger] ks[k]) == at.0)
                implies origin.contains(at) by {
                let k = choose|k: int|
                    0 <= k < n + 1 && (#[trigger] ks[k]) == at.0;
                if k == n {
                    assert(at.0 == key);
                } else {
                    assert(ks[k] == at.0);
                }
            }
        }
        n = n + 1;
    }
    proof {
        assert forall|at: (u16, int)| #[trigger] in_groups(groups, at) implies origin.contains(
            at,
        ) by {
            assert(ks.to_set().contains(at.0));
        }
        lemma_remote_ports(groups, ks, ports@, endpoints@, origin, slot);
        assert forall|a: int|
            #![trigger endpoints@[a]]
            #![trigger origin[a]]
            0 <= a < endpoints@.len() implies in_groups(groups, origin[a]) && answers(
            endpoints@[a],
            claim_at(groups, origin[a]),
        ) by {
            assert(placed(groups, ks, ports@, endpoints@[a], origin[a], slot[a], n as int));
        }
        assert(assigned(groups, endpoints@, origin));
    }
    endpoints
}

/// The endpoint answers the claim at `at`; `at` lies in the group of the key number `slot`, and
/// the endpoint has the port of that number. Only the first `n` keys count.
spec fn placed(
    groups: Map<u16, Vec<EndpointClaim>>,
    keys: Seq<u16>,
    ports: Seq<u16>,
    e: Endpoint,
    at: (u16, int),
    slot: int,
    n: int,
) -> bool {
    &&& in_groups(groups, at)
    &&& answers(e, claim_at(groups, at))
    &&& e.local_port == at.0
    &&& 0 <= slot < n
    &&& slot < keys.len()
    &&& keys[slot] == at.0
    &&& e.remote_port == ports[slot]
    &&& is_version_4(e.id.uuid)
}

proof fn lemma_remote_ports(
    groups: Map<u16, Vec<EndpointClaim>>,
    keys: Seq<u16>,
    ports: Seq<u16>,
    endpoints: Seq<Endpoint>,
    origin: Seq<(u16, int)>,
    slot: Seq<int>,
)
    requires
        keys.no_duplicates(),
        keys.to_set() == groups.dom(),
        keys.len() == ports.len(),
        ports.no_duplicates(),
        origin.len() == endpoints.len(),
        slot.len() == endpoints.len(),
        forall|p: u16| #[trigger] groups.contains_key(p) ==> groups[p]@.len() > 0,
        forall|a: int|
            0 <= a < endpoints.len() ==> placed(
                groups,
                keys,
                ports,
                #[trigger] endpoints[a],
                origin[a],
                slot[a],
                keys.len() as int,
            ),
        forall|at: (u16, int)| #[trigger] in_groups(groups, at) ==> origin.contains(at),
    ensures
        forall|i: int, j: int|
            0 <= i < endpoints.len() && 0 <= j < endpoints.len() ==> ((
            #[trigger] endpoints[i]).local_port == (#[trigger] endpoints[j]).local_port
                <==> endpoints[i].remote_port == endpoints[j].remote_port),
        remote_ports(endpoints) == ports.to_set(),
{
    assert forall|i: int, j: int|
        0 <= i < endpoints.len() && 0 <= j < endpoints.len() implies ((
    #[trigger] endpoints[i]).local_port == (#[trigger] endpoints[j]).local_port
        <==> endpoints[i].remote_port == endpoints[j].remote_port) by {
        assert(keys[slot[i]] == endpoints[i].local_port);
        assert(keys[slot[j]] == endpoints[j].local_port);
    }
    let rs = endpoints.map_values(|e: Endpoint| e.remote_port);
    assert forall|p: u16| rs.to_set().contains(p) == ports.to_set().contains(p) by {
        if rs.contains(p) {
            let a = choose|a: int| 0 <= a < rs.len() && rs[a] == p;
            assert(endpoints[a].remote_port == p);
            assert(ports[slot[a]] == p);
        }
        if ports.contains(p) {
            let k = choose|k: int| 0 <= k < ports.len() && ports[k] == p;
            assert(keys.to_set().contains(keys[k]));
            let at = (keys[k], 0int);
            assert(in_groups(groups, at));
            let a = choose|a: int| 0 <= a < origin.len() && origin[a] == at;
            assert(placed(
                groups,
                keys,
                ports,
                endpoints[a],
                origin[a],
                slot[a],
                keys.len() as int,
            ));
            assert(keys[slot[a]] == keys[k]);
            assert(rs[a] == p);
        }
    }
    assert(rs.to_set() =~= ports.to_set());
}

proof fn lemma_to_set_push(s: Seq<u16>, x: u16)
    ensures
        s.push(x).to_set() == s.to_set().insert(x),
{
    assert forall|y: u16| s.push(x).contains(y) == (s.contains(y) || y == x) by {
        if s.contains(y) {
            let i = choose|i: int| 0 <= i < s.len() && s[i] == y;
            assert(s.push(x)[i] == y);
        }
        assert(s.push(x)[s.len() as int] == x);
    }
    assert forall|y: u16| s.push(x).to_set().contains(y) == s.to_set().insert(x).contains(y) by {
        assert(s.push(x).contains(y) == (s.contains(y) || y == x));
    }
    assert(s.push(x).to_set() =~= s.to_set().insert(x));
}

proof fn lemma_difference_nonempty(a: Set<u16>, b: Set<u16>)
    requires
        a.finite(),
        b.finite(),
        b.len() < a.len(),
    ensures
        !a.difference(b).is_empty(),
{
    if a.difference(b).is_empty() {
        assert forall|x: u16| a.contains(x) implies b.contains(x) by {
            assert(!a.difference(b).contains(x));
        }
        vstd::set_lib::lemma_len_subset(a, b);
    }
}

proof fn lemma_claims_for_members(claims: Seq<EndpointClaim>, p: u16)
    ensures
        forall|k: int|
            0 <= k < claims_for(claims, p).len() ==> (#[trigger] claims_for(
                claims,
                p,
            )[k]).local_port == p && claims.contains(claims_for(claims, p)[k]),
        forall|i: int|
            0 <= i < claims.len() && claims[i].local_port == p ==> claims_for(claims, p).contains(
                #[trigger] claims[i],
            ),
{
    broadcast use vstd::seq_lib::group_filter_ensures;

    assert forall|k: int| 0 <= k < claims_for(claims, p).len() implies (#[trigger] claims_for(
        claims,
        p,
    )[k]).local_port == p && claims.contains(claims_for(claims, p)[k]) by {
        claims.lemma_filter_contains_rev(
            |c: EndpointClaim| c.local_port == p,
            claims_for(claims, p)[k],
        );
    }
}

/// Within one local port, conflicts among the claims and conflicts among their group are the
/// same.
proof fn lemma_claims_for_conflicts(claims: Seq<EndpointClaim>, p: u16)
    ensures
        (exists|i: int, j: int|
            0 <= i < j < claims.len() && claims[i].local_port == p && conflicts(
                #[trigger] claims[i],
                #[trigger] claims[j],
            )) <==> (exists|i: int, j: int|
            0 <= i < j < claims_for(claims, p).len() && conflicts(
                #[trigger] claims_for(claims, p)[i],
                #[trigger] claims_for(claims, p)[j],
            )),
    decreases claims.len(),
{
    reveal(Seq::filter);
    if claims.len() > 0 {
        let init = claims.drop_last();
        let c = claims.last();
        let g = claims_for(claims, p);
        let h = claims_for(init, p);
        lemma_claims_for_conflicts(init, p);
        lemma_claims_for_push(init, c, p);
        assert(init.push(c) =~= claims);
        lemma_claims_for_members(init, p);
        if exists|i: int, j: int|
            0 <= i < j < claims.len() && claims[i].local_port == p && conflicts(
                #[trigger] claims[i],
                #[trigger] claims[j],
            ) {
            let (i, j) = choose|i: int, j: int|
                0 <= i < j < claims.len() && claims[i].local_port == p && conflicts(
                    #[trigger] claims[i],
                    #[trigger] claims[j],
                );
            assert(init[i] == claims[i]);
            if j < init.len() {
                assert(init[j] == claims[j]);
                let (a, b) = choose|a: int, b: int|
                    0 <= a < b < h.len() && conflicts(#[trigger] h[a], #[trigger] h[b]);
                assert(g[a] == h[a] && g[b] == h[b]);
            } else {
                assert(h.contains(init[i]));
                let a = choose|a: int| 0 <= a < h.len() && h[a] == init[i];
                assert(g[a] == h[a]);
                assert(g[h.len() as int] == c);
            }
        }
        if exists|a: int, b: int|
            0 <= a < b < g.len() && conflicts(#[trigger] g[a], #[trigger] g[b]) {
            let (a, b) = choose|a: int, b: int|
                0 <= a < b < g.len() && conflicts(#[trigger] g[a], #[trigger] g[b]);
            assert(g[a] == h[a]);
            assert(h[a].local_port == p);
            if b < h.len() {
                assert(g[b] == h[b]);
                let (i, j) = choose|i: int, j: int|
                    0 <= i < j < init.len() && init[i].local_port == p && conflicts(
                        #[trigger] init[i],
                        #[trigger] init[j],
                    );
                assert(claims[i] == init[i] && claims[j] == init[j]);
            } else {
                assert(init.contains(h[a]));
                let i = choose|i: int| 0 <= i < init.len() && init[i] == h[a];
                assert(claims[i] == init[i]);
                assert(claims[init.len() as int] == c);
            }
        }
    }
}

proof fn lemma_local_ports_member(claims: Seq<EndpointClaim>, i: int)
    requires
        0 <= i < claims.len(),
    ensures
        local_ports(claims).contains(claims[i].local_port),
{
    let s = claims.map_values(|c: EndpointClaim| c.local_port);
    assert(s[i] == claims[i].local_port);
}

proof fn lemma_group_nonempty(
    claims: Seq<EndpointClaim>,
    groups: Map<u16, Vec<EndpointClaim>>,
    p: u16,
)
    requires
        grouped(claims, groups),
        groups.contains_key(p),
    ensures
        groups[p]@.len() > 0,
{
    let s = claims.map_values(|c: EndpointClaim| c.local_port);
    assert(local_ports(claims).contains(p));
    let i = choose|i: int| 0 <= i < s.len() && s[i] == p;
    lemma_claims_for_members(claims, p);
    assert(claims_for(claims, p).contains(claims[i]));
}

/// Claims are acceptable exactly when their groups are.
proof fn lemma_acceptable_groups(
    claims: Seq<EndpointClaim>,
    groups: Map<u16, Vec<EndpointClaim>>,
)
    requires
        grouped(claims, groups),
    ensures
        acceptable(claims) <==> acceptable_groups(groups),
        forall|at: (u16, int)|
            in_groups(groups, at) ==> (#[trigger] claim_at(groups, at)).local_port == at.0,
        forall|p: u16| #[trigger] groups.contains_key(p) ==> groups[p]@.len() > 0,
        groups.dom().len() == local_ports(claims).len(),
{
    assert forall|at: (u16, int)| in_groups(groups, at) implies (#[trigger] claim_at(
        groups,
        at,
    )).local_port == at.0 && claims.contains(claim_at(groups, at)) by {
        lemma_claims_for_members(claims, at.0);
        assert(claims_for(claims, at.0)[at.1].local_port == at.0);
    }
    assert forall|p: u16| #[trigger] groups.contains_key(p) implies groups[p]@.len() > 0 by {
        lemma_group_nonempty(claims, groups, p);
    }
    if acceptable(claims) {
        assert forall|a: (u16, int), b: (u16, int)|
            in_groups(groups, a) && in_groups(groups, b) && a != b implies !conflicts(
            #[trigger] claim_at(groups, a),
            #[trigger] claim_at(groups, b),
        ) by {
            if conflicts(claim_at(groups, a), claim_at(groups, b)) {
                let g = claims_for(claims, a.0);
                lemma_claims_for_conflicts(claims, a.0);
                if a.1 < b.1 {
                    assert(conflicts(g[a.1], g[b.1]));
                } else {
                    assert(conflicts(g[b.1], g[a.1]));
                }
            }
        }
    }
    if acceptable_groups(groups) {
        assert forall|i: int| 0 <= i < claims.len() implies (
        #[trigger] claims[i]).remote_port == 0 by {
            let p = claims[i].local_port;
            lemma_local_ports_member(claims, i);
            lemma_claims_for_members(claims, p);
            let g = claims_for(claims, p);
            let k = choose|k: int| 0 <= k < g.len() && g[k] == claims[i];
            assert(groups.contains_key(p));
            assert(claim_at(groups, (p, k)) == claims[i]);
        }
        assert forall|i: int, j: int| 0 <= i < j < claims.len() implies !conflicts(
            #[trigger] claims[i],
            #[trigger] claims[j],
        ) by {
            if conflicts(claims[i], claims[j]) {
                let p = claims[i].local_port;
                let g = claims_for(claims, p);
                lemma_local_ports_member(claims, i);
                assert(groups.contains_key(p));
                lemma_claims_for_conflicts(claims, p);
                let (a, b) = choose|a: int, b: int|
                    0 <= a < b < g.len() && conflicts(#[trigger] g[a], #[trigger] g[b]);
                assert(claim_at(groups, (p, a)) == g[a]);
                assert(claim_at(groups, (p, b)) == g[b]);
            }
        }
    }
}

proof fn lemma_serves(
    claims: Seq<EndpointClaim>,
    groups: Map<u16, Vec<EndpointClaim>>,
    endpoints: Seq<Endpoint>,
    origin: Seq<(u16, int)>,
)
    requires
        grouped(claims, groups),
        acceptable(claims),
        assigned(groups, endpoints, origin),
        forall|i: int, j: int|
            0 <= i < endpoints.len() && 0 <= j < endpoints.len() ==> ((
            #[trigger] endpoints[i]).local_port == (#[trigger] endpoints[j]).local_port
                <==> endpoints[i].remote_port == endpoints[j].remote_port),
        forall|j: int|
            0 <= j < endpoints.len() ==> is_version_4((#[trigger] endpoints[j]).id.uuid),
    ensures
        serves(endpoints, claims),
{
    lemma_acceptable_groups(claims, groups);
    assert forall|j: int| 0 <= j < endpoints.len() implies claimed(claims, #[trigger] endpoints[j]) by {
        let at = origin[j];
        assert(answers(endpoints[j], claim_at(groups, at)));
        assert(groups.contains_key(at.0));
        lemma_claims_for_members(claims, at.0);
        let c = claims_for(claims, at.0)[at.1];
        assert(claims.contains(c));
        let i = choose|i: int| 0 <= i < claims.len() && claims[i] == c;
        assert(answers(endpoints[j], claims[i]));
    }
    assert forall|i: int| 0 <= i < claims.len() implies answered(endpoints, #[trigger] claims[i]) by {
        let p = claims[i].local_port;
        lemma_local_ports_member(claims, i);
        lemma_claims_for_members(claims, p);
        let g = claims_for(claims, p);
        let k = choose|k: int| 0 <= k < g.len() && g[k] == claims[i];
        assert(groups.contains_key(p));
        let at = (p, k);
        assert(in_groups(groups, at));
        let j = choose|j: int| 0 <= j < origin.len() && origin[j] == at;
        assert(answers(endpoints[j], claim_at(groups, origin[j])));
        assert(answers(endpoints[j], claims[i]));
    }
    assert forall|i: int, j: int| 0 <= i < j < endpoints.len() implies !((
    #[trigger] endpoints[i]).local_port == (#[trigger] endpoints[j]).local_port
        && endpoints[i].protocol == endpoints[j].protocol) by {
        assert(origin[i] != origin[j]);
        assert(!conflicts(claim_at(groups, origin[i]), claim_at(groups, origin[j])));
    }
    lemma_same_len(endpoints, claims);
}

/// Endpoints and claims that answer each other both ways, with no pair of either for the same
/// local port and protocol, are as many.
proof fn lemma_same_len(endpoints: Seq<Endpoint>, claims: Seq<EndpointClaim>)
    requires
        acceptable(claims),
        forall|i: int|
            0 <= i < claims.len() ==> answered(endpoints, #[trigger] claims[i]),
        forall|j: int|
            0 <= j < endpoints.len() ==> claimed(claims, #[trigger] endpoints[j]),
        forall|i: int, j: int|
            0 <= i < j < endpoints.len() ==> !((#[trigger] endpoints[i]).local_port == (
            #[trigger] endpoints[j]).local_port && endpoints[i].protocol == endpoints[j].protocol),
    ensures
        endpoints.len() == claims.len(),
{
    let pe = endpoints.map_values(|e: Endpoint| (e.local_port, e.protocol));
    let pc = claims.map_values(|c: EndpointClaim| (c.local_port, c.protocol));
    assert(pe.no_duplicates()) by {
        assert forall|i: int, j: int| 0 <= i < j < pe.len() implies pe[i] != pe[j] by {
            assert(pe[i] == (endpoints[i].local_port, endpoints[i].protocol));
            assert(pe[j] == (endpoints[j].local_port, endpoints[j].protocol));
        }
    }
    assert(pc.no_duplicates()) by {
        assert forall|i: int, j: int| 0 <= i < j < pc.len() implies pc[i] != pc[j] by {
            assert(!conflicts(claims[i], claims[j]));
        }
    }
    assert forall|x: (u16, Protocol)| pe.contains(x) implies pc.contains(x) by {
        let j = choose|j: int| 0 <= j < pe.len() && pe[j] == x;
        let e = endpoints[j];
        assert(claimed(claims, e));
        let i = choose|i: int| 0 <= i < claims.len() && answers(e, #[trigger] claims[i]);
        assert(pc[i] == x);
    }
    assert forall|x: (u16, Protocol)| pc.contains(x) implies pe.contains(x) by {
        let i = choose|i: int| 0 <= i < pc.len() && pc[i] == x;
        let c = claims[i];
        assert(answered(endpoints, c));
        let j = choose|j: int| 0 <= j < endpoints.len() && answers(#[trigger] endpoints[j], c);
        assert(pe[j] == x);
    }
    assert forall|x: (u16, Protocol)| pe.to_set().contains(x) == pc.to_set().contains(x) by {
        assert(pe.contains(x) == pc.contains(x));
    }
    assert(pe.to_set() =~= pc.to_set());
    pe.unique_seq_to_set();
    pc.unique_seq_to_set();
}

/// A number that tells the local port and the protocol of a claim.
spec fn claim_code(c: EndpointClaim) -> u32 {
    (2 * c.local_port + (match c.protocol {
        Protocol::TCP => 0int,
        Protocol::UDP => 1int,
    })) as u32
}

fn code_of(c: &EndpointClaim) -> (code: u32)
    ensures
        code == claim_code(*c),
{
    match c.protocol {
        Protocol::TCP => 2 * (c.local_port as u32),
        Protocol::UDP => 2 * (c.local_port as u32) + 1,
    }
}

proof fn lemma_code_conflicts(a: EndpointClaim, b: EndpointClaim)
    ensures
        conflicts(a, b) <==> claim_code(a) == claim_code(b),
{
}

spec fn no_conflict_among(
    groups: Map<u16, Vec<EndpointClaim>>,
    positions: Set<(u16, int)>,
) -> bool {
    &&& forall|at: (u16, int)|
        positions.contains(at) ==> (#[trigger] claim_at(groups, at)).remote_port == 0
    &&& forall|a: (u16, int), b: (u16, int)|
        positions.contains(a) && positions.contains(b) && a != b ==> !conflicts(
            #[trigger] claim_at(groups, a),
            #[trigger] claim_at(groups, b),
        )
}

pub proof fn lemma_local_ports_push(claims: Seq<EndpointClaim>, c: EndpointClaim)
    ensures
        local_ports(claims.push(c)) == local_ports(claims).insert(c.local_port),
{
    let f = |c: EndpointClaim| c.local_port;
    let a = claims.map_values(f);
    let b = claims.push(c).map_values(f);
    assert(b =~= a.push(c.local_port));
    assert forall|p: u16| b.to_set().contains(p) == a.to_set().insert(c.local_port).contains(p) by {
        if a.contains(p) {
            let i = choose|i: int| 0 <= i < a.len() && a[i] == p;
            assert(b[i] == p);
        }
        if b.contains(p) && p != c.local_port {
            let i = choose|i: int| 0 <= i < b.len() && b[i] == p;
            assert(a[i] == p);
        }
        assert(b[a.len() as int] == c.local_port);
    }
    assert(b.to_set() =~= a.to_set().insert(c.local_port));
}

pub proof fn lemma_claims_for_push(claims: Seq<EndpointClaim>, c: EndpointClaim, p: u16)
    ensures
        claims_for(claims.push(c), p) == (if c.local_port == p {
            claims_for(claims, p).push(c)
        } else {
            claims_for(claims, p)
        }),
{
    reveal(Seq::filter);
    assert(claims.push(c).drop_last() =~= claims);
}

pub proof fn lemma_claims_for_empty(claims: Seq<EndpointClaim>, p: u16)
    requires
        !local_ports(claims).contains(p),
    ensures
        claims_for(claims, p) == Seq::<EndpointClaim>::empty(),
    decreases claims.len(),
{
    reveal(Seq::filter);
    if claims.len() > 0 {
        lemma_local_ports_push(claims.drop_last(), claims.last());
        assert(claims.drop_last().push(claims.last()) =~= claims);
        lemma_claims_for_empty(claims.drop_last(), p);
    }
}

/// A port that is taken and put back is free again, and nothing else has changed.
pub proof fn law_release_undoes_allocation<R: PortRange>(
    before: PortAllocator<R>,
    taken: PortAllocator<R>,
    after: PortAllocator<R>,
    port: u16,
)
    requires
        before.available().contains(port),
        taken.available() == before.available().remove(port),
        after.available() == taken.available().insert(port),
    ensures
        after.available() == before.available(),
{
    assert(after.available() =~= before.available());
}

/// The ports of two allocations in a row, with nothing released between them, have none in common.
pub proof fn law_allocations_are_disjoint<R: PortRange>(
    before: PortAllocator<R>,
    first: Seq<Endpoint>,
    between: PortAllocator<R>,
    second: Seq<Endpoint>,
)
    requires
        remote_ports(first).subset_of(before.available()),
        between.available() == before.available().difference(remote_ports(first)),
        remote_ports(second).subset_of(between.available()),
    ensures
        remote_ports(first).disjoint(remote_ports(second)),
{
}

/// Every port that is handed out lies in the range of the pool.
pub proof fn law_allocated_ports_lie_in_range<R: PortRange>(
    before: PortAllocator<R>,
    endpoints: Seq<Endpoint>,
    i: int,
)
    requires
        before.wf(),
        remote_ports(endpoints).subset_of(before.available()),
        0 <= i < endpoints.len(),
    ensures
        before.range().covers(endpoints[i].remote_port),
{
    let s = endpoints.map_values(|e: Endpoint| e.remote_port);
    assert(s[i] == endpoints[i].remote_port);
    assert(s.to_set().contains(endpoints[i].remote_port));
}

/// Claims that are served take one port for each claimed local port out of the pool.
pub proof fn law_one_port_for_each_local_port<R: PortRange>(
    before: PortAllocator<R>,
    after: PortAllocator<R>,
    claims: Seq<EndpointClaim>,
    endpoints: Seq<Endpoint>,
)
    requires
        before.available().finite(),
        serves(endpoints, claims),
        remote_ports(endpoints).subset_of(before.available()),
        after.available() == before.available().difference(remote_ports(endpoints)),
    ensures
        remote_ports(endpoints).len() == local_ports(claims).len(),
        after.available().len() == before.available().len() - local_ports(claims).len(),
{
    let rs = endpoints.map_values(|e: Endpoint| e.remote_port);
    let ls = claims.map_values(|c: EndpointClaim| c.local_port);
    let f = |p: u16| endpoints[choose|j: int| 0 <= j < endpoints.len() && (
    #[trigger] endpoints[j]).local_port == p].remote_port;
    let local = local_ports(claims);
    let remote = remote_ports(endpoints);
    assert forall|p: u16| local.contains(p) implies exists|j: int|
        0 <= j < endpoints.len() && (#[trigger] endpoints[j]).local_port == p by {
        let i = choose|i: int| 0 <= i < ls.len() && ls[i] == p;
        assert(answered(endpoints, claims[i]));
        let j = choose|j: int|
            0 <= j < endpoints.len() && answers(#[trigger] endpoints[j], claims[i]);
        assert(endpoints[j].local_port == p);
    }
    assert(vstd::relations::injective_on(f, local)) by {
        assert forall|a: u16, b: u16|
            local.contains(a) && local.contains(b) && #[trigger] f(a) == #[trigger] f(b)
                implies a == b by {
            let i = choose|j: int|
                0 <= j < endpoints.len() && (#[trigger] endpoints[j]).local_port == a;
            let j = choose|j: int|
                0 <= j < endpoints.len() && (#[trigger] endpoints[j]).local_port == b;
            assert(endpoints[i].remote_port == endpoints[j].remote_port);
        }
    }
    assert forall|q: u16| local.map(f).contains(q) == remote.contains(q) by {
        if local.map(f).contains(q) {
            let p = choose|p: u16| local.contains(p) && f(p) == q;
            let j = choose|j: int|
                0 <= j < endpoints.len() && (#[trigger] endpoints[j]).local_port == p;
            assert(rs[j] == q);
        }
        if remote.contains(q) {
            let j = choose|j: int| 0 <= j < rs.len() && rs[j] == q;
            let p = endpoints[j].local_port;
            assert(claimed(claims, endpoints[j]));
            let i = choose|i: int|
                0 <= i < claims.len() && answers(endpoints[j], #[trigger] claims[i]);
            assert(ls[i] == p);
            assert(local.contains(p));
            let k = choose|k: int|
                0 <= k < endpoints.len() && (#[trigger] endpoints[k]).local_port == p;
            assert(endpoints[k].local_port == endpoints[j].local_port);
            assert(f(p) == q);
        }
    }
    assert(local.map(f) =~= remote);
    vstd::set_lib::lemma_map_size(local, remote, f);
    vstd::set_lib::lemma_len_difference(before.available(), remote);
    lemma_len_difference_subset(before.available(), remote);
}

proof fn lemma_len_difference_subset(a: Set<u16>, b: Set<u16>)
    requires
        a.finite(),
        b.subset_of(a),
    ensures
        a.difference(b).len() == a.len() - b.len(),
{
    vstd::set_lib::lemma_set_disjoint_lens(a.difference(b), b);
    assert(a.difference(b).union(b) =~= a);
}

} // verus!
