//! Whose the ports of a server are: a client has the ports of its endpoints for itself, from the
//! moment that it is answered until a cleanup drops it.
use super::client::Delivery;
use super::control::{
    answered, completed, Admission, Answer, ProvisioningAction, VerifyClientHandshakeError,
};
use super::reader::{client_step, ClientAction, ClientEvent};
use super::store::{frees, live_clients, of_disabled_client, with_endpoints, Store};
use super::{ClientStreamError, Config};
use crate::clock::Timestamp;
use crate::id::{ClientId, EndpointId};
use crate::port_allocator::remote_ports;
use crate::protocol::{ControlPacketV2, Endpoint, ServerHelloV2};
use vstd::prelude::*;

verus! {

/// The endpoints that clients hold, by client: those of the clients in the store, and those of
/// `pending`, who were answered and are not registered yet.
pub open spec fn holdings(store: Store, pending: Map<u128, Seq<Endpoint>>) -> Map<
    u128,
    Seq<Endpoint>,
> {
    Map::new(
        |k: u128| store.clients().contains_key(k) || pending.contains_key(k),
        |k: u128|
            if store.clients().contains_key(k) {
                store.clients()[k].endpoints@
            } else {
                pending[k]
            },
    )
}

/// The client `c` holds an `i`-th endpoint.
pub open spec fn holds(held: Map<u128, Seq<Endpoint>>, c: u128, i: int) -> bool {
    held.contains_key(c) && 0 <= i < held[c].len()
}

/// Every endpoint that is held is registered, its port is not free, and no other client holds it.
pub open spec fn dedicated(store: Store, pending: Map<u128, Seq<Endpoint>>) -> bool {
    let held = holdings(store, pending);
    &&& pending.dom().disjoint(store.clients().dom())
    &&& forall|c: u128, i: int| #[trigger]
        holds(held, c, i) ==> {
            &&& store.endpoints().contains_key(held[c][i].id.uuid)
            &&& store.endpoints()[held[c][i].id.uuid] == held[c][i]
            &&& !store.pool().available().contains(held[c][i].remote_port)
        }
    &&& forall|c: u128, i: int, d: u128, j: int|
        #![trigger holds(held, c, i), holds(held, d, j)]
        holds(held, c, i) && holds(held, d, j) && c != d ==> held[c][i].remote_port
            != held[d][j].remote_port
}

/// What a server does to its clients and ports.
pub enum ServerStep {
    /// A hello was answered.
    Answered {
        config: Config,
        action: Result<ProvisioningAction, VerifyClientHandshakeError>,
        answer: Option<Answer>,
    },
    /// The answer to a client was sent, or could not be.
    Completed { admission: Admission, sent: bool, opened: Vec<Endpoint> },
    /// What is disabled was dropped.
    Cleaned,
    /// Something that gives no client endpoints and frees no port.
    Other,
}

/// The client of the answer and its endpoints go by identifiers that are not in use, which random
/// ones do but for chance.
pub open spec fn fresh(store: Store, pending: Map<u128, Seq<Endpoint>>, hello: ServerHelloV2) -> bool {
    hello matches ServerHelloV2::Success { client_id, host, endpoints } ==> {
        &&& !store.clients().contains_key(client_id.uuid)
        &&& !pending.contains_key(client_id.uuid)
        &&& forall|i: int|
            0 <= i < endpoints@.len() ==> !store.endpoints().contains_key(
                (#[trigger] endpoints@[i]).id.uuid,
            )
        &&& forall|i: int, j: int|
            0 <= i < j < endpoints@.len() ==> (#[trigger] endpoints@[i]).id != (
            #[trigger] endpoints@[j]).id
    }
}

/// Who is pending once a hello was answered.
pub open spec fn pending_after(
    pending: Map<u128, Seq<Endpoint>>,
    answer: Option<Answer>,
) -> Map<u128, Seq<Endpoint>> {
    match answer {
        Some(a) => match a.admission {
            Some(admission) => pending.insert(admission.client_id.uuid, admission.endpoints@),
            None => pending,
        },
        None => pending,
    }
}

/// One step of a server.
pub open spec fn takes(
    before: Store,
    pending: Map<u128, Seq<Endpoint>>,
    step: ServerStep,
    after: Store,
    still: Map<u128, Seq<Endpoint>>,
) -> bool {
    match step {
        ServerStep::Answered { config, action, answer } => {
            &&& answered(config, action, before, after, answer)
            &&& action matches Ok(ProvisioningAction::NewClient { claims }) ==> answer matches Some(
                a,
            ) && fresh(before, pending, a.hello)
            &&& still == pending_after(pending, answer)
        },
        ServerStep::Completed { admission, sent, opened } => {
            &&& completed(before, after, Some(admission), sent, opened@)
            &&& pending.contains_key(admission.client_id.uuid)
            &&& pending[admission.client_id.uuid] == admission.endpoints@
            &&& still == pending.remove(admission.client_id.uuid)
        },
        ServerStep::Cleaned => after.cleaned(before) && still == pending,
        ServerStep::Other => {
            &&& after.pool().available().subset_of(before.pool().available())
            &&& after.endpoints() == before.endpoints()
            &&& after.clients().dom().subset_of(before.clients().dom())
            &&& forall|k: u128| #[trigger]
                after.clients().contains_key(k) ==> after.clients()[k].endpoints@
                    == before.clients()[k].endpoints@
            &&& still == pending
        },
    }
}

pub proof fn lemma_with_endpoints_keeps(endpoints: Map<u128, Endpoint>, new: Seq<Endpoint>, k: u128)
    requires
        forall|i: int| 0 <= i < new.len() ==> (#[trigger] new[i]).id.uuid != k,
    ensures
        with_endpoints(endpoints, new).contains_key(k) == endpoints.contains_key(k),
        endpoints.contains_key(k) ==> with_endpoints(endpoints, new)[k] == endpoints[k],
    decreases new.len(),
{
    if new.len() > 0 {
        let init = new.drop_last();
        assert forall|i: int| 0 <= i < init.len() implies (#[trigger] init[i]).id.uuid != k by {
            assert(init[i] == new[i]);
        }
        lemma_with_endpoints_keeps(endpoints, init, k);
        assert(new[new.len() - 1].id.uuid != k);
    }
}

/// Where the ports are dedicated before, and what is held after was held before by the same client,
/// is still registered and not free, they are dedicated after.
proof fn lemma_fewer(
    before: Store,
    pending: Map<u128, Seq<Endpoint>>,
    after: Store,
    still: Map<u128, Seq<Endpoint>>,
)
    requires
        dedicated(before, pending),
        still.dom().disjoint(after.clients().dom()),
        after.endpoints() == before.endpoints(),
        forall|c: u128| #[trigger]
            holdings(after, still).contains_key(c) ==> holdings(before, pending).contains_key(c)
                && holdings(after, still)[c] == holdings(before, pending)[c],
        forall|c: u128, i: int| #[trigger]
            holds(holdings(after, still), c, i) ==> !after.pool().available().contains(
                holdings(after, still)[c][i].remote_port,
            ),
    ensures
        dedicated(after, still),
{
    let was = holdings(before, pending);
    let held = holdings(after, still);
    assert forall|c: u128, i: int| #[trigger] holds(held, c, i) implies {
        &&& after.endpoints().contains_key(held[c][i].id.uuid)
        &&& after.endpoints()[held[c][i].id.uuid] == held[c][i]
        &&& !after.pool().available().contains(held[c][i].remote_port)
    } by {
        assert(holds(was, c, i));
    }
    assert forall|c: u128, i: int, d: u128, j: int|
        #![trigger holds(held, c, i), holds(held, d, j)]
        holds(held, c, i) && holds(held, d, j) && c != d implies held[c][i].remote_port
        != held[d][j].remote_port by {
        assert(holds(was, c, i) && holds(was, d, j));
    }
}

/// A new client is given ports that were free, so that nobody else holds them.
proof fn lemma_given(
    before: Store,
    pending: Map<u128, Seq<Endpoint>>,
    after: Store,
    client_id: u128,
    endpoints: Seq<Endpoint>,
)
    requires
        dedicated(before, pending),
        !holdings(before, pending).contains_key(client_id),
        forall|i: int|
            0 <= i < endpoints.len() ==> !before.endpoints().contains_key(
                (#[trigger] endpoints[i]).id.uuid,
            ),
        forall|i: int, j: int|
            0 <= i < j < endpoints.len() ==> (#[trigger] endpoints[i]).id != (
            #[trigger] endpoints[j]).id,
        after.clients() == before.clients(),
        remote_ports(endpoints).subset_of(before.pool().available()),
        after.pool().available() == before.pool().available().difference(remote_ports(endpoints)),
        after.endpoints() == with_endpoints(before.endpoints(), endpoints),
    ensures
        dedicated(after, pending.insert(client_id, endpoints)),
{
    let still = pending.insert(client_id, endpoints);
    let was = holdings(before, pending);
    let held = holdings(after, still);
    assert(!before.clients().contains_key(client_id));
    assert(still.dom().disjoint(after.clients().dom()));
    assert forall|c: u128| #[trigger] held.contains_key(c) implies (if c == client_id {
        held[c] == endpoints
    } else {
        was.contains_key(c) && held[c] == was[c]
    }) by {}
    assert forall|i: int| 0 <= i < endpoints.len() implies remote_ports(endpoints).contains(
        (#[trigger] endpoints[i]).remote_port,
    ) by {
        let ports = endpoints.map_values(|e: Endpoint| e.remote_port);
        assert(ports[i] == endpoints[i].remote_port);
    }
    assert forall|c: u128, i: int| #[trigger] holds(held, c, i) implies {
        &&& after.endpoints().contains_key(held[c][i].id.uuid)
        &&& after.endpoints()[held[c][i].id.uuid] == held[c][i]
        &&& !after.pool().available().contains(held[c][i].remote_port)
    } by {
        if c == client_id {
            crate::laws::lemma_with_endpoints(before.endpoints(), endpoints, i);
        } else {
            assert(holds(was, c, i));
            lemma_with_endpoints_keeps(before.endpoints(), endpoints, held[c][i].id.uuid);
        }
    }
    assert forall|c: u128, i: int, d: u128, j: int|
        #![trigger holds(held, c, i), holds(held, d, j)]
        holds(held, c, i) && holds(held, d, j) && c != d implies held[c][i].remote_port
        != held[d][j].remote_port by {
        if c != client_id {
            assert(holds(was, c, i));
        }
        if d != client_id {
            assert(holds(was, d, j));
        }
    }
}

/// A cleanup frees no port that an enabled or pending client holds.
proof fn lemma_cleaned(before: Store, pending: Map<u128, Seq<Endpoint>>, after: Store)
    requires
        dedicated(before, pending),
        after.cleaned(before),
    ensures
        dedicated(after, pending),
{
    let was = holdings(before, pending);
    let held = holdings(after, pending);
    let clients = before.clients();
    assert forall|c: u128, i: int| #[trigger] holds(
        held,
        c,
        i,
    ) implies !after.pool().available().contains(held[c][i].remote_port) by {
        let p = held[c][i].remote_port;
        assert(holds(was, c, i));
        if after.pool().available().contains(p) {
            let eid = choose|eid: EndpointId|
                of_disabled_client(clients, eid) && #[trigger] frees(
                    before.endpoints(),
                    before.pool().range(),
                    eid,
                    p,
                );
            let (d, j) = choose|d: u128, j: int|
                #![trigger clients[d].endpoints@[j]]
                clients.contains_key(d) && clients[d].disabled && 0 <= j
                    < clients[d].endpoints@.len() && clients[d].endpoints@[j].id == eid;
            assert(holds(was, d, j));
            assert(was[d][j].remote_port == p);
            assert(c == d);
            assert(!live_clients(clients).contains_key(c));
        }
    }
    lemma_fewer(before, pending, after, pending);
}

/// Every step of a server leaves each client the ports of its endpoints for itself: an answer to a
/// new client or to one that reconnects, its registration, a cleanup, and whatever else happens.
pub proof fn law_step_keeps_ports_dedicated(
    before: Store,
    pending: Map<u128, Seq<Endpoint>>,
    step: ServerStep,
    after: Store,
    still: Map<u128, Seq<Endpoint>>,
)
    requires
        dedicated(before, pending),
        takes(before, pending, step, after, still),
    ensures
        dedicated(after, still),
{
    let was = holdings(before, pending);
    let held = holdings(after, still);
    match step {
        ServerStep::Answered { config, action, answer } => match action {
            Err(_) => {},
            Ok(ProvisioningAction::NewClient { claims }) => {
                match answer->Some_0.hello {
                    ServerHelloV2::Success { client_id, host, endpoints } => {
                        lemma_given(before, pending, after, client_id.uuid, endpoints@);
                    },
                    _ => {
                        assert forall|c: u128, i: int| #[trigger] holds(
                            held,
                            c,
                            i,
                        ) implies !after.pool().available().contains(held[c][i].remote_port) by {
                            assert(holds(was, c, i));
                        }
                        lemma_fewer(before, pending, after, still);
                    },
                }
            },
            Ok(ProvisioningAction::Reconnect { client_id }) => {
                assert forall|c: u128, i: int| #[trigger] holds(
                    held,
                    c,
                    i,
                ) implies !after.pool().available().contains(held[c][i].remote_port) by {
                    assert(holds(was, c, i));
                }
                lemma_fewer(before, pending, after, still);
            },
        },
        ServerStep::Completed { admission, sent, opened } => {
            assert forall|c: u128, i: int| #[trigger] holds(
                held,
                c,
                i,
            ) implies !after.pool().available().contains(held[c][i].remote_port) by {
                assert(holds(was, c, i));
            }
            lemma_fewer(before, pending, after, still);
        },
        ServerStep::Cleaned => {
            lemma_cleaned(before, pending, after);
        },
        ServerStep::Other => {
            assert forall|c: u128, i: int| #[trigger] holds(
                held,
                c,
                i,
            ) implies !after.pool().available().contains(held[c][i].remote_port) by {
                assert(holds(was, c, i));
            }
            lemma_fewer(before, pending, after, still);
        },
    }
}

/// What comes in over a connection, what is sent to a client, and what happens to streams alone gives
/// no client endpoints and frees no port.
pub proof fn law_traffic_leaves_ports_alone(
    before: Store,
    pending: Map<u128, Seq<Endpoint>>,
    after: Store,
    client_id: ClientId,
    event: ClientEvent<ControlPacketV2>,
    now: Timestamp,
    action: ClientAction,
    delivery: Delivery,
    r: Result<(), ClientStreamError>,
)
    requires
        client_step(client_id, before, event, now, after, action) || after.sent_to_client(
            before,
            client_id,
            delivery,
            r,
        ) || after.same_but_streams(before),
    ensures
        takes(before, pending, ServerStep::Other, after, pending),
{
}

/// A run of a server: it starts with an empty store and nobody pending, and each step leads from one
/// state to the next.
pub open spec fn runs(
    stores: Seq<Store>,
    pending: Seq<Map<u128, Seq<Endpoint>>>,
    steps: Seq<ServerStep>,
) -> bool {
    &&& stores.len() == steps.len() + 1
    &&& pending.len() == stores.len()
    &&& stores[0].is_new()
    &&& pending[0] == Map::<u128, Seq<Endpoint>>::empty()
    &&& forall|n: int|
        0 <= n < steps.len() ==> takes(
            stores[n],
            pending[n],
            #[trigger] steps[n],
            stores[n + 1],
            pending[n + 1],
        )
}

proof fn lemma_run(
    stores: Seq<Store>,
    pending: Seq<Map<u128, Seq<Endpoint>>>,
    steps: Seq<ServerStep>,
    n: int,
)
    requires
        runs(stores, pending, steps),
        0 <= n < stores.len(),
    ensures
        dedicated(stores[n], pending[n]),
    decreases n,
{
    if n > 0 {
        lemma_run(stores, pending, steps, n - 1);
        law_step_keeps_ports_dedicated(
            stores[n - 1],
            pending[n - 1],
            steps[n - 1],
            stores[n],
            pending[n],
        );
    }
}

/// While a client is in the store, the ports of its endpoints are its own: at no point of a run is
/// one of them free, and no other client has an endpoint with it.
pub proof fn law_ports_of_a_client_are_its_own(
    stores: Seq<Store>,
    pending: Seq<Map<u128, Seq<Endpoint>>>,
    steps: Seq<ServerStep>,
    n: int,
    client: u128,
    i: int,
)
    requires
        runs(stores, pending, steps),
        0 <= n < stores.len(),
        stores[n].clients().contains_key(client),
        0 <= i < stores[n].clients()[client].endpoints@.len(),
    ensures
        !stores[n].pool().available().contains(
            stores[n].clients()[client].endpoints@[i].remote_port,
        ),
        forall|other: u128, j: int|
            #![trigger stores[n].clients()[other].endpoints@[j]]
            other != client && stores[n].clients().contains_key(other) && 0 <= j
                < stores[n].clients()[other].endpoints@.len()
                ==> stores[n].clients()[other].endpoints@[j].remote_port
                != stores[n].clients()[client].endpoints@[i].remote_port,
{
    lemma_run(stores, pending, steps, n);
    let held = holdings(stores[n], pending[n]);
    assert(holds(held, client, i));
    let clients = stores[n].clients();
    assert forall|other: u128, j: int|
        #![trigger clients[other].endpoints@[j]]
        other != client && clients.contains_key(other) && 0 <= j < clients[other].endpoints@.len()
        implies clients[other].endpoints@[j].remote_port
        != clients[client].endpoints@[i].remote_port by {
        assert(holds(held, other, j));
    }
}

} // verus!
