//! The control connection: how the server receives a client, gives it its endpoints, and keeps
//! in touch with it.
use super::client::Client;
use super::store::{with_endpoints, Store};
use super::Config;
use crate::clock::Timestamp;
use crate::id::{is_version_4, ClientId};
use crate::port_allocator::{acceptable, local_ports, remote_ports, serves};
use crate::protocol::{
    ClientHelloV2, ClientType, ControlPacketV2, Endpoint, EndpointClaim, EndpointClaims,
    Endpoints, PeerAddr, ServerHelloV2, CLIENT_HELLO_VERSION,
};
use crate::reconnect::{
    decoded_at, issued, ReconnectTokenError, ReconnectTokenPayload, RECONNECT_TOKEN_LEEWAY,
    RECONNECT_TOKEN_VALID_SECONDS,
};
use crate::ws::{message_of, read_message, ReadEvent};
use rand::rngs::StdRng;
use vstd::prelude::*;
use vstd::string::*;

verus! {

/// Why a hello is not taken.
#[derive(Clone, Copy, Debug, PartialEq, Eq, Structural)]
pub enum VerifyClientHandshakeError {
    InvalidClientHello,
    InvalidJWT,
    IllegalHost,
    VersionMismatch,
}

impl VerifyClientHandshakeError {
    /// How the error is printed.
    pub open spec fn text(self) -> Seq<char> {
        match self {
            VerifyClientHandshakeError::InvalidClientHello =>
                "Failed to deserialize client hello."@,
            VerifyClientHandshakeError::InvalidJWT => "Failed to parse client jwt."@,
            VerifyClientHandshakeError::IllegalHost => "Client tried to access different host."@,
            VerifyClientHandshakeError::VersionMismatch =>
                "Client sends unsupported client handshake version."@,
        }
    }

    /// The error in words.
    pub fn to_string(&self) -> (r: String)
        ensures
            r@ == self.text(),
    {
        match self {
            VerifyClientHandshakeError::InvalidClientHello =>
                "Failed to deserialize client hello.".to_owned(),
            VerifyClientHandshakeError::InvalidJWT => "Failed to parse client jwt.".to_owned(),
            VerifyClientHandshakeError::IllegalHost =>
                "Client tried to access different host.".to_owned(),
            VerifyClientHandshakeError::VersionMismatch =>
                "Client sends unsupported client handshake version.".to_owned(),
        }
    }
}

impl From<VerifyClientHandshakeError> for ServerHelloV2 {
    fn from(e: VerifyClientHandshakeError) -> (r: Self) {
        match e {
            VerifyClientHandshakeError::InvalidClientHello => ServerHelloV2::BadRequest,
            VerifyClientHandshakeError::InvalidJWT => ServerHelloV2::BadRequest,
            VerifyClientHandshakeError::IllegalHost => ServerHelloV2::IllegalHost,
            VerifyClientHandshakeError::VersionMismatch => ServerHelloV2::VersionMismatch,
        }
    }
}

/// What a client whose hello is not taken is told.
pub open spec fn refusal(e: VerifyClientHandshakeError) -> ServerHelloV2 {
    match e {
        VerifyClientHandshakeError::InvalidClientHello => ServerHelloV2::BadRequest,
        VerifyClientHandshakeError::InvalidJWT => ServerHelloV2::BadRequest,
        VerifyClientHandshakeError::IllegalHost => ServerHelloV2::IllegalHost,
        VerifyClientHandshakeError::VersionMismatch => ServerHelloV2::VersionMismatch,
    }
}

impl vstd::std_specs::convert::FromSpecImpl<VerifyClientHandshakeError> for ServerHelloV2 {
    open spec fn obeys_from_spec() -> bool {
        true
    }

    open spec fn from_spec(e: VerifyClientHandshakeError) -> Self {
        refusal(e)
    }
}

/// The bytes of a client's hello. Anything but a message of the protocol is none.
pub fn read_client_hello(event: ReadEvent) -> (data: Option<Vec<u8>>)
    ensures
        data == message_of(event),
{
    read_message(event)
}

/// What a hello that is taken asks for.
pub enum ProvisioningAction {
    /// A new client claims endpoints.
    NewClient { claims: EndpointClaims },
    /// A client takes its place again.
    Reconnect { client_id: ClientId },
}

/// What becomes of a hello, where `auth_host` is the host that its token was issued for, and
/// `payload` what it says as a reconnect token; each is `None` when the token is not valid as
/// such.
pub open spec fn provisioned(
    config: Config,
    client_hello: Option<ClientHelloV2>,
    auth_host: Option<Seq<char>>,
    payload: Option<ReconnectTokenPayload>,
) -> Result<ProvisioningAction, VerifyClientHandshakeError> {
    match client_hello {
        None => Err(VerifyClientHandshakeError::InvalidClientHello),
        Some(hello) => if hello.version != CLIENT_HELLO_VERSION {
            Err(VerifyClientHandshakeError::VersionMismatch)
        } else {
            match hello.client_type {
                ClientType::Auth => match auth_host {
                    Some(host) => if host == config.host@ {
                        Ok(ProvisioningAction::NewClient { claims: hello.endpoint_claims })
                    } else {
                        Err(VerifyClientHandshakeError::IllegalHost)
                    },
                    None => Err(VerifyClientHandshakeError::InvalidJWT),
                },
                ClientType::Reconnect => match payload {
                    Some(p) => Ok(ProvisioningAction::Reconnect { client_id: p.client_id }),
                    None => Err(VerifyClientHandshakeError::InvalidJWT),
                },
            }
        },
    }
}

/// Takes a hello or refuses it. `auth_host` is the host that the hello's token was issued for,
/// and `payload` what the token says as a reconnect token.
pub fn provision(
    config: &Config,
    client_hello: Option<ClientHelloV2>,
    auth_host: Option<String>,
    payload: Option<ReconnectTokenPayload>,
) -> (r: Result<ProvisioningAction, VerifyClientHandshakeError>)
    ensures
        r == provisioned(
            *config,
            client_hello,
            crate::reconnect::text_of(auth_host),
            payload,
        ),
{
    let hello = match client_hello {
        Some(hello) => hello,
        None => {
            return Err(VerifyClientHandshakeError::InvalidClientHello);
        },
    };
    if hello.version != CLIENT_HELLO_VERSION {
        return Err(VerifyClientHandshakeError::VersionMismatch);
    }
    match hello.client_type {
        ClientType::Auth => match auth_host {
            Some(host) => {
                if host == config.host {
                    Ok(ProvisioningAction::NewClient { claims: hello.endpoint_claims })
                } else {
                    Err(VerifyClientHandshakeError::IllegalHost)
                }
            },
            None => Err(VerifyClientHandshakeError::InvalidJWT),
        },
        ClientType::Reconnect => match payload {
            Some(p) => Ok(ProvisioningAction::Reconnect { client_id: p.client_id }),
            None => Err(VerifyClientHandshakeError::InvalidJWT),
        },
    }
}

/// What the token of a hello says as a reconnect token when the machine's clock reads `now`. Only
/// the token of a client that reconnects is read as such.
pub open spec fn token_payload(
    config: Config,
    client_hello: Option<ClientHelloV2>,
    now: u64,
) -> Option<ReconnectTokenPayload> {
    match client_hello {
        Some(hello) => if hello.client_type == ClientType::Reconnect {
            match decoded_at(config.token_secret@, hello.token@, RECONNECT_TOKEN_LEEWAY, now) {
                Ok(payload) => Some(payload),
                Err(_) => None,
            }
        } else {
            None
        },
        None => None,
    }
}

/// What becomes of a hello when the machine's clock reads `now`.
pub open spec fn provisioned_at(
    config: Config,
    client_hello: Option<ClientHelloV2>,
    auth_host: Option<Seq<char>>,
    now: u64,
) -> Result<ProvisioningAction, VerifyClientHandshakeError> {
    provisioned(config, client_hello, auth_host, token_payload(config, client_hello, now))
}

/// Takes a hello or refuses it. `client_hello` is `None` when the client's message could not be
/// parsed, `auth_host` when the hello's token is not valid as an access token. A reconnect token
/// is checked here, at the second that the machine's clock reads.
pub fn validate_client_hello(
    config: &Config,
    client_hello: Option<ClientHelloV2>,
    auth_host: Option<String>,
) -> (r: Result<ProvisioningAction, VerifyClientHandshakeError>)
    ensures
        exists|now: u64|
            RECONNECT_TOKEN_LEEWAY <= now && r == #[trigger] provisioned_at(
                *config,
                client_hello,
                crate::reconnect::text_of(auth_host),
                now,
            ),
{
    let ghost mut at: u64 = RECONNECT_TOKEN_LEEWAY;
    let payload = match &client_hello {
        Some(hello) => match hello.client_type {
            ClientType::Reconnect => {
                let decoded = ReconnectTokenPayload::decode_token(
                    config.token_secret.as_str(),
                    hello.token.as_str(),
                );
                proof {
                    at = choose|now: u64|
                        RECONNECT_TOKEN_LEEWAY <= now && decoded == #[trigger] decoded_at(
                            config.token_secret@,
                            hello.token@,
                            RECONNECT_TOKEN_LEEWAY,
                            now,
                        );
                }
                match decoded {
                    Ok(p) => Some(p),
                    Err(_) => None,
                }
            },
            ClientType::Auth => None,
        },
        None => None,
    };
    assert(payload == token_payload(*config, client_hello, at));
    let r = provision(config, client_hello, auth_host, payload);
    assert(r == provisioned_at(
        *config,
        client_hello,
        crate::reconnect::text_of(auth_host),
        at,
    ));
    r
}

/// What a server answers to claims, and what it keeps of the answer.
pub open spec fn claims_answered(
    config: Config,
    claims: Seq<EndpointClaim>,
    before: Store,
    after: Store,
    hello: ServerHelloV2,
) -> bool {
    &&& after.streams() == before.streams()
    &&& after.clients() == before.clients()
    &&& after.peers() == before.peers()
    &&& after.pool().range() == before.pool().range()
    &&& if acceptable(claims) && local_ports(claims).len() <= before.pool().available().len() {
        &&& hello matches ServerHelloV2::Success { client_id, host, endpoints }
        &&& is_version_4(client_id.uuid)
        &&& host@ == config.host@
        &&& serves(endpoints@, claims)
        &&& remote_ports(endpoints@).subset_of(before.pool().available())
        &&& after.pool().available() == before.pool().available().difference(
            remote_ports(endpoints@),
        )
        &&& after.endpoints() == with_endpoints(before.endpoints(), endpoints@)
    } else {
        &&& hello == ServerHelloV2::ServiceTemporaryUnavailable
        &&& after.pool().available() == before.pool().available()
        &&& after.endpoints() == before.endpoints()
    }
}

/// Gives a new client its endpoints, or tells it that the service is not available now.
pub fn process_client_claims(
    config: &Config,
    store: &mut Store,
    rng: &mut StdRng,
    claims: EndpointClaims,
) -> (hello: ServerHelloV2)
    requires
        old(store).wf(),
    ensures
        final(store).wf(),
        claims_answered(*config, claims@, *old(store), *final(store), hello),
{
    match store.allocate_endpoints(rng, claims) {
        Ok(endpoints) => ServerHelloV2::Success {
            client_id: ClientId::new(),
            host: config.host.clone(),
            endpoints,
        },
        Err(_) => ServerHelloV2::ServiceTemporaryUnavailable,
    }
}

/// A client that is registered once its hello has been answered.
pub struct Admission {
    pub client_id: ClientId,
    pub endpoints: Endpoints,
    /// The client is new, so that its endpoints have to be opened.
    pub is_new: bool,
    /// The window for reconnecting that is configured, in seconds, which the client is registered
    /// with. Nothing in the library acts on it.
    pub reconnect_window: i64,
}

/// What a client is answered, and what follows when the answer has been sent.
pub struct Answer {
    pub hello: ServerHelloV2,
    pub admission: Option<Admission>,
}

fn copy_endpoints(endpoints: &Endpoints) -> (r: Endpoints)
    ensures
        r@ == endpoints@,
{
    let mut r: Endpoints = Vec::new();
    let mut i: usize = 0;
    while i < endpoints.len()
        invariant
            i <= endpoints@.len(),
            r@ == endpoints@.take(i as int),
        decreases endpoints@.len() - i,
    {
        r.push(endpoints[i]);
        assert(r@ =~= endpoints@.take(i + 1));
        i = i + 1;
    }
    assert(r@ =~= endpoints@);
    r
}

/// The client that a successful hello names is to be registered with the endpoints that the hello
/// lists and the configured window; with any other hello, nobody is.
pub open spec fn admits(config: Config, answer: Answer, is_new: bool) -> bool {
    match answer.hello {
        ServerHelloV2::Success { client_id, host, endpoints } => answer.admission matches Some(a)
            && a.client_id == client_id && a.endpoints@ == endpoints@ && a.is_new == is_new
            && a.reconnect_window == config.reconnect_window,
        _ => answer.admission is None,
    }
}

/// What a hello is answered, once it was taken or refused. `None` is no answer at all.
pub open spec fn answered(
    config: Config,
    action: Result<ProvisioningAction, VerifyClientHandshakeError>,
    before: Store,
    after: Store,
    answer: Option<Answer>,
) -> bool {
    match action {
        Err(e) => {
            &&& after == before
            &&& answer == Some(Answer { hello: refusal(e), admission: None })
        },
        Ok(ProvisioningAction::NewClient { claims }) => {
            &&& answer matches Some(a)
            &&& claims_answered(config, claims@, before, after, a.hello)
            &&& admits(config, a, true)
        },
        Ok(ProvisioningAction::Reconnect { client_id }) => {
            &&& after.same_but_clients(before)
            &&& after.clients() == before.clients().remove(client_id.uuid)
            &&& if before.clients().contains_key(client_id.uuid) {
                &&& answer matches Some(a)
                &&& a.hello matches ServerHelloV2::Success { client_id: id, host, endpoints }
                &&& id == client_id
                &&& host@ == config.host@
                &&& endpoints@ == before.clients()[client_id.uuid].endpoints@
                &&& admits(config, a, false)
            } else {
                answer is None
            }
        },
    }
}

/// Answers a hello that was taken or refused. A new client is given endpoints; a client that
/// reconnects leaves the store and is to be registered again with the endpoints that it had; one
/// that is not known is not answered.
pub fn answer_hello(
    config: &Config,
    store: &mut Store,
    rng: &mut StdRng,
    action: Result<ProvisioningAction, VerifyClientHandshakeError>,
) -> (answer: Option<Answer>)
    requires
        old(store).wf(),
    ensures
        final(store).wf(),
        answered(*config, action, *old(store), *final(store), answer),
{
    match action {
        Err(e) => Some(Answer { hello: ServerHelloV2::from(e), admission: None }),
        Ok(ProvisioningAction::NewClient { claims }) => {
            let hello = process_client_claims(config, store, rng, claims);
            let admission = match &hello {
                ServerHelloV2::Success { client_id, host: _, endpoints } => Some(
                    Admission {
                        client_id: *client_id,
                        endpoints: copy_endpoints(endpoints),
                        is_new: true,
                        reconnect_window: config.reconnect_window,
                    },
                ),
                _ => None,
            };
            Some(Answer { hello, admission })
        },
        Ok(ProvisioningAction::Reconnect { client_id }) => {
            match store.remove_client(client_id) {
                Some(old_client) => {
                    let endpoints = copy_endpoints(&old_client.endpoints);
                    let hello = ServerHelloV2::Success {
                        client_id,
                        host: config.host.clone(),
                        endpoints: copy_endpoints(&endpoints),
                    };
                    Some(
                        Answer {
                            hello,
                            admission: Some(
                                Admission {
                                    client_id,
                                    endpoints,
                                    is_new: false,
                                    reconnect_window: config.reconnect_window,
                                },
                            ),
                        },
                    )
                },
                None => None,
            }
        },
    }
}

/// Receives a client: checks its hello and answers it.
pub fn handle_new_connection(
    config: &Config,
    store: &mut Store,
    rng: &mut StdRng,
    client_hello: Option<ClientHelloV2>,
    auth_host: Option<String>,
) -> (answer: Option<Answer>)
    requires
        old(store).wf(),
    ensures
        final(store).wf(),
        exists|now: u64|
            RECONNECT_TOKEN_LEEWAY <= now && answered(
                *config,
                #[trigger] provisioned_at(
                    *config,
                    client_hello,
                    crate::reconnect::text_of(auth_host),
                    now,
                ),
                *old(store),
                *final(store),
                answer,
            ),
{
    let action = validate_client_hello(config, client_hello, auth_host);
    answer_hello(config, store, rng, action)
}

/// A client that was answered is registered once the answer has been sent, and the endpoints of a
/// new one are to be opened. If the answer could not be sent, or there is nobody to register,
/// nothing is done.
pub open spec fn completed(
    before: Store,
    after: Store,
    admission: Option<Admission>,
    sent: bool,
    opened: Seq<Endpoint>,
) -> bool {
    match admission {
        Some(a) => if sent {
            &&& after.same_but_clients(before)
            &&& after.clients().dom() == before.clients().dom().insert(a.client_id.uuid)
            &&& forall|k: u128|
                k != a.client_id.uuid && before.clients().contains_key(k)
                    ==> #[trigger] after.clients()[k] == before.clients()[k]
            &&& after.clients()[a.client_id.uuid].client_id == a.client_id
            &&& after.clients()[a.client_id.uuid].endpoints@ == a.endpoints@
            &&& after.clients()[a.client_id.uuid].reconnect_window == a.reconnect_window
            &&& !after.clients()[a.client_id.uuid].disabled
            &&& opened == (if a.is_new {
                a.endpoints@
            } else {
                Seq::empty()
            })
        } else {
            after == before && opened == Seq::<Endpoint>::empty()
        },
        None => after == before && opened == Seq::<Endpoint>::empty(),
    }
}

/// Registers the client that was answered, once the answer has been sent, and lists the
/// endpoints that have to be opened for it. If the answer could not be sent, nothing is done.
pub fn complete_connection(store: &mut Store, admission: Option<Admission>, sent: bool) -> (opened:
    Endpoints)
    requires
        old(store).wf(),
    ensures
        final(store).wf(),
        completed(*old(store), *final(store), admission, sent, opened@),
{
    match admission {
        Some(a) => {
            if !sent {
                return Vec::new();
            }
            let opened = if a.is_new {
                copy_endpoints(&a.endpoints)
            } else {
                Vec::new()
            };
            let client = Client::new(a.client_id, a.endpoints, a.reconnect_window);
            let ghost before = store.clients();
            store.add_client(client);
            assert(store.clients().dom() =~= before.dom().insert(a.client_id.uuid));
            opened
        },
        None => Vec::new(),
    }
}

/// The sign of life for a client, stamped `now`, with a fresh reconnect token.
pub fn ping_packet(config: &Config, client_id: ClientId, now: Timestamp) -> (r: Result<
    ControlPacketV2,
    ReconnectTokenError,
>)
    ensures
        r matches Ok(packet) && is_ping_for(*config, client_id, now, packet),
{
    match ReconnectTokenPayload::new(client_id).into_token(config.token_secret.as_str()) {
        Ok(token) => Ok(ControlPacketV2::Ping(0, now, Some(token))),
        Err(e) => Err(e),
    }
}

/// The packet is the sign of life for a client, stamped `now`, and its token is issued to that
/// client.
pub open spec fn is_ping_for(
    config: Config,
    client_id: ClientId,
    now: Timestamp,
    packet: ControlPacketV2,
) -> bool {
    packet matches ControlPacketV2::Ping(seq, t, Some(token)) && seq == 0 && t == now && issued(
        config.token_secret@,
        client_id,
        RECONNECT_TOKEN_VALID_SECONDS,
        token@,
    )
}

/// Each client gets a sign of life of its own, stamped `now`.
pub open spec fn pings_all(
    config: Config,
    store: Store,
    now: Timestamp,
    pings: Seq<(ClientId, ControlPacketV2)>,
) -> bool {
    &&& forall|i: int, j: int|
        0 <= i < j < pings.len() ==> (#[trigger] pings[i]).0 != (#[trigger] pings[j]).0
    &&& forall|i: int|
        0 <= i < pings.len() ==> store.clients().contains_key((#[trigger] pings[i]).0.uuid)
            && is_ping_for(config, pings[i].0, now, pings[i].1)
    &&& forall|id: ClientId| #[trigger]
        store.clients().contains_key(id.uuid) ==> exists|i: int|
            0 <= i < pings.len() && (#[trigger] pings[i]).0 == id
}

/// The signs of life for all clients, stamped `now`: each client gets its own.
pub fn periodic_pings(config: &Config, store: &Store, now: Timestamp) -> (pings: Vec<
    (ClientId, ControlPacketV2),
>)
    ensures
        pings_all(*config, *store, now, pings@),
{
    let ids = store.get_client_ids();
    let mut pings: Vec<(ClientId, ControlPacketV2)> = Vec::new();
    let mut i: usize = 0;
    while i < ids.len()
        invariant
            i <= ids@.len(),
            pings@.len() == i,
            forall|k: int| 0 <= k < i ==> (#[trigger] pings@[k]).0 == ids@[k],
            forall|k: int|
                0 <= k < i ==> is_ping_for(*config, ids@[k], now, (#[trigger] pings@[k]).1),
        decreases ids@.len() - i,
    {
        if let Ok(packet) = ping_packet(config, ids[i], now) {
            pings.push((ids[i], packet));
        }
        i = i + 1;
    }
    proof {
        assert forall|k: int| 0 <= k < pings@.len() implies store.clients().contains_key(
            (#[trigger] pings@[k]).0.uuid,
        ) by {
            assert(ids@.contains(ids@[k]));
        }
        assert forall|id: ClientId| #[trigger] store.clients().contains_key(id.uuid) implies exists|
            k: int,
        | 0 <= k < pings@.len() && (#[trigger] pings@[k]).0 == id by {
            assert(ids@.contains(id));
            let k = choose|k: int| 0 <= k < ids@.len() && ids@[k] == id;
            assert(pings@[k].0 == id);
        }
    }
    pings
}

/// What the address that a client connects from counts as.
pub open spec fn addr_of(remote: Option<PeerAddr>) -> PeerAddr {
    match remote {
        Some(a) => a,
        None => PeerAddr { v6: false, ip: 0, port: 0, flowinfo: 0, scope_id: 0 },
    }
}

/// The address that a client connects from; an unknown one counts as 0.0.0.0:0.
pub fn client_addr(remote: Option<PeerAddr>) -> (addr: PeerAddr)
    ensures
        addr == addr_of(remote),
{
    match remote {
        Some(a) => a,
        None => PeerAddr::v4(0, 0),
    }
}

/// A known address is kept as it is, and an unknown one is no address of a machine.
pub proof fn law_known_address_is_kept(remote: Option<PeerAddr>)
    ensures
        remote matches Some(a) ==> addr_of(remote) == a,
        remote is None ==> addr_of(remote).ip == 0 && addr_of(remote).port == 0 && !addr_of(
            remote,
        ).v6,
{
}

} // verus!
