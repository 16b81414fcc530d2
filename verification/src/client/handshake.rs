//! The first words between a client and the server, and with the token server before.
use super::Error;
use crate::id::ClientId;
use crate::protocol::{
    ClientHelloV2, ClientType, EndpointClaim, EndpointClaims, Endpoints, ServerHelloV2,
    CLIENT_HELLO_VERSION,
};
use crate::text::host_port;
use url::Url;
use vstd::prelude::*;
use vstd::string::*;

verus! {

/// What a client wants of the server.
#[derive(Clone, Debug)]
pub enum RequestType {
    /// To be received as a new client.
    NewClient { endpoint_claims: EndpointClaims },
    /// To take its place again.
    Reconnect,
}

/// The hello of a client.
pub open spec fn hello_for(token: Seq<char>, request_type: RequestType, hello: ClientHelloV2) -> bool {
    &&& hello.version == CLIENT_HELLO_VERSION
    &&& hello.token@ == token
    &&& match request_type {
        RequestType::NewClient { endpoint_claims } => hello.endpoint_claims@ == endpoint_claims@
            && hello.client_type == ClientType::Auth,
        RequestType::Reconnect => hello.endpoint_claims@.len() == 0 && hello.client_type
            == ClientType::Reconnect,
    }
}

fn copy_claims(claims: &EndpointClaims) -> (r: EndpointClaims)
    ensures
        r@ == claims@,
{
    let mut r: Vec<EndpointClaim> = Vec::new();
    let mut i: usize = 0;
    while i < claims.len()
        invariant
            i <= claims@.len(),
            r@ == claims@.take(i as int),
        decreases claims@.len() - i,
    {
        r.push(claims[i]);
        assert(r@ =~= claims@.take(i + 1));
        i = i + 1;
    }
    assert(r@ =~= claims@);
    r
}

/// The hello that a client sends, with its token.
pub fn send_client_hello(token: &String, request_type: &RequestType) -> (hello: ClientHelloV2)
    ensures
        hello_for(token@, *request_type, hello),
{
    match request_type {
        RequestType::NewClient { endpoint_claims } => ClientHelloV2 {
            version: CLIENT_HELLO_VERSION,
            token: token.clone(),
            endpoint_claims: copy_claims(endpoint_claims),
            client_type: ClientType::Auth,
        },
        RequestType::Reconnect => ClientHelloV2 {
            version: CLIENT_HELLO_VERSION,
            token: token.clone(),
            endpoint_claims: Vec::new(),
            client_type: ClientType::Reconnect,
        },
    }
}

/// Whom the server takes the client for, and what it gave it.
#[derive(Clone, Debug)]
pub struct ClientInfo {
    pub client_id: ClientId,
    pub host: String,
    pub endpoints: Endpoints,
}

/// What a client got for its hello.
pub enum ServerReply {
    /// The connection ended.
    Nothing,
    /// The connection failed.
    Failed(String),
    /// A message that is no hello.
    Unreadable,
    /// The server's hello.
    Hello(ServerHelloV2),
}

/// What the reply to a hello comes to.
pub open spec fn verified(reply: ServerReply) -> Result<ClientInfo, Error> {
    match reply {
        ServerReply::Nothing => Err(Error::NoResponseFromServer),
        ServerReply::Failed(e) => Err(Error::WebSocketError(e)),
        ServerReply::Unreadable => Err(Error::ServerReplyInvalid),
        ServerReply::Hello(ServerHelloV2::Success { client_id, host, endpoints }) => Ok(
            ClientInfo { client_id, host, endpoints },
        ),
        ServerReply::Hello(ServerHelloV2::BadRequest) => Err(Error::BadRequest),
        ServerReply::Hello(ServerHelloV2::ServiceTemporaryUnavailable) => Err(
            Error::ServiceTemporaryUnavailable,
        ),
        ServerReply::Hello(ServerHelloV2::IllegalHost) => Err(Error::IllegalHost),
        ServerReply::Hello(ServerHelloV2::VersionMismatch) => Err(
            Error::ClientHandshakeVersionMismatch,
        ),
        ServerReply::Hello(ServerHelloV2::InternalServerError) => Err(
            Error::InternalServerError,
        ),
    }
}

/// Reads the server's reply to a hello.
pub fn verify_server_hello(reply: ServerReply) -> (r: Result<ClientInfo, Error>)
    ensures
        r == verified(reply),
{
    let server_hello = match reply {
        ServerReply::Nothing => {
            return Err(Error::NoResponseFromServer);
        },
        ServerReply::Failed(e) => {
            return Err(Error::WebSocketError(e));
        },
        ServerReply::Unreadable => {
            return Err(Error::ServerReplyInvalid);
        },
        ServerReply::Hello(hello) => hello,
    };
    match server_hello {
        ServerHelloV2::Success { client_id, host, endpoints } => Ok(
            ClientInfo { client_id, host, endpoints },
        ),
        ServerHelloV2::BadRequest => Err(Error::BadRequest),
        ServerHelloV2::ServiceTemporaryUnavailable => Err(Error::ServiceTemporaryUnavailable),
        ServerHelloV2::IllegalHost => Err(Error::IllegalHost),
        ServerHelloV2::VersionMismatch => Err(Error::ClientHandshakeVersionMismatch),
        ServerHelloV2::InternalServerError => Err(Error::InternalServerError),
    }
}

/// What the token server answers.
#[derive(Clone, Debug)]
pub enum TokenResponse {
    Granted { token: String, host: String },
    Refused { message: String },
}

/// What the token server's answer comes to.
pub open spec fn fetched(response: TokenResponse) -> Result<(String, String), String> {
    match response {
        TokenResponse::Granted { token, host } => Ok((token, host)),
        TokenResponse::Refused { message } => Err(message),
    }
}

/// The token and the host that the token server gave, or its reason for giving none.
pub fn fetch_token(response: TokenResponse) -> (r: Result<(String, String), String>)
    ensures
        r == fetched(response),
{
    match response {
        TokenResponse::Granted { token, host } => Ok((token, host)),
        TokenResponse::Refused { message } => Err(message),
    }
}

/// The address that `url::Url::parse` reads from a text, or why it reads none, each as it is
/// printed.
pub uninterp spec fn parsed_url(text: Seq<char>) -> Result<Seq<char>, Seq<char>>;

/// Calls `url::Url::parse`, and prints the address that it reads or the error that it gives.
#[verifier::external_body]
pub(crate) fn parse_url(text: &str) -> (r: Result<String, String>)
    ensures
        parsed_url(text@) == (match r {
            Ok(u) => Ok::<Seq<char>, Seq<char>>(u@),
            Err(e) => Err(e@),
        }),
{
    Url::parse(text).map(|u| u.to_string()).map_err(|e| e.to_string())
}

/// The text of the address at which a host listens for clients.
pub open spec fn tunnel_address(host: Seq<char>, control_port: u16) -> Seq<char> {
    "ws://"@ + host_port(host, control_port) + "/tunnel"@
}

/// The address at which a host listens for clients, or why there is none.
pub fn tunnel_url(host: &str, control_port: u16) -> (r: Result<String, Error>)
    ensures
        match parsed_url(tunnel_address(host@, control_port)) {
            Ok(u) => r matches Ok(url) && url@ == u,
            Err(text) => r matches Err(Error::InvalidUrl(e)) && e@ == text,
        },
{
    let mut text = "ws://".to_owned();
    text.append(crate::text::host_port_text(host, control_port).as_str());
    text.append("/tunnel");
    match parse_url(text.as_str()) {
        Ok(url) => Ok(url),
        Err(e) => Err(Error::InvalidUrl(e)),
    }
}

} // verus!
