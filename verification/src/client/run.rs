//! The life of a client: it connects, serves, and connects again when the connection is lost.
use super::backoff::{backoff_secs, calculate_reconnect_backoff, duration_of_secs};
use super::handshake::{
    hello_for, parsed_url, send_client_hello, tunnel_address, tunnel_url, verified,
    verify_server_hello, ClientInfo, RequestType, ServerReply,
};
use super::store::Store;
use super::Error;
use crate::protocol::{ClientHelloV2, ControlPacketV2};
use crate::clock::Timestamp;
use crate::server::store::with_endpoints;
use std::time::Duration;
use vstd::prelude::*;
use vstd::string::*;

verus! {

/// Where a client stands.
pub struct ClientRun {
    pub token: String,
    pub host: String,
    pub control_port: u16,
    pub request_type: RequestType,
    /// How often in a row the client has failed to connect.
    pub attempts: u32,
}

/// What happens to a client.
pub enum RunEvent {
    /// The wait is over.
    Slept,
    /// The connection is open.
    Connected,
    /// The connection could not be opened.
    ConnectFailed,
    /// The hello was sent.
    HelloSent,
    /// The hello could not be sent.
    HelloFailed(String),
    /// The server's reply came in, or failed to.
    Replied(ServerReply),
    /// One of the tasks that serve the connection has ended.
    TaskExited,
    /// The client was cancelled, or interrupted from the terminal.
    Cancelled,
}

/// What a client does next.
pub enum RunAction {
    /// Waits.
    Sleep(Duration),
    /// Opens a connection to the address.
    Connect(String),
    /// Sends its hello.
    SendHello(ClientHelloV2),
    /// Waits for the server's reply.
    AwaitReply,
    /// Serves the connection, and tells the user about the client.
    Serve(ClientInfo),
    /// Stops, because of the error if there is one.
    Stop(Option<Error>),
}

/// A step of a client, and the error that it notes on the way.
pub struct RunStep {
    pub action: RunAction,
    pub noted: Option<Error>,
}

/// The client failed to connect: it waits longer than before.
pub open spec fn retries(before: ClientRun, after: ClientRun, step: RunStep, e: Error) -> bool {
    &&& after == (ClientRun { attempts: (before.attempts + 1) as u32, ..before })
    &&& step == (RunStep {
        action: RunAction::Sleep(
            duration_of_secs(backoff_secs((before.attempts + 1) as u32) as u64),
        ),
        noted: Some(e),
    })
}

/// One step of a client.
pub open spec fn run_step(
    before: ClientRun,
    store: Store,
    event: RunEvent,
    after: ClientRun,
    store_after: Store,
    step: RunStep,
) -> bool {
    match event {
        RunEvent::Slept => {
            &&& after == before
            &&& store_after == store
            &&& step.noted is None
            &&& match parsed_url(tunnel_address(before.host@, before.control_port)) {
                Ok(u) => step.action matches RunAction::Connect(url) && url@ == u,
                Err(text) => step.action matches RunAction::Stop(Some(Error::InvalidUrl(e))) && e@
                    == text,
            }
        },
        RunEvent::Connected => {
            &&& after == before
            &&& store_after == store
            &&& step.noted is None
            &&& step.action matches RunAction::SendHello(hello)
            &&& hello_for(before.token@, before.request_type, hello)
        },
        RunEvent::ConnectFailed => store_after == store && retries(
            before,
            after,
            step,
            Error::ServerDown,
        ),
        RunEvent::HelloSent => after == before && store_after == store && step == (RunStep {
            action: RunAction::AwaitReply,
            noted: None,
        }),
        RunEvent::HelloFailed(e) => store_after == store && retries(
            before,
            after,
            step,
            Error::WebSocketError(e),
        ),
        RunEvent::Replied(reply) => match verified(reply) {
            Ok(info) => {
                &&& after == (ClientRun { attempts: 0, ..before })
                &&& step == (RunStep { action: RunAction::Serve(info), noted: None })
                &&& store_after.endpoints() == with_endpoints(
                    store.endpoints(),
                    info.endpoints@,
                )
                &&& store_after.connected() == Some(info.client_id)
                &&& store_after.streams() == store.streams()
                &&& store_after.rtt() == store.rtt()
                &&& store_after.token() == store.token()
            },
            Err(e) => store_after == store && retries(before, after, step, e),
        },
        RunEvent::TaskExited => {
            &&& store_after == store
            &&& match store.token() {
                Some(token) => {
                    &&& after.token@ == token@
                    &&& after.host == before.host
                    &&& after.control_port == before.control_port
                    &&& after.request_type is Reconnect
                    &&& after.attempts == before.attempts
                    &&& step == (RunStep {
                        action: RunAction::Sleep(
                            duration_of_secs(backoff_secs(before.attempts) as u64),
                        ),
                        noted: None,
                    })
                },
                None => after == before && step == (RunStep {
                    action: RunAction::Stop(None),
                    noted: Some(Error::ReconnectTokenError),
                }),
            }
        },
        RunEvent::Cancelled => after == before && store_after == store && step == (RunStep {
            action: RunAction::Stop(None),
            noted: None,
        }),
    }
}

/// Notes what the server gave the client, and that there is a connection.
pub fn note_admission(store: &mut Store, info: &ClientInfo)
    requires
        old(store).wf(),
    ensures
        final(store).wf(),
        final(store).endpoints() == with_endpoints(old(store).endpoints(), info.endpoints@),
        final(store).connected() == Some(info.client_id),
        final(store).streams() == old(store).streams(),
        final(store).rtt() == old(store).rtt(),
        final(store).token() == old(store).token(),
{
    store.register_endpoints(&info.endpoints);
    store.add_client(info.client_id);
}

/// What a reply to the hello of a client that connects once comes to.
pub open spec fn connects_once(
    before: Store,
    reply: ServerReply,
    after: Store,
    r: Result<ClientInfo, Error>,
) -> bool {
    &&& r == verified(reply)
    &&& match r {
        Ok(info) => {
            &&& after.endpoints() == with_endpoints(before.endpoints(), info.endpoints@)
            &&& after.connected() == Some(info.client_id)
            &&& after.streams() == before.streams()
            &&& after.rtt() == before.rtt()
            &&& after.token() == before.token()
        },
        Err(_) => after == before,
    }
}

/// Connects once, with the server's reply to the client's hello: a client that is received is
/// noted, and a reply that is no success is the error.
pub fn run_with_token(store: &mut Store, reply: ServerReply) -> (r: Result<ClientInfo, Error>)
    requires
        old(store).wf(),
    ensures
        final(store).wf(),
        connects_once(*old(store), reply, *final(store), r),
{
    match verify_server_hello(reply) {
        Ok(info) => {
            note_admission(store, &info);
            Ok(info)
        },
        Err(e) => Err(e),
    }
}

impl ClientRun {
    /// A client that was given a token for a host, and how long it waits before it connects.
    pub fn start(
        token: String,
        host: String,
        control_port: u16,
        request_type: RequestType,
    ) -> (r: (Self, Duration))
        ensures
            r.0 == (ClientRun { token, host, control_port, request_type, attempts: 0 }),
            r.1 == duration_of_secs(0),
    {
        let run = ClientRun { token, host, control_port, request_type, attempts: 0 };
        (run, calculate_reconnect_backoff(0))
    }

    fn retry(&mut self, e: Error) -> (step: RunStep)
        requires
            old(self).attempts < u32::MAX,
        ensures
            retries(*old(self), *final(self), step, e),
    {
        self.attempts = self.attempts + 1;
        RunStep {
            action: RunAction::Sleep(calculate_reconnect_backoff(self.attempts)),
            noted: Some(e),
        }
    }

    /// What a client does after an event.
    pub fn new_run_client(&mut self, store: &mut Store, event: RunEvent) -> (step: RunStep)
        requires
            old(self).attempts < u32::MAX,
            old(store).wf(),
        ensures
            final(store).wf(),
            run_step(*old(self), *old(store), event, *final(self), *final(store), step),
    {
        match event {
            RunEvent::Slept => {
                let action = match tunnel_url(self.host.as_str(), self.control_port) {
                    Ok(url) => RunAction::Connect(url),
                    Err(e) => RunAction::Stop(Some(e)),
                };
                RunStep { action, noted: None }
            },
            RunEvent::Connected => {
                let hello = send_client_hello(&self.token, &self.request_type);
                RunStep { action: RunAction::SendHello(hello), noted: None }
            },
            RunEvent::ConnectFailed => self.retry(Error::ServerDown),
            RunEvent::HelloSent => RunStep { action: RunAction::AwaitReply, noted: None },
            RunEvent::HelloFailed(e) => self.retry(Error::WebSocketError(e)),
            RunEvent::Replied(reply) => match verify_server_hello(reply) {
                Ok(info) => {
                    note_admission(store, &info);
                    self.attempts = 0;
                    RunStep { action: RunAction::Serve(info), noted: None }
                },
                Err(e) => self.retry(e),
            },
            RunEvent::TaskExited => match store.get_reconnect_token() {
                Some(token) => {
                    self.token = token;
                    self.request_type = RequestType::Reconnect;
                    RunStep {
                        action: RunAction::Sleep(calculate_reconnect_backoff(self.attempts)),
                        noted: None,
                    }
                },
                None => RunStep {
                    action: RunAction::Stop(None),
                    noted: Some(Error::ReconnectTokenError),
                },
            },
            RunEvent::Cancelled => RunStep { action: RunAction::Stop(None), noted: None },
        }
    }
}

/// The sign of life that a client sends, stamped `now`.
pub fn ping_packet(now: Timestamp) -> (packet: ControlPacketV2)
    ensures
        packet == ControlPacketV2::Ping(0, now, None),
{
    ControlPacketV2::Ping(0, now, None)
}

} // verus!
