//! A tunnel from the Internet to a local server: a client behind a firewall connects to a server,
//! claims endpoints, and has the traffic of remote peers carried to its local ports.
pub mod client;
pub mod clock;
pub mod id;
pub mod laws;
pub mod pool_laws;
pub mod port_allocator;
pub mod protocol;
pub mod prototype;
pub mod reconnect;
pub mod registry;
pub mod server;
pub mod testing;
pub mod text;
pub mod tunnel;
pub mod ws;
