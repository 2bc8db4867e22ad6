//! The decisions of `ihnet`, a tool that carries local TCP and UDP sockets over a
//! peer-to-peer network: who may talk to whom, what goes over the wire and in which
//! order, and where an HTTP request is sent. Sockets, streams and files stay with the
//! caller, who performs the actions that this library asks for and reports back.
pub mod address;
pub mod bytes;
pub mod cli;
pub mod headers;
pub mod identity;
pub mod labels;
pub mod node;
pub mod proxy;
pub mod session;
pub mod tcp;
pub mod tunnel_laws;
pub mod udp;
pub mod wire;
