//! Sockets, framing codecs and the decisions behind sending and receiving
//! messages on an MDP overlay network.
pub mod buffer;
pub mod codec;
pub mod socket;
pub mod send;
pub mod recv;
pub mod framed;
