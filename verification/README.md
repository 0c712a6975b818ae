# mdp

Sockets and framing codecs for MDP, a datagram protocol over a virtual
overlay network, written in Verus.

- `src/socket.rs`: the socket's settings (time-to-live, Quality-of-Service
  class, broadcast flag) and the header of the packets it sends.
- `src/send.rs`, `src/recv.rs`: the decisions of sending and receiving a
  message, as state machines that ask for one piece of outside work at a time
  (sealing, handing a packet to the protocol, polling, decrypting, ...).
- `src/codec.rs`: the `Encoder` and `Decoder` traits and `BytesCodec`.
- `src/framed.rs`: a socket paired with a codec.
- `src/buffer.rs`: the `BytesMut` buffer of the `bytes` crate, seen as a
  sequence of bytes.

`app/` drives these decisions with futures 0.1: it locks the protocol, runs
the packet operations, and implements `Stream` and `Sink`. The protocol, its
packets and their keys are reached through the traits of `app/env.rs`.
