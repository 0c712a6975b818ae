use mdp::socket::{Addr, Class, SocketAddr, Socket, State, QOS_DEFAULT, TTL_DEFAULT, TTL_MAX};
use mdp::send::{SendAction, SendEvent, SendOutcome, TrySendResult, PollResult};
use mdp::recv::{RecvAction, RecvEvent, Incoming, Decryption, RecvOutcome};

fn local() -> Addr {
    Addr { key: [7u8; 32] }
}

fn remote() -> SocketAddr {
    SocketAddr { addr: Addr { key: [9u8; 32] }, port: 5001 }
}

#[test]
fn new_socket_has_default_ttl() {
    let socket = Socket::new(0, local(), 5000);
    assert_eq!(socket.ttl(), TTL_DEFAULT);
    assert_eq!(socket.ttl(), 31);
}

#[test]
fn set_ttl_keeps_small_values() {
    let mut socket = Socket::new(0, local(), 5000);
    socket.set_ttl(6);
    assert_eq!(socket.ttl(), 6);
    socket.set_ttl(0);
    assert_eq!(socket.ttl(), 0);
    socket.set_ttl(31);
    assert_eq!(socket.ttl(), 31);
}

#[test]
fn set_ttl_clamps_to_maximum() {
    let mut socket = Socket::new(0, local(), 5000);
    socket.set_ttl(32);
    assert_eq!(socket.ttl(), TTL_MAX);
    socket.set_ttl(255);
    assert_eq!(socket.ttl(), 31);
}

#[test]
fn set_ttl_twice_is_idempotent() {
    let mut socket = Socket::new(0, local(), 5000);
    socket.set_ttl(200);
    let first = socket.ttl();
    socket.set_ttl(first);
    assert_eq!(socket.ttl(), first);
}

#[test]
fn new_socket_has_default_qos() {
    let socket = Socket::new(0, local(), 5000);
    assert_eq!(socket.qos(), QOS_DEFAULT);
    assert_eq!(socket.qos(), Class::Ordinary);
}

#[test]
fn set_qos_is_read_back() {
    let mut socket = Socket::new(0, local(), 5000);
    socket.set_qos(Class::Management);
    assert_eq!(socket.qos(), Class::Management);
    assert_eq!(socket.ttl(), TTL_DEFAULT);
}

#[test]
fn broadcast_defaults_to_false() {
    let socket = Socket::new(0, local(), 5000);
    assert_eq!(socket.broadcast(Some(false)), false);
    assert_eq!(socket.broadcast(None), false);
    assert_eq!(socket.broadcast(Some(true)), true);
}

#[test]
fn set_broadcast_is_read_back() {
    let socket = Socket::new(0, local(), 5000);
    let stored = socket.set_broadcast(Some(false), true);
    assert_eq!(stored, Some(true));
    assert_eq!(socket.broadcast(stored), true);
}

#[test]
fn set_broadcast_on_unknown_socket_stores_nothing() {
    let socket = Socket::new(3, local(), 5000);
    let stored = socket.set_broadcast(None, true);
    assert_eq!(stored, None);
    assert_eq!(socket.broadcast(stored), false);
}

#[test]
fn header_names_socket_and_destination() {
    let mut socket = Socket::new(2, local(), 5000);
    socket.set_ttl(9);
    socket.set_qos(Class::Voice);
    let h = socket.header(remote(), Some(17));
    assert_eq!(h.src, SocketAddr { addr: local(), port: 5000 });
    assert_eq!(h.dst, remote());
    assert_eq!(h.via, Addr::empty());
    assert_eq!(h.via.key, [0u8; 32]);
    assert_eq!(h.ttl, 9);
    assert_eq!(h.qos, Class::Voice);
    assert_eq!(h.seq, 17);
    assert!(!h.broadcast);
}

#[test]
fn header_of_unknown_socket_has_sequence_minus_one() {
    let socket = Socket::new(2, local(), 5000);
    assert_eq!(socket.header(remote(), None).seq, -1);
}

#[test]
fn send_to_encrypt_starts_by_encrypting() {
    let socket = Socket::new(0, local(), 5000);
    let out = socket.send_to_encrypt(remote(), Some(1));
    assert_eq!(out.action, SendAction::Encrypt);
    assert_eq!(out.header.dst, remote());
}

#[test]
fn send_to_sign_starts_by_signing() {
    let socket = Socket::new(0, local(), 5000);
    let out = socket.send_to_sign(remote(), Some(1));
    assert_eq!(out.action, SendAction::Sign);
}

#[test]
fn send_to_plain_goes_straight_to_protocol() {
    let socket = Socket::new(0, local(), 5000);
    let mut out = socket.send_to_plain(remote(), Some(1));
    assert_eq!(out.action, SendAction::TrySend);
    let a = out.machine.step(SendEvent::Tried(TrySendResult::Sent));
    assert_eq!(a, SendAction::Finish(SendOutcome::Ready));
    assert!(out.machine.is_done());
}

#[test]
fn socket_send_reports_backlog_after_second_refusal() {
    let socket = Socket::new(0, local(), 5000);
    let mut out = socket.send_to_sign(remote(), None);
    assert_eq!(out.machine.step(SendEvent::Sealed(true)), SendAction::TrySend);
    assert_eq!(out.machine.step(SendEvent::Tried(TrySendResult::Returned)), SendAction::PollInterfaces);
    assert_eq!(out.machine.step(SendEvent::Polled(PollResult::Pending)), SendAction::TrySend);
    assert_eq!(
        out.machine.step(SendEvent::Tried(TrySendResult::Returned)),
        SendAction::Finish(SendOutcome::NotReady)
    );
}

#[test]
fn socket_send_ready_when_interfaces_complete() {
    let socket = Socket::new(0, local(), 5000);
    let mut out = socket.send_to_plain(remote(), None);
    assert_eq!(out.machine.step(SendEvent::Tried(TrySendResult::Returned)), SendAction::PollInterfaces);
    assert_eq!(out.machine.step(SendEvent::Polled(PollResult::Complete)), SendAction::Finish(SendOutcome::Ready));
}

#[test]
fn socket_send_seal_failure_fails() {
    let socket = Socket::new(0, local(), 5000);
    let mut out = socket.send_to_encrypt(remote(), None);
    assert_eq!(out.machine.step(SendEvent::Sealed(false)), SendAction::Finish(SendOutcome::Failed));
}

#[test]
fn recv_plain_packet_is_delivered() {
    let socket = Socket::new(0, local(), 5000);
    let (mut m, a) = socket.recv_from();
    assert_eq!(a, RecvAction::PollIncoming);
    let a = m.step(RecvEvent::Polled(Incoming::Packet { state: State::Plain, src_port: Some(4000) }));
    assert_eq!(a, RecvAction::Take);
    let a = m.step(RecvEvent::Taken(true));
    assert_eq!(a, RecvAction::Finish(RecvOutcome::Delivered { state: State::Plain, src_port: 4000 }));
}

#[test]
fn recv_signed_packet_is_verified_first() {
    let socket = Socket::new(0, local(), 5000);
    let (mut m, _) = socket.recv_from();
    let a = m.step(RecvEvent::Polled(Incoming::Packet { state: State::Signed, src_port: Some(4000) }));
    assert_eq!(a, RecvAction::Verify);
    assert_eq!(m.step(RecvEvent::Verified(false)), RecvAction::Finish(RecvOutcome::Failed));
}

#[test]
fn recv_encrypted_packet_for_other_port_is_requeued() {
    let socket = Socket::new(0, local(), 5000);
    let (mut m, _) = socket.recv_from();
    assert_eq!(
        m.step(RecvEvent::Polled(Incoming::Packet { state: State::Encrypted, src_port: None })),
        RecvAction::Decrypt
    );
    let d = Decryption { dst_port: Some(5001), src_port: Some(4000) };
    assert_eq!(m.step(RecvEvent::Decrypted(Some(d))), RecvAction::Requeue);
    assert_eq!(m.step(RecvEvent::Requeued(true)), RecvAction::PollIncoming);
    assert_eq!(m.step(RecvEvent::Polled(Incoming::NotReady)), RecvAction::Finish(RecvOutcome::NotReady));
}

#[test]
fn recv_encrypted_packet_for_own_port_is_delivered() {
    let socket = Socket::new(0, local(), 5000);
    let (mut m, _) = socket.recv_from();
    m.step(RecvEvent::Polled(Incoming::Packet { state: State::Encrypted, src_port: None }));
    let d = Decryption { dst_port: Some(5000), src_port: Some(4000) };
    assert_eq!(m.step(RecvEvent::Decrypted(Some(d))), RecvAction::Take);
    assert_eq!(
        m.step(RecvEvent::Taken(true)),
        RecvAction::Finish(RecvOutcome::Delivered { state: State::Encrypted, src_port: 4000 })
    );
}

#[test]
fn recv_encrypted_packet_without_port_is_dropped() {
    let socket = Socket::new(0, local(), 5000);
    let (mut m, _) = socket.recv_from();
    m.step(RecvEvent::Polled(Incoming::Packet { state: State::Encrypted, src_port: None }));
    let d = Decryption { dst_port: None, src_port: Some(4000) };
    assert_eq!(m.step(RecvEvent::Decrypted(Some(d))), RecvAction::PollIncoming);
}

#[test]
fn recv_closed_or_broken_queue() {
    let socket = Socket::new(0, local(), 5000);
    let (mut m, _) = socket.recv_from();
    assert_eq!(m.step(RecvEvent::Polled(Incoming::Closed)), RecvAction::Finish(RecvOutcome::NotReady));
    let (mut m, _) = socket.recv_from();
    assert_eq!(m.step(RecvEvent::Polled(Incoming::Broken)), RecvAction::Finish(RecvOutcome::InvalidSocket));
}

#[test]
fn recv_signed_packet_delivered_after_verification() {
    let socket = Socket::new(0, local(), 5000);
    let (mut m, _) = socket.recv_from();
    m.step(RecvEvent::Polled(Incoming::Packet { state: State::Signed, src_port: Some(4001) }));
    assert_eq!(m.step(RecvEvent::Verified(true)), RecvAction::Take);
    assert_eq!(
        m.step(RecvEvent::Taken(true)),
        RecvAction::Finish(RecvOutcome::Delivered { state: State::Signed, src_port: 4001 })
    );
    assert!(m.is_done());
}

#[test]
fn recv_failures_end_the_receive() {
    let socket = Socket::new(0, local(), 5000);
    let (mut m, _) = socket.recv_from();
    m.step(RecvEvent::Polled(Incoming::Packet { state: State::Encrypted, src_port: None }));
    assert_eq!(m.step(RecvEvent::Decrypted(None)), RecvAction::Finish(RecvOutcome::Failed));

    let (mut m, _) = socket.recv_from();
    m.step(RecvEvent::Polled(Incoming::Packet { state: State::Encrypted, src_port: None }));
    m.step(RecvEvent::Decrypted(Some(Decryption { dst_port: Some(1), src_port: Some(2) })));
    assert_eq!(m.step(RecvEvent::Requeued(false)), RecvAction::Finish(RecvOutcome::Failed));

    let (mut m, _) = socket.recv_from();
    m.step(RecvEvent::Polled(Incoming::Packet { state: State::Plain, src_port: Some(2) }));
    assert_eq!(m.step(RecvEvent::Taken(false)), RecvAction::Finish(RecvOutcome::Failed));
}

#[test]
fn send_failures_end_the_send() {
    let socket = Socket::new(0, local(), 5000);
    let mut out = socket.send_to_plain(remote(), None);
    assert_eq!(out.machine.step(SendEvent::Tried(TrySendResult::Failed)), SendAction::Finish(SendOutcome::Failed));
    let mut out = socket.send_to_plain(remote(), None);
    out.machine.step(SendEvent::Tried(TrySendResult::Returned));
    assert_eq!(out.machine.step(SendEvent::Polled(PollResult::Failed)), SendAction::Finish(SendOutcome::Failed));
    assert!(out.machine.is_done());
}
