use ibc::channel::{ChanState, ChannelEnd, ChannelError, Order, PacketError};
use ibc::client::ClientStore;
use ibc::height::Height;
use ibc::identifier::ClientType;

fn h(era: u64, index: u64) -> Height {
    Height::new(era, index).unwrap()
}

fn open_channel(ordering: Order) -> ChannelEnd {
    let mut c = ChannelEnd::chan_open_init(ordering, 1, true, true, 1).unwrap();
    c.chan_open_ack(true).unwrap();
    assert_eq!(c.state(), ChanState::Open);
    c
}

#[test]
fn channel_handshake() {
    assert_eq!(
        ChannelEnd::chan_open_init(Order::Ordered, 2, true, true, 1).err(),
        Some(ChannelError::MultiHopUnsupported)
    );
    assert_eq!(
        ChannelEnd::chan_open_init(Order::Ordered, 1, false, true, 1).err(),
        Some(ChannelError::ConnectionNotOpen)
    );
    assert_eq!(
        ChannelEnd::chan_open_try(Order::Ordered, Order::Unordered, 1, true, true, &vec![1], &vec![1], true)
            .err(),
        Some(ChannelError::OrderingMismatch)
    );
    assert_eq!(
        ChannelEnd::chan_open_try(Order::Ordered, Order::Ordered, 1, true, true, &vec![1], &vec![2], true)
            .err(),
        Some(ChannelError::VersionMismatch)
    );
    let mut t = ChannelEnd::chan_open_try(Order::Ordered, Order::Ordered, 1, true, true, &vec![3, 2], &vec![2, 3], true)
        .unwrap();
    assert_eq!(t.version(), 3);
    assert_eq!(t.chan_open_ack(true), Err(ChannelError::HandshakeState));
    assert_eq!(t.chan_open_confirm(false), Err(ChannelError::ProofVerification));
    t.chan_open_confirm(true).unwrap();
    assert_eq!(t.state(), ChanState::Open);
    t.chan_close_confirm(true).unwrap();
    assert_eq!(t.state(), ChanState::Closed);
    assert_eq!(t.chan_close_confirm(true), Err(ChannelError::HandshakeState));
}

#[test]
fn ordered_recv_out_of_order_is_refused() {
    let mut sender = open_channel(Order::Ordered);
    let mut receiver = open_channel(Order::Ordered);
    let first = sender.send_packet(0, 100, 0, vec![1], &h(0, 10), 0).unwrap();
    let second = sender.send_packet(0, 100, 0, vec![2], &h(0, 10), 0).unwrap();
    assert_eq!((first.sequence, second.sequence), (1, 2));
    assert_eq!(
        receiver.recv_packet(&second, vec![9], true, &h(0, 20), 0),
        Err(PacketError::SequenceMismatch)
    );
    assert_eq!(receiver.next_sequence_recv(), 1);
    assert!(receiver.acknowledgement(2).is_none());
    receiver.recv_packet(&first, vec![9], true, &h(0, 20), 0).unwrap();
    assert_eq!(receiver.next_sequence_recv(), 2);
    assert_eq!(receiver.acknowledgement(1), Some(vec![9]));
}

#[test]
fn unordered_recv_replay_is_refused() {
    let mut sender = open_channel(Order::Unordered);
    let mut receiver = open_channel(Order::Unordered);
    let _first = sender.send_packet(0, 100, 0, vec![1], &h(0, 10), 0).unwrap();
    let second = sender.send_packet(0, 100, 0, vec![2], &h(0, 10), 0).unwrap();
    receiver.recv_packet(&second, vec![7], true, &h(0, 20), 0).unwrap();
    assert!(receiver.has_receipt(2));
    assert_eq!(
        receiver.recv_packet(&second, vec![8], true, &h(0, 20), 0),
        Err(PacketError::ReceiptExists)
    );
    assert_eq!(receiver.acknowledgement(2), Some(vec![7]));
}

#[test]
fn send_recv_ack_clears_commitment_once() {
    let mut sender = open_channel(Order::Ordered);
    let mut receiver = open_channel(Order::Ordered);
    let p = sender.send_packet(0, 100, 0, vec![5], &h(0, 10), 0).unwrap();
    assert!(sender.has_commitment(p.sequence));
    receiver.recv_packet(&p, vec![1], true, &h(0, 20), 0).unwrap();
    assert_eq!(sender.acknowledge_packet(p.sequence, false), Err(PacketError::ProofVerification));
    sender.acknowledge_packet(p.sequence, true).unwrap();
    assert!(!sender.has_commitment(p.sequence));
    assert_eq!(sender.next_sequence_ack(), 2);
    assert_eq!(sender.acknowledge_packet(p.sequence, true), Err(PacketError::CommitmentAbsent));
    assert_eq!(sender.next_sequence_ack(), 2);
}

#[test]
fn send_refuses_elapsed_timeout_and_closed_channel() {
    let mut sender = open_channel(Order::Unordered);
    assert_eq!(
        sender.send_packet(0, 10, 0, vec![], &h(0, 10), 0).unwrap_err(),
        PacketError::TimeoutElapsed
    );
    assert_eq!(
        sender.send_packet(0, 0, 50, vec![], &h(0, 10), 50).unwrap_err(),
        PacketError::TimeoutElapsed
    );
    assert_eq!(sender.next_sequence_send(), 1);
    let mut init = ChannelEnd::chan_open_init(Order::Ordered, 1, true, true, 1).unwrap();
    assert_eq!(
        init.send_packet(0, 10, 0, vec![], &h(0, 1), 0).unwrap_err(),
        PacketError::ChannelNotOpen
    );
    let mut receiver = open_channel(Order::Unordered);
    let p = sender.send_packet(0, 10, 0, vec![], &h(0, 1), 0).unwrap();
    assert_eq!(
        receiver.recv_packet(&p, vec![], true, &h(0, 10), 0),
        Err(PacketError::PacketTimedOut)
    );
    assert_eq!(
        receiver.recv_packet(&p, vec![], false, &h(0, 5), 0),
        Err(PacketError::ProofVerification)
    );
}

#[test]
fn timeout_requires_elapsed_timeout_and_proof() {
    let mut sender = open_channel(Order::Ordered);
    let p = sender.send_packet(0, 10, 0, vec![1], &h(0, 1), 0).unwrap();
    assert_eq!(
        sender.timeout_packet(p.sequence, true, &h(0, 9), 0),
        Err(PacketError::TimeoutNotReached)
    );
    assert_eq!(
        sender.timeout_packet(p.sequence, false, &h(0, 10), 0),
        Err(PacketError::ProofVerification)
    );
    assert!(sender.has_commitment(p.sequence));
    sender.timeout_packet(p.sequence, true, &h(0, 10), 0).unwrap();
    assert!(!sender.has_commitment(p.sequence));
    assert_eq!(sender.state(), ChanState::Closed);
    assert_eq!(
        sender.timeout_packet(p.sequence, true, &h(0, 10), 0),
        Err(PacketError::ChannelNotOpen)
    );
}

#[test]
fn unordered_timeout_keeps_channel_open() {
    let mut sender = open_channel(Order::Unordered);
    let p = sender.send_packet(0, 0, 100, vec![1], &h(0, 1), 50).unwrap();
    assert_eq!(sender.timeout_packet(p.sequence, true, &h(5, 1), 99), Err(PacketError::TimeoutNotReached));
    sender.timeout_packet(p.sequence, true, &h(0, 1), 100).unwrap();
    assert_eq!(sender.state(), ChanState::Open);
    assert_eq!(sender.timeout_packet(p.sequence, true, &h(0, 1), 100), Err(PacketError::CommitmentAbsent));
}

#[test]
fn timeout_on_close_ignores_timeout() {
    let mut sender = open_channel(Order::Unordered);
    let p = sender.send_packet(0, 100, 0, vec![1], &h(0, 1), 0).unwrap();
    assert_eq!(sender.timeout_on_close(p.sequence, false, true), Err(PacketError::ProofVerification));
    sender.timeout_on_close(p.sequence, true, true).unwrap();
    assert!(!sender.has_commitment(p.sequence));
}

#[test]
fn channel_needs_bound_port() {
    assert_eq!(
        ChannelEnd::chan_open_init(Order::Ordered, 1, true, false, 1).err(),
        Some(ChannelError::PortUnbound)
    );
    assert_eq!(
        ChannelEnd::chan_open_try(Order::Ordered, Order::Ordered, 1, true, false, &vec![1], &vec![1], true)
            .err(),
        Some(ChannelError::PortUnbound)
    );
}

fn clients_at(index: u64) -> ClientStore {
    let mut clients = ClientStore::new();
    clients.create_client(ClientType::new("07-tendermint").unwrap(), h(0, index)).unwrap();
    clients
}

#[test]
fn channel_proofs_go_through_the_client() {
    let mut clients = clients_at(5);
    let mut t = ChannelEnd::chan_open_try_proven(
        Order::Ordered, Order::Ordered, 1, true, true, &vec![1], &vec![1], &clients, 0, &h(0, 5), true,
    )
    .unwrap();
    assert_eq!(t.chan_open_confirm_proven(&clients, 0, &h(0, 6), true), Err(ChannelError::ProofVerification));
    t.chan_open_confirm_proven(&clients, 0, &h(0, 5), true).unwrap();
    let mut i = ChannelEnd::chan_open_init(Order::Ordered, 1, true, true, 1).unwrap();
    i.chan_open_ack_proven(&clients, 0, &h(0, 5), true).unwrap();
    assert_eq!(i.state(), ChanState::Open);
    clients.submit_misbehaviour(0, true).unwrap();
    assert_eq!(t.chan_close_confirm_proven(&clients, 0, &h(0, 5), true), Err(ChannelError::ProofVerification));
    assert_eq!(t.state(), ChanState::Open);
}

#[test]
fn packet_proofs_go_through_the_client() {
    let clients = clients_at(20);
    let mut sender = open_channel(Order::Ordered);
    let mut receiver = open_channel(Order::Ordered);
    let p = sender.send_packet(0, 10, 0, vec![3], &h(0, 1), 0).unwrap();
    assert_eq!(
        receiver.recv_packet_proven(&p, vec![4], &clients, 0, &h(0, 19), true, &h(0, 2), 0),
        Err(PacketError::ProofVerification)
    );
    assert_eq!(receiver.next_sequence_recv(), 1);
    receiver.recv_packet_proven(&p, vec![4], &clients, 0, &h(0, 20), true, &h(0, 2), 0).unwrap();
    assert_eq!(
        sender.acknowledge_packet_proven(p.sequence, &clients, 1, &h(0, 20), true),
        Err(PacketError::ProofVerification)
    );
    sender.acknowledge_packet_proven(p.sequence, &clients, 0, &h(0, 20), true).unwrap();
    assert!(!sender.has_commitment(p.sequence));
}

#[test]
fn timeout_proof_needs_stored_consensus_state() {
    let clients = clients_at(20);
    let mut sender = open_channel(Order::Unordered);
    let p = sender.send_packet(0, 10, 0, vec![3], &h(0, 1), 0).unwrap();
    // Past the timeout, but no consensus state is stored at that height.
    assert_eq!(
        sender.timeout_packet_proven(p.sequence, &clients, 0, &h(0, 15), 0, true),
        Err(PacketError::ProofVerification)
    );
    assert!(sender.has_commitment(p.sequence));
    sender.timeout_packet_proven(p.sequence, &clients, 0, &h(0, 20), 0, true).unwrap();
    assert!(!sender.has_commitment(p.sequence));
    let q = sender.send_packet(0, 100, 0, vec![4], &h(0, 1), 0).unwrap();
    assert_eq!(
        sender.timeout_on_close_proven(q.sequence, &clients, 0, &h(0, 20), false, true),
        Err(PacketError::ProofVerification)
    );
    sender.timeout_on_close_proven(q.sequence, &clients, 0, &h(0, 20), true, true).unwrap();
    assert!(!sender.has_commitment(q.sequence));
}
