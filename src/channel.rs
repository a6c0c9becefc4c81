//! Channels over an open connection: the four-step channel handshake, the
//! close transition, and the packet lifecycle (send, receive, acknowledge,
//! timeout) with its commitment, receipt and acknowledgement bookkeeping.
//!
//! Proof verification belongs to the light client of the channel's
//! connection; each step here takes its verdict.
use vstd::prelude::*;
use std::collections::{HashMap, HashSet};
use crate::height::{Height, height_le};
use crate::connection::{first_common, pick_version};
use crate::client::{ClientStore, ClientView, verify_spec};

verus! {

broadcast use vstd::std_specs::hash::group_hash_axioms;

/// Handshake state of a channel end.
#[derive(Clone, Copy, Debug, PartialEq, Eq, Structural)]
pub enum ChanState {
    Init,
    TryOpen,
    Open,
    Closed,
}

/// Delivery discipline of a channel.
#[derive(Clone, Copy, Debug, PartialEq, Eq, Structural)]
pub enum Order {
    /// Strict in-order delivery; a timeout closes the channel.
    Ordered,
    /// Any order; replay is guarded by receipts.
    Unordered,
}

/// Reasons a channel handshake step is refused.
#[derive(Clone, Copy, Debug, PartialEq, Eq, Structural)]
pub enum ChannelError {
    /// The channel's connection is not open.
    ConnectionNotOpen,
    /// The connection path has more than one hop.
    MultiHopUnsupported,
    /// The port is not bound to a module on this chain.
    PortUnbound,
    /// The two ends disagree on the ordering.
    OrderingMismatch,
    /// No version is acceptable to both sides.
    VersionMismatch,
    /// The channel is not in the state the step requires.
    HandshakeState,
    /// The proof of the counterparty's record did not verify.
    ProofVerification,
}

/// Reasons a packet step is refused.
#[derive(Clone, Copy, Debug, PartialEq, Eq, Structural)]
pub enum PacketError {
    /// The channel is not open.
    ChannelNotOpen,
    /// The proof did not verify.
    ProofVerification,
    /// The timeout has already passed at the counterparty's known height or time.
    TimeoutElapsed,
    /// The packet timed out before it was received.
    PacketTimedOut,
    /// Neither the timeout height nor the timeout timestamp has been reached.
    TimeoutNotReached,
    /// The sequence is not the one expected next.
    SequenceMismatch,
    /// A receipt for the sequence exists: the packet was already received.
    ReceiptExists,
    /// An acknowledgement for the sequence already exists.
    AcknowledgementExists,
    /// No commitment is stored for the sequence.
    CommitmentAbsent,
    /// A commitment is already stored for the sequence.
    CommitmentExists,
    /// A sequence counter is exhausted.
    SequenceOverflow,
}

/// A packet as it travels: its sequence, its timeouts and its payload. A
/// timeout height with index 0, or a timeout timestamp of 0, sets no timeout
/// on that dimension.
#[derive(Clone, Debug)]
pub struct Packet {
    pub sequence: u64,
    pub timeout_revision: u64,
    pub timeout_height: u64,
    pub timeout_timestamp: u64,
    pub data: Vec<u8>,
}

/// What the sending chain keeps of a packet it sent.
pub struct CommitView {
    pub timeout: (u64, u64),
    pub timeout_timestamp: u64,
    pub data: Seq<u8>,
}

/// What a chain records of one channel end.
pub struct ChanView {
    pub state: ChanState,
    pub ordering: Order,
    pub version: u64,
    pub next_send: u64,
    pub next_recv: u64,
    pub next_ack: u64,
    /// Commitments of packets sent and not yet acknowledged or timed out.
    pub commitments: Map<u64, CommitView>,
    /// Sequences received on an unordered channel.
    pub receipts: Set<u64>,
    /// Acknowledgements written for packets received.
    pub acks: Map<u64, Seq<u8>>,
}

/// Whether a timeout of `timeout` (height) and `timestamp` is reached at
/// height `h` and time `t`.
pub open spec fn timed_out(timeout: (u64, u64), timestamp: u64, h: (u64, u64), t: u64) -> bool {
    (timeout.1 != 0 && height_le(timeout, h)) || (timestamp != 0 && timestamp <= t)
}

/// A fresh channel end in `state`.
pub open spec fn fresh_channel(state: ChanState, ordering: Order, version: u64) -> ChanView {
    ChanView {
        state,
        ordering,
        version,
        next_send: 1,
        next_recv: 1,
        next_ack: 1,
        commitments: Map::empty(),
        receipts: Set::empty(),
        acks: Map::empty(),
    }
}

/// The end with its state replaced.
pub open spec fn with_state(c: ChanView, state: ChanState) -> ChanView {
    ChanView { state, ..c }
}

/// Init: a new end in `Init` over an open, single-hop connection.
pub open spec fn chan_init_spec(
    ordering: Order,
    hops: nat,
    connection_open: bool,
    port_bound: bool,
    version: u64,
) -> Result<ChanView, ChannelError> {
    if hops != 1 {
        Err(ChannelError::MultiHopUnsupported)
    } else if !connection_open {
        Err(ChannelError::ConnectionNotOpen)
    } else if !port_bound {
        Err(ChannelError::PortUnbound)
    } else {
        Ok(fresh_channel(ChanState::Init, ordering, version))
    }
}

/// Try: a new end in `TryOpen`, with the counterparty's ordering and the
/// first of its proposed versions that this chain supports.
pub open spec fn chan_try_spec(
    ordering: Order,
    counterparty_ordering: Order,
    hops: nat,
    connection_open: bool,
    port_bound: bool,
    proposed: Seq<u64>,
    supported: Seq<u64>,
    proof_ok: bool,
) -> Result<ChanView, ChannelError> {
    if hops != 1 {
        Err(ChannelError::MultiHopUnsupported)
    } else if !connection_open {
        Err(ChannelError::ConnectionNotOpen)
    } else if !port_bound {
        Err(ChannelError::PortUnbound)
    } else if ordering != counterparty_ordering {
        Err(ChannelError::OrderingMismatch)
    } else if !proof_ok {
        Err(ChannelError::ProofVerification)
    } else {
        match first_common(proposed, supported) {
            None => Err(ChannelError::VersionMismatch),
            Some(v) => Ok(fresh_channel(ChanState::TryOpen, ordering, v)),
        }
    }
}

/// A handshake step from state `from` to state `to`, gated by a proof.
pub open spec fn chan_step_spec(c: ChanView, from: ChanState, to: ChanState, proof_ok: bool) -> Result<
    ChanView,
    ChannelError,
> {
    if c.state != from {
        Err(ChannelError::HandshakeState)
    } else if !proof_ok {
        Err(ChannelError::ProofVerification)
    } else {
        Ok(with_state(c, to))
    }
}

/// Send: the packet takes the next send sequence and its commitment is stored.
pub open spec fn send_spec(
    c: ChanView,
    timeout: (u64, u64),
    timeout_timestamp: u64,
    data: Seq<u8>,
    counterparty_height: (u64, u64),
    counterparty_time: u64,
) -> Result<ChanView, PacketError> {
    if c.state != ChanState::Open {
        Err(PacketError::ChannelNotOpen)
    } else if timed_out(timeout, timeout_timestamp, counterparty_height, counterparty_time) {
        Err(PacketError::TimeoutElapsed)
    } else if c.next_send == u64::MAX {
        Err(PacketError::SequenceOverflow)
    } else if c.commitments.contains_key(c.next_send) {
        Err(PacketError::CommitmentExists)
    } else {
        Ok(
            ChanView {
                next_send: (c.next_send + 1) as u64,
                commitments: c.commitments.insert(
                    c.next_send,
                    CommitView { timeout, timeout_timestamp, data },
                ),
                ..c
            },
        )
    }
}

/// Receive: on a verified proof of the sender's commitment, checks order or
/// replay, advances the receive counter or writes a receipt, and stores the
/// acknowledgement.
pub open spec fn recv_spec(
    c: ChanView,
    seq: u64,
    timeout: (u64, u64),
    timeout_timestamp: u64,
    ack: Seq<u8>,
    proof_ok: bool,
    host_height: (u64, u64),
    host_time: u64,
) -> Result<ChanView, PacketError> {
    if c.state != ChanState::Open {
        Err(PacketError::ChannelNotOpen)
    } else if timed_out(timeout, timeout_timestamp, host_height, host_time) {
        Err(PacketError::PacketTimedOut)
    } else if !proof_ok {
        Err(PacketError::ProofVerification)
    } else {
        match c.ordering {
            Order::Ordered => if seq != c.next_recv {
                Err(PacketError::SequenceMismatch)
            } else if c.next_recv == u64::MAX {
                Err(PacketError::SequenceOverflow)
            } else if c.acks.contains_key(seq) {
                Err(PacketError::AcknowledgementExists)
            } else {
                Ok(ChanView { next_recv: (c.next_recv + 1) as u64, acks: c.acks.insert(seq, ack), ..c })
            },
            Order::Unordered => if c.receipts.contains(seq) {
                Err(PacketError::ReceiptExists)
            } else if c.acks.contains_key(seq) {
                Err(PacketError::AcknowledgementExists)
            } else {
                Ok(ChanView { receipts: c.receipts.insert(seq), acks: c.acks.insert(seq, ack), ..c })
            },
        }
    }
}

/// Acknowledge: on a verified proof of the receiver's acknowledgement,
/// clears the commitment, in order on an ordered channel.
pub open spec fn ack_spec(c: ChanView, seq: u64, proof_ok: bool) -> Result<ChanView, PacketError> {
    if c.state != ChanState::Open {
        Err(PacketError::ChannelNotOpen)
    } else if !c.commitments.contains_key(seq) {
        Err(PacketError::CommitmentAbsent)
    } else if !proof_ok {
        Err(PacketError::ProofVerification)
    } else {
        match c.ordering {
            Order::Ordered => if seq != c.next_ack {
                Err(PacketError::SequenceMismatch)
            } else if c.next_ack == u64::MAX {
                Err(PacketError::SequenceOverflow)
            } else {
                Ok(ChanView { next_ack: (c.next_ack + 1) as u64, commitments: c.commitments.remove(seq), ..c })
            },
            Order::Unordered => Ok(ChanView { commitments: c.commitments.remove(seq), ..c }),
        }
    }
}

/// Timeout: once the proven counterparty height or time is at or past the
/// packet's timeout, and non-receipt is proven, clears the commitment; an
/// ordered channel closes.
pub open spec fn timeout_spec(
    c: ChanView,
    seq: u64,
    proof_ok: bool,
    proof_height: (u64, u64),
    proof_time: u64,
) -> Result<ChanView, PacketError> {
    if c.state != ChanState::Open {
        Err(PacketError::ChannelNotOpen)
    } else if !c.commitments.contains_key(seq) {
        Err(PacketError::CommitmentAbsent)
    } else if !timed_out(
        c.commitments[seq].timeout,
        c.commitments[seq].timeout_timestamp,
        proof_height,
        proof_time,
    ) {
        Err(PacketError::TimeoutNotReached)
    } else if !proof_ok {
        Err(PacketError::ProofVerification)
    } else {
        Ok(timeout_effect(c, seq))
    }
}

/// Timeout on close: once the counterparty end is proven closed and
/// non-receipt is proven, clears the commitment whatever the timeout.
pub open spec fn timeout_on_close_spec(c: ChanView, seq: u64, close_proof_ok: bool, proof_ok: bool) -> Result<
    ChanView,
    PacketError,
> {
    if c.state != ChanState::Open {
        Err(PacketError::ChannelNotOpen)
    } else if !c.commitments.contains_key(seq) {
        Err(PacketError::CommitmentAbsent)
    } else if !close_proof_ok || !proof_ok {
        Err(PacketError::ProofVerification)
    } else {
        Ok(timeout_effect(c, seq))
    }
}

/// The commitment cleared; an ordered channel closed.
pub open spec fn timeout_effect(c: ChanView, seq: u64) -> ChanView {
    ChanView {
        state: if c.ordering == Order::Ordered {
            ChanState::Closed
        } else {
            c.state
        },
        commitments: c.commitments.remove(seq),
        ..c
    }
}

/// Whether a proof verifies through client `client` of `clients` at `h`:
/// the client exists, is not frozen, holds a consensus state at `h`, and the
/// light client accepts the proof there.
pub open spec fn client_proof_ok(clients: Seq<ClientView>, client: int, h: (u64, u64), verdict: bool) -> bool {
    verify_spec(clients, client, h, verdict) is Ok
}

/// What the sending chain keeps of a packet it sent.
pub struct PacketCommitment {
    timeout_revision: u64,
    timeout_height: u64,
    timeout_timestamp: u64,
    data: Vec<u8>,
}

impl PacketCommitment {
    pub closed spec fn view_of(self) -> CommitView {
        CommitView {
            timeout: (self.timeout_revision, self.timeout_height),
            timeout_timestamp: self.timeout_timestamp,
            data: self.data@,
        }
    }
}

/// One channel end and its packet bookkeeping.
pub struct ChannelEnd {
    state: ChanState,
    ordering: Order,
    version: u64,
    next_send: u64,
    next_recv: u64,
    next_ack: u64,
    commitments: HashMap<u64, PacketCommitment>,
    receipts: HashSet<u64>,
    acks: HashMap<u64, Vec<u8>>,
}

impl View for ChannelEnd {
    type V = ChanView;

    closed spec fn view(&self) -> ChanView {
        ChanView {
            state: self.state,
            ordering: self.ordering,
            version: self.version,
            next_send: self.next_send,
            next_recv: self.next_recv,
            next_ack: self.next_ack,
            commitments: self.commitments@.map_values(|p: PacketCommitment| p.view_of()),
            receipts: self.receipts@,
            acks: self.acks@.map_values(|a: Vec<u8>| a@),
        }
    }
}

fn timeout_reached(revision: u64, height: u64, timestamp: u64, at_revision: u64, at_height: u64, at_time: u64) -> (r: bool)
    ensures
        r == timed_out((revision, height), timestamp, (at_revision, at_height), at_time),
{
    (height != 0 && (revision < at_revision || (revision == at_revision && height <= at_height)))
        || (timestamp != 0 && timestamp <= at_time)
}

impl ChannelEnd {
    fn fresh(state: ChanState, ordering: Order, version: u64) -> (r: ChannelEnd)
        ensures
            r@ == fresh_channel(state, ordering, version),
    {
        let r = ChannelEnd {
            state,
            ordering,
            version,
            next_send: 1,
            next_recv: 1,
            next_ack: 1,
            commitments: HashMap::new(),
            receipts: HashSet::new(),
            acks: HashMap::new(),
        };
        assert(r@.commitments =~= Map::<u64, CommitView>::empty());
        assert(r@.acks =~= Map::<u64, Seq<u8>>::empty());
        r
    }

    /// Init: a new end in `Init` over a connection path of `hops` hops,
    /// which must be one open connection, on a bound port.
    pub fn chan_open_init(
        ordering: Order,
        hops: usize,
        connection_open: bool,
        port_bound: bool,
        version: u64,
    ) -> (r: Result<ChannelEnd, ChannelError>)
        ensures
            match chan_init_spec(ordering, hops as nat, connection_open, port_bound, version) {
                Ok(c) => r matches Ok(e) && e@ == c,
                Err(err) => r matches Err(x) && x == err,
            },
    {
        if hops != 1 {
            return Err(ChannelError::MultiHopUnsupported);
        }
        if !connection_open {
            return Err(ChannelError::ConnectionNotOpen);
        }
        if !port_bound {
            return Err(ChannelError::PortUnbound);
        }
        Ok(ChannelEnd::fresh(ChanState::Init, ordering, version))
    }

    /// Try: on a verified proof of the counterparty's `Init` end, a new end
    /// in `TryOpen` with the first proposed version this chain supports.
    pub fn chan_open_try(
        ordering: Order,
        counterparty_ordering: Order,
        hops: usize,
        connection_open: bool,
        port_bound: bool,
        proposed: &Vec<u64>,
        supported: &Vec<u64>,
        proof_valid: bool,
    ) -> (r: Result<ChannelEnd, ChannelError>)
        ensures
            match chan_try_spec(
                ordering,
                counterparty_ordering,
                hops as nat,
                connection_open,
                port_bound,
                proposed@,
                supported@,
                proof_valid,
            ) {
                Ok(c) => r matches Ok(e) && e@ == c,
                Err(err) => r matches Err(x) && x == err,
            },
    {
        if hops != 1 {
            return Err(ChannelError::MultiHopUnsupported);
        }
        if !connection_open {
            return Err(ChannelError::ConnectionNotOpen);
        }
        if !port_bound {
            return Err(ChannelError::PortUnbound);
        }
        if ordering != counterparty_ordering {
            return Err(ChannelError::OrderingMismatch);
        }
        if !proof_valid {
            return Err(ChannelError::ProofVerification);
        }
        match pick_version(proposed, supported) {
            None => Err(ChannelError::VersionMismatch),
            Some(v) => Ok(ChannelEnd::fresh(ChanState::TryOpen, ordering, v)),
        }
    }

    fn step(&mut self, from: ChanState, to: ChanState, proof_valid: bool) -> (r: Result<(), ChannelError>)
        ensures
            match chan_step_spec(old(self)@, from, to, proof_valid) {
                Ok(c) => r is Ok && final(self)@ == c,
                Err(err) => r == Err::<(), ChannelError>(err) && final(self)@ == old(self)@,
            },
    {
        if self.state != from {
            return Err(ChannelError::HandshakeState);
        }
        if !proof_valid {
            return Err(ChannelError::ProofVerification);
        }
        self.state = to;
        Ok(())
    }

    /// Ack: on a verified proof of the counterparty's `TryOpen` end, moves
    /// this end from `Init` to `Open`.
    pub fn chan_open_ack(&mut self, proof_valid: bool) -> (r: Result<(), ChannelError>)
        ensures
            match chan_step_spec(old(self)@, ChanState::Init, ChanState::Open, proof_valid) {
                Ok(c) => r is Ok && final(self)@ == c,
                Err(err) => r == Err::<(), ChannelError>(err) && final(self)@ == old(self)@,
            },
    {
        self.step(ChanState::Init, ChanState::Open, proof_valid)
    }

    /// Confirm: on a verified proof of the counterparty's `Open` end, moves
    /// this end from `TryOpen` to `Open`.
    pub fn chan_open_confirm(&mut self, proof_valid: bool) -> (r: Result<(), ChannelError>)
        ensures
            match chan_step_spec(old(self)@, ChanState::TryOpen, ChanState::Open, proof_valid) {
                Ok(c) => r is Ok && final(self)@ == c,
                Err(err) => r == Err::<(), ChannelError>(err) && final(self)@ == old(self)@,
            },
    {
        self.step(ChanState::TryOpen, ChanState::Open, proof_valid)
    }

    /// Close: on a verified proof that the counterparty end is closed, moves
    /// this end from `Open` to `Closed`, for good.
    pub fn chan_close_confirm(&mut self, proof_valid: bool) -> (r: Result<(), ChannelError>)
        ensures
            match chan_step_spec(old(self)@, ChanState::Open, ChanState::Closed, proof_valid) {
                Ok(c) => r is Ok && final(self)@ == c,
                Err(err) => r == Err::<(), ChannelError>(err) && final(self)@ == old(self)@,
            },
    {
        self.step(ChanState::Open, ChanState::Closed, proof_valid)
    }

    /// The handshake state.
    pub fn state(&self) -> (r: ChanState)
        ensures
            r == self@.state,
    {
        self.state
    }

    /// The negotiated version.
    pub fn version(&self) -> (r: u64)
        ensures
            r == self@.version,
    {
        self.version
    }

    /// The sequence the next packet sent will take.
    pub fn next_sequence_send(&self) -> (r: u64)
        ensures
            r == self@.next_send,
    {
        self.next_send
    }

    /// The sequence expected next on an ordered channel.
    pub fn next_sequence_recv(&self) -> (r: u64)
        ensures
            r == self@.next_recv,
    {
        self.next_recv
    }

    /// The acknowledgement expected next on an ordered channel.
    pub fn next_sequence_ack(&self) -> (r: u64)
        ensures
            r == self@.next_ack,
    {
        self.next_ack
    }

    /// Whether a commitment is stored for `seq`.
    pub fn has_commitment(&self, seq: u64) -> (r: bool)
        ensures
            r == self@.commitments.contains_key(seq),
    {
        self.commitments.contains_key(&seq)
    }

    /// Whether a receipt is stored for `seq`.
    pub fn has_receipt(&self, seq: u64) -> (r: bool)
        ensures
            r == self@.receipts.contains(seq),
    {
        self.receipts.contains(&seq)
    }

    /// The acknowledgement written for `seq`, if any.
    pub fn acknowledgement(&self, seq: u64) -> (r: Option<Vec<u8>>)
        ensures
            match r {
                Some(a) => self@.acks.contains_key(seq) && a@ == self@.acks[seq],
                None => !self@.acks.contains_key(seq),
            },
    {
        match self.acks.get(&seq) {
            Some(a) => Some(a.clone()),
            None => None,
        }
    }

    /// Sends a packet with the given timeouts and payload: it takes the next
    /// send sequence, and its commitment is stored. The timeout must not have
    /// passed already at the counterparty's best known height and time.
    pub fn send_packet(
        &mut self,
        timeout_revision: u64,
        timeout_height: u64,
        timeout_timestamp: u64,
        data: Vec<u8>,
        counterparty_height: &Height,
        counterparty_time: u64,
    ) -> (r: Result<Packet, PacketError>)
        ensures
            match send_spec(
                old(self)@,
                (timeout_revision, timeout_height),
                timeout_timestamp,
                data@,
                counterparty_height@,
                counterparty_time,
            ) {
                Ok(c) => final(self)@ == c && (r matches Ok(p) && p.sequence == old(self)@.next_send
                    && p.timeout_revision == timeout_revision && p.timeout_height == timeout_height
                    && p.timeout_timestamp == timeout_timestamp && p.data@ == data@),
                Err(e) => r matches Err(x) && x == e && final(self)@ == old(self)@,
            },
    {
        if self.state != ChanState::Open {
            return Err(PacketError::ChannelNotOpen);
        }
        if timeout_reached(
            timeout_revision,
            timeout_height,
            timeout_timestamp,
            counterparty_height.revision_number(),
            counterparty_height.revision_height(),
            counterparty_time,
        ) {
            return Err(PacketError::TimeoutElapsed);
        }
        if self.next_send == u64::MAX {
            return Err(PacketError::SequenceOverflow);
        }
        let seq = self.next_send;
        if self.commitments.contains_key(&seq) {
            return Err(PacketError::CommitmentExists);
        }
        let ghost old_view = self@;
        let commitment = PacketCommitment {
            timeout_revision,
            timeout_height,
            timeout_timestamp,
            data: data.clone(),
        };
        self.commitments.insert(seq, commitment);
        self.next_send = seq + 1;
        proof {
            let c = send_spec(
                old_view,
                (timeout_revision, timeout_height),
                timeout_timestamp,
                data@,
                counterparty_height@,
                counterparty_time,
            )->Ok_0;
            assert(self@.commitments =~= c.commitments);
        }
        Ok(Packet { sequence: seq, timeout_revision, timeout_height, timeout_timestamp, data })
    }

    /// Receives `packet` on a verified proof of the sender's commitment and
    /// writes the acknowledgement `ack`. An ordered channel takes only the
    /// sequence expected next; an unordered one refuses a sequence it has a
    /// receipt for.
    pub fn recv_packet(
        &mut self,
        packet: &Packet,
        ack: Vec<u8>,
        proof_valid: bool,
        host_height: &Height,
        host_time: u64,
    ) -> (r: Result<(), PacketError>)
        ensures
            match recv_spec(
                old(self)@,
                packet.sequence,
                (packet.timeout_revision, packet.timeout_height),
                packet.timeout_timestamp,
                ack@,
                proof_valid,
                host_height@,
                host_time,
            ) {
                Ok(c) => r is Ok && final(self)@ == c,
                Err(e) => r == Err::<(), PacketError>(e) && final(self)@ == old(self)@,
            },
    {
        if self.state != ChanState::Open {
            return Err(PacketError::ChannelNotOpen);
        }
        if timeout_reached(
            packet.timeout_revision,
            packet.timeout_height,
            packet.timeout_timestamp,
            host_height.revision_number(),
            host_height.revision_height(),
            host_time,
        ) {
            return Err(PacketError::PacketTimedOut);
        }
        if !proof_valid {
            return Err(PacketError::ProofVerification);
        }
        let seq = packet.sequence;
        let ghost old_view = self@;
        let ghost ack_view = ack@;
        match self.ordering {
            Order::Ordered => {
                if seq != self.next_recv {
                    return Err(PacketError::SequenceMismatch);
                }
                if self.next_recv == u64::MAX {
                    return Err(PacketError::SequenceOverflow);
                }
                if self.acks.contains_key(&seq) {
                    return Err(PacketError::AcknowledgementExists);
                }
                self.next_recv = seq + 1;
            },
            Order::Unordered => {
                if self.receipts.contains(&seq) {
                    return Err(PacketError::ReceiptExists);
                }
                if self.acks.contains_key(&seq) {
                    return Err(PacketError::AcknowledgementExists);
                }
                self.receipts.insert(seq);
            },
        }
        self.acks.insert(seq, ack);
        proof {
            let c = recv_spec(
                old_view,
                seq,
                (packet.timeout_revision, packet.timeout_height),
                packet.timeout_timestamp,
                ack_view,
                proof_valid,
                host_height@,
                host_time,
            )->Ok_0;
            assert(self@.acks =~= c.acks);
            assert(self@.receipts =~= c.receipts);
        }
        Ok(())
    }

    /// Acknowledges packet `seq` on a verified proof of the receiver's
    /// acknowledgement: its commitment is cleared, in order on an ordered
    /// channel. A second acknowledgement finds no commitment.
    pub fn acknowledge_packet(&mut self, seq: u64, proof_valid: bool) -> (r: Result<(), PacketError>)
        ensures
            match ack_spec(old(self)@, seq, proof_valid) {
                Ok(c) => r is Ok && final(self)@ == c,
                Err(e) => r == Err::<(), PacketError>(e) && final(self)@ == old(self)@,
            },
    {
        if self.state != ChanState::Open {
            return Err(PacketError::ChannelNotOpen);
        }
        if !self.commitments.contains_key(&seq) {
            return Err(PacketError::CommitmentAbsent);
        }
        if !proof_valid {
            return Err(PacketError::ProofVerification);
        }
        let ghost old_view = self@;
        if self.ordering == Order::Ordered {
            if seq != self.next_ack {
                return Err(PacketError::SequenceMismatch);
            }
            if self.next_ack == u64::MAX {
                return Err(PacketError::SequenceOverflow);
            }
            self.next_ack = seq + 1;
        }
        self.commitments.remove(&seq);
        proof {
            let c = ack_spec(old_view, seq, proof_valid)->Ok_0;
            assert(self@.commitments =~= c.commitments);
        }
        Ok(())
    }

    fn clear_on_timeout(&mut self, seq: u64)
        ensures
            final(self)@ == timeout_effect(old(self)@, seq),
    {
        let ghost old_view = self@;
        self.commitments.remove(&seq);
        if self.ordering == Order::Ordered {
            self.state = ChanState::Closed;
        }
        assert(self@.commitments =~= timeout_effect(old_view, seq).commitments);
    }

    /// Times out packet `seq`: once the proven counterparty height or time is
    /// at or past its timeout, and non-receipt is proven, its commitment is
    /// cleared; an ordered channel closes.
    pub fn timeout_packet(
        &mut self,
        seq: u64,
        proof_valid: bool,
        proof_height: &Height,
        proof_time: u64,
    ) -> (r: Result<(), PacketError>)
        ensures
            match timeout_spec(old(self)@, seq, proof_valid, proof_height@, proof_time) {
                Ok(c) => r is Ok && final(self)@ == c,
                Err(e) => r == Err::<(), PacketError>(e) && final(self)@ == old(self)@,
            },
    {
        if self.state != ChanState::Open {
            return Err(PacketError::ChannelNotOpen);
        }
        let reached = match self.commitments.get(&seq) {
            None => {
                return Err(PacketError::CommitmentAbsent);
            },
            Some(c) => timeout_reached(
                c.timeout_revision,
                c.timeout_height,
                c.timeout_timestamp,
                proof_height.revision_number(),
                proof_height.revision_height(),
                proof_time,
            ),
        };
        if !reached {
            return Err(PacketError::TimeoutNotReached);
        }
        if !proof_valid {
            return Err(PacketError::ProofVerification);
        }
        self.clear_on_timeout(seq);
        Ok(())
    }

    /// Times out packet `seq` once the counterparty end is proven closed and
    /// non-receipt is proven, whatever its timeout.
    pub fn timeout_on_close(&mut self, seq: u64, close_proof_valid: bool, proof_valid: bool) -> (r: Result<
        (),
        PacketError,
    >)
        ensures
            match timeout_on_close_spec(old(self)@, seq, close_proof_valid, proof_valid) {
                Ok(c) => r is Ok && final(self)@ == c,
                Err(e) => r == Err::<(), PacketError>(e) && final(self)@ == old(self)@,
            },
    {
        if self.state != ChanState::Open {
            return Err(PacketError::ChannelNotOpen);
        }
        if !self.commitments.contains_key(&seq) {
            return Err(PacketError::CommitmentAbsent);
        }
        if !close_proof_valid || !proof_valid {
            return Err(PacketError::ProofVerification);
        }
        self.clear_on_timeout(seq);
        Ok(())
    }

    /// Try, with the proof checked through `client` in `clients` at `proof_height`.
    pub fn chan_open_try_proven(
        ordering: Order,
        counterparty_ordering: Order,
        hops: usize,
        connection_open: bool,
        port_bound: bool,
        proposed: &Vec<u64>,
        supported: &Vec<u64>,
        clients: &ClientStore,
        client: usize,
        proof_height: &Height,
        proof_verdict: bool,
    ) -> (r: Result<ChannelEnd, ChannelError>)
        ensures
            match chan_try_spec(
                ordering,
                counterparty_ordering,
                hops as nat,
                connection_open,
                port_bound,
                proposed@,
                supported@,
                client_proof_ok(clients@, client as int, proof_height@, proof_verdict),
            ) {
                Ok(c) => r matches Ok(e) && e@ == c,
                Err(err) => r matches Err(x) && x == err,
            },
    {
        let proven = clients.verify_proof(client, proof_height, proof_verdict).is_ok();
        ChannelEnd::chan_open_try(
            ordering,
            counterparty_ordering,
            hops,
            connection_open,
            port_bound,
            proposed,
            supported,
            proven,
        )
    }

    /// Ack, with the proof checked through `client` in `clients` at `proof_height`.
    pub fn chan_open_ack_proven(
        &mut self,
        clients: &ClientStore,
        client: usize,
        proof_height: &Height,
        proof_verdict: bool,
    ) -> (r: Result<(), ChannelError>)
        ensures
            match chan_step_spec(
                old(self)@,
                ChanState::Init,
                ChanState::Open,
                client_proof_ok(clients@, client as int, proof_height@, proof_verdict),
            ) {
                Ok(c) => r is Ok && final(self)@ == c,
                Err(err) => r == Err::<(), ChannelError>(err) && final(self)@ == old(self)@,
            },
    {
        let proven = clients.verify_proof(client, proof_height, proof_verdict).is_ok();
        self.chan_open_ack(proven)
    }

    /// Confirm, with the proof checked through `client` in `clients` at `proof_height`.
    pub fn chan_open_confirm_proven(
        &mut self,
        clients: &ClientStore,
        client: usize,
        proof_height: &Height,
        proof_verdict: bool,
    ) -> (r: Result<(), ChannelError>)
        ensures
            match chan_step_spec(
                old(self)@,
                ChanState::TryOpen,
                ChanState::Open,
                client_proof_ok(clients@, client as int, proof_height@, proof_verdict),
            ) {
                Ok(c) => r is Ok && final(self)@ == c,
                Err(err) => r == Err::<(), ChannelError>(err) && final(self)@ == old(self)@,
            },
    {
        let proven = clients.verify_proof(client, proof_height, proof_verdict).is_ok();
        self.chan_open_confirm(proven)
    }

    /// Close, with the proof checked through `client` in `clients` at `proof_height`.
    pub fn chan_close_confirm_proven(
        &mut self,
        clients: &ClientStore,
        client: usize,
        proof_height: &Height,
        proof_verdict: bool,
    ) -> (r: Result<(), ChannelError>)
        ensures
            match chan_step_spec(
                old(self)@,
                ChanState::Open,
                ChanState::Closed,
                client_proof_ok(clients@, client as int, proof_height@, proof_verdict),
            ) {
                Ok(c) => r is Ok && final(self)@ == c,
                Err(err) => r == Err::<(), ChannelError>(err) && final(self)@ == old(self)@,
            },
    {
        let proven = clients.verify_proof(client, proof_height, proof_verdict).is_ok();
        self.chan_close_confirm(proven)
    }

    /// Receive, with the proof of the sender's commitment checked through
    /// `client` in `clients` at `proof_height`.
    pub fn recv_packet_proven(
        &mut self,
        packet: &Packet,
        ack: Vec<u8>,
        clients: &ClientStore,
        client: usize,
        proof_height: &Height,
        proof_verdict: bool,
        host_height: &Height,
        host_time: u64,
    ) -> (r: Result<(), PacketError>)
        ensures
            match recv_spec(
                old(self)@,
                packet.sequence,
                (packet.timeout_revision, packet.timeout_height),
                packet.timeout_timestamp,
                ack@,
                client_proof_ok(clients@, client as int, proof_height@, proof_verdict),
                host_height@,
                host_time,
            ) {
                Ok(c) => r is Ok && final(self)@ == c,
                Err(e) => r == Err::<(), PacketError>(e) && final(self)@ == old(self)@,
            },
    {
        let proven = clients.verify_proof(client, proof_height, proof_verdict).is_ok();
        self.recv_packet(packet, ack, proven, host_height, host_time)
    }

    /// Acknowledge, with the proof of the acknowledgement checked through
    /// `client` in `clients` at `proof_height`.
    pub fn acknowledge_packet_proven(
        &mut self,
        seq: u64,
        clients: &ClientStore,
        client: usize,
        proof_height: &Height,
        proof_verdict: bool,
    ) -> (r: Result<(), PacketError>)
        ensures
            match ack_spec(
                old(self)@,
                seq,
                client_proof_ok(clients@, client as int, proof_height@, proof_verdict),
            ) {
                Ok(c) => r is Ok && final(self)@ == c,
                Err(e) => r == Err::<(), PacketError>(e) && final(self)@ == old(self)@,
            },
    {
        let proven = clients.verify_proof(client, proof_height, proof_verdict).is_ok();
        self.acknowledge_packet(seq, proven)
    }

    /// Timeout, with the non-receipt proof checked through `client` in
    /// `clients` at `proof_height`, the height the timeout is judged at.
    pub fn timeout_packet_proven(
        &mut self,
        seq: u64,
        clients: &ClientStore,
        client: usize,
        proof_height: &Height,
        proof_time: u64,
        proof_verdict: bool,
    ) -> (r: Result<(), PacketError>)
        ensures
            match timeout_spec(
                old(self)@,
                seq,
                client_proof_ok(clients@, client as int, proof_height@, proof_verdict),
                proof_height@,
                proof_time,
            ) {
                Ok(c) => r is Ok && final(self)@ == c,
                Err(e) => r == Err::<(), PacketError>(e) && final(self)@ == old(self)@,
            },
    {
        let proven = clients.verify_proof(client, proof_height, proof_verdict).is_ok();
        self.timeout_packet(seq, proven, proof_height, proof_time)
    }

    /// Timeout on close, with both proofs checked through `client` in
    /// `clients` at `proof_height`.
    pub fn timeout_on_close_proven(
        &mut self,
        seq: u64,
        clients: &ClientStore,
        client: usize,
        proof_height: &Height,
        close_verdict: bool,
        proof_verdict: bool,
    ) -> (r: Result<(), PacketError>)
        ensures
            match timeout_on_close_spec(
                old(self)@,
                seq,
                client_proof_ok(clients@, client as int, proof_height@, close_verdict),
                client_proof_ok(clients@, client as int, proof_height@, proof_verdict),
            ) {
                Ok(c) => r is Ok && final(self)@ == c,
                Err(e) => r == Err::<(), PacketError>(e) && final(self)@ == old(self)@,
            },
    {
        let close_proven = clients.verify_proof(client, proof_height, close_verdict).is_ok();
        let proven = clients.verify_proof(client, proof_height, proof_verdict).is_ok();
        self.timeout_on_close(seq, close_proven, proven)
    }
}

/// On an ordered channel a packet whose sequence is not the one expected
/// next is refused, so neither the receive counter nor an acknowledgement is
/// written. On an unordered channel, once a packet is received, receiving the
/// same sequence again is refused, and refused as a replay whenever the
/// channel is open, the packet has not timed out and the proof verifies.
pub proof fn lemma_recv_order_and_replay(
    c: ChanView,
    seq: u64,
    timeout: (u64, u64),
    timeout_timestamp: u64,
    ack: Seq<u8>,
    proof_ok: bool,
    host_height: (u64, u64),
    host_time: u64,
)
    ensures
        c.ordering == Order::Ordered && seq != c.next_recv ==> recv_spec(
            c,
            seq,
            timeout,
            timeout_timestamp,
            ack,
            proof_ok,
            host_height,
            host_time,
        ) is Err,
        c.ordering == Order::Unordered ==> (recv_spec(
            c,
            seq,
            timeout,
            timeout_timestamp,
            ack,
            proof_ok,
            host_height,
            host_time,
        ) matches Ok(c1) ==> forall|t2: (u64, u64), ts2: u64, a2: Seq<u8>, proof_ok2: bool, h2: (u64, u64), tm2: u64|
            {
                &&& #[trigger] recv_spec(c1, seq, t2, ts2, a2, proof_ok2, h2, tm2) is Err
                &&& !timed_out(t2, ts2, h2, tm2) && proof_ok2 ==> recv_spec(c1, seq, t2, ts2, a2, proof_ok2, h2, tm2)
                    == Err::<ChanView, PacketError>(PacketError::ReceiptExists)
            }),
{
}

/// Send, then receive on the counterparty, then acknowledge: the packet's
/// commitment is stored by the send and cleared by the acknowledgement, and
/// only once: acknowledging the same sequence again fails with
/// `CommitmentAbsent`.
pub proof fn lemma_send_recv_ack(
    sender: ChanView,
    timeout: (u64, u64),
    timeout_timestamp: u64,
    data: Seq<u8>,
    counterparty_height: (u64, u64),
    counterparty_time: u64,
    receiver: ChanView,
    ack: Seq<u8>,
    host_height: (u64, u64),
    host_time: u64,
)
    requires
        send_spec(sender, timeout, timeout_timestamp, data, counterparty_height, counterparty_time) is Ok,
        recv_spec(
            receiver,
            sender.next_send,
            timeout,
            timeout_timestamp,
            ack,
            true,
            host_height,
            host_time,
        ) is Ok,
    ensures
        ({
            let seq = sender.next_send;
            let s1 = send_spec(sender, timeout, timeout_timestamp, data, counterparty_height, counterparty_time)->Ok_0;
            let r1 = recv_spec(receiver, seq, timeout, timeout_timestamp, ack, true, host_height, host_time)->Ok_0;
            &&& s1.commitments.contains_key(seq)
            &&& r1.acks.contains_key(seq) && r1.acks[seq] == ack
            &&& ack_spec(s1, seq, true) matches Ok(s2) ==> {
                &&& !s2.commitments.contains_key(seq)
                &&& s2.commitments == s1.commitments.remove(seq)
                &&& forall|p: bool| #[trigger] ack_spec(s2, seq, p) == Err::<ChanView, PacketError>(
                    PacketError::CommitmentAbsent,
                )
            }
            &&& s1.ordering == Order::Unordered ==> ack_spec(s1, seq, true) is Ok
            &&& s1.ordering == Order::Ordered && seq == s1.next_ack && s1.next_ack < u64::MAX
                ==> ack_spec(s1, seq, true) is Ok
        }),
{
}

/// A timeout succeeds only when the proven height or time is at or past the
/// packet's timeout and the non-receipt proof verifies; otherwise it fails
/// with `TimeoutNotReached` or `ProofVerification`, and the commitment stays.
pub proof fn lemma_timeout_gate(c: ChanView, seq: u64, proof_ok: bool, h: (u64, u64), t: u64)
    ensures
        timeout_spec(c, seq, proof_ok, h, t) matches Ok(c1) ==> {
            &&& c.commitments.contains_key(seq)
            &&& timed_out(c.commitments[seq].timeout, c.commitments[seq].timeout_timestamp, h, t)
            &&& proof_ok
            &&& !c1.commitments.contains_key(seq)
        },
        c.state == ChanState::Open && c.commitments.contains_key(seq) ==> {
            &&& !timed_out(c.commitments[seq].timeout, c.commitments[seq].timeout_timestamp, h, t)
                ==> timeout_spec(c, seq, proof_ok, h, t) == Err::<ChanView, PacketError>(
                PacketError::TimeoutNotReached,
            )
            &&& timed_out(c.commitments[seq].timeout, c.commitments[seq].timeout_timestamp, h, t)
                && !proof_ok ==> timeout_spec(c, seq, proof_ok, h, t) == Err::<ChanView, PacketError>(
                PacketError::ProofVerification,
            )
        },
{
}

/// A timeout whose non-receipt proof is checked through a client succeeds
/// only when that client is known and not frozen, holds a consensus state at
/// the proof height, accepts the proof, and the proven height or time is at
/// or past the packet's timeout.
pub proof fn lemma_timeout_needs_stored_consensus(
    c: ChanView,
    seq: u64,
    clients: Seq<ClientView>,
    client: int,
    proof_height: (u64, u64),
    proof_time: u64,
    verdict: bool,
)
    ensures
        timeout_spec(
            c,
            seq,
            client_proof_ok(clients, client, proof_height, verdict),
            proof_height,
            proof_time,
        ) is Ok ==> {
            &&& 0 <= client < clients.len()
            &&& !clients[client].frozen
            &&& clients[client].consensus.contains(proof_height)
            &&& verdict
            &&& c.commitments.contains_key(seq)
            &&& timed_out(
                c.commitments[seq].timeout,
                c.commitments[seq].timeout_timestamp,
                proof_height,
                proof_time,
            )
        },
{
}

} // verus!
