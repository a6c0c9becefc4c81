//! The four-step connection handshake: Init and Ack on one chain, Try and
//! Confirm on the other. Each step after Init is gated by the light client's
//! verdict on a proof of the counterparty's record, and by the local
//! connection's state.
use vstd::prelude::*;
use crate::client::{ClientStore, ClientView, verify_spec};
use crate::height::Height;

verus! {

/// Handshake state of a connection end.
#[derive(Clone, Copy, Debug, PartialEq, Eq, Structural)]
pub enum ConnState {
    Init,
    TryOpen,
    Open,
}

/// Reasons a handshake step is refused.
#[derive(Clone, Copy, Debug, PartialEq, Eq, Structural)]
pub enum ConnectionError {
    /// No connection is stored under the given index.
    ConnectionNotFound,
    /// The connection is not in the state the step requires.
    HandshakeState,
    /// The proof of the counterparty's record did not verify.
    ProofVerification,
    /// The counterparty's view of this chain's client does not match it.
    SelfClientMismatch,
    /// No version is acceptable to both sides.
    VersionMismatch,
}

/// Order of handshake states; a connection end never moves down it.
pub open spec fn conn_rank(st: ConnState) -> int {
    match st {
        ConnState::Init => 0,
        ConnState::TryOpen => 1,
        ConnState::Open => 2,
    }
}

/// What the store records of one connection end.
pub struct ConnView {
    pub state: ConnState,
    /// Index of the local client that tracks the counterparty.
    pub client: usize,
    /// Versions still on the table: the proposal, or the one chosen.
    pub versions: Seq<u64>,
    /// The negotiated version, once chosen.
    pub version: Option<u64>,
}

/// The first of `proposed` that `supported` holds.
pub open spec fn first_common(proposed: Seq<u64>, supported: Seq<u64>) -> Option<u64>
    decreases proposed.len(),
{
    if proposed.len() == 0 {
        None
    } else if supported.contains(proposed[0]) {
        Some(proposed[0])
    } else {
        first_common(proposed.drop_first(), supported)
    }
}

/// The store after Init: a new end in `Init` proposing `versions`.
pub open spec fn init_next(s: Seq<ConnView>, client: usize, versions: Seq<u64>) -> Seq<ConnView> {
    s.push(ConnView { state: ConnState::Init, client, versions, version: None })
}

/// The store after Try: a new end in `TryOpen` with the first of the
/// counterparty's proposed versions that this chain supports.
pub open spec fn try_next(
    s: Seq<ConnView>,
    supported: Seq<u64>,
    client: usize,
    counterparty: Option<ConnState>,
    proposed: Seq<u64>,
    proof_ok: bool,
    self_client_ok: bool,
) -> Result<Seq<ConnView>, ConnectionError> {
    if counterparty != Some(ConnState::Init) {
        Err(ConnectionError::HandshakeState)
    } else if !proof_ok {
        Err(ConnectionError::ProofVerification)
    } else if !self_client_ok {
        Err(ConnectionError::SelfClientMismatch)
    } else {
        match first_common(proposed, supported) {
            None => Err(ConnectionError::VersionMismatch),
            Some(v) => Ok(
                s.push(
                    ConnView { state: ConnState::TryOpen, client, versions: seq![v], version: Some(v) },
                ),
            ),
        }
    }
}

/// The store after Ack on end `i`, adopting the counterparty's `version`.
pub open spec fn ack_next(
    s: Seq<ConnView>,
    i: int,
    version: u64,
    counterparty: Option<ConnState>,
    proof_ok: bool,
    self_client_ok: bool,
) -> Result<Seq<ConnView>, ConnectionError> {
    if !(0 <= i < s.len()) {
        Err(ConnectionError::ConnectionNotFound)
    } else if s[i].state != ConnState::Init || counterparty != Some(ConnState::TryOpen) {
        Err(ConnectionError::HandshakeState)
    } else if !proof_ok {
        Err(ConnectionError::ProofVerification)
    } else if !self_client_ok {
        Err(ConnectionError::SelfClientMismatch)
    } else if !s[i].versions.contains(version) {
        Err(ConnectionError::VersionMismatch)
    } else {
        Ok(
            s.update(
                i,
                ConnView {
                    state: ConnState::Open,
                    client: s[i].client,
                    versions: seq![version],
                    version: Some(version),
                },
            ),
        )
    }
}

/// The store after Confirm on end `i`.
pub open spec fn confirm_next(
    s: Seq<ConnView>,
    i: int,
    counterparty: Option<ConnState>,
    proof_ok: bool,
) -> Result<Seq<ConnView>, ConnectionError> {
    if !(0 <= i < s.len()) {
        Err(ConnectionError::ConnectionNotFound)
    } else if s[i].state != ConnState::TryOpen || counterparty != Some(ConnState::Open) {
        Err(ConnectionError::HandshakeState)
    } else if !proof_ok {
        Err(ConnectionError::ProofVerification)
    } else {
        Ok(
            s.update(
                i,
                ConnView {
                    state: ConnState::Open,
                    client: s[i].client,
                    versions: s[i].versions,
                    version: s[i].version,
                },
            ),
        )
    }
}

/// One connection end as stored.
pub struct ConnectionEnd {
    state: ConnState,
    client: usize,
    versions: Vec<u64>,
    version: Option<u64>,
}

impl ConnectionEnd {
    pub closed spec fn view_of(self) -> ConnView {
        ConnView {
            state: self.state,
            client: self.client,
            versions: self.versions@,
            version: self.version,
        }
    }
}

/// The host's connection ends, indexed by creation order, and the versions
/// this chain supports.
pub struct ConnectionStore {
    ends: Vec<ConnectionEnd>,
    supported: Vec<u64>,
}

impl View for ConnectionStore {
    type V = Seq<ConnView>;

    closed spec fn view(&self) -> Seq<ConnView> {
        self.ends@.map_values(|c: ConnectionEnd| c.view_of())
    }
}

fn contains_u64(v: &Vec<u64>, x: u64) -> (r: bool)
    ensures
        r == v@.contains(x),
{
    let mut i: usize = 0;
    while i < v.len()
        invariant
            0 <= i <= v@.len(),
            forall|j: int| 0 <= j < i ==> v@[j] != x,
        decreases v@.len() - i,
    {
        if v[i] == x {
            assert(v@[i as int] == x);
            return true;
        }
        i = i + 1;
    }
    false
}

/// The first of `proposed` that `supported` holds.
pub fn pick_version(proposed: &Vec<u64>, supported: &Vec<u64>) -> (r: Option<u64>)
    ensures
        r == first_common(proposed@, supported@),
{
    let mut i: usize = 0;
    assert(proposed@.subrange(0, proposed@.len() as int) =~= proposed@);
    while i < proposed.len()
        invariant
            0 <= i <= proposed@.len(),
            first_common(proposed@, supported@) == first_common(
                proposed@.subrange(i as int, proposed@.len() as int),
                supported@,
            ),
        decreases proposed@.len() - i,
    {
        let ghost rest = proposed@.subrange(i as int, proposed@.len() as int);
        assert(rest[0] == proposed@[i as int]);
        assert(rest.drop_first() =~= proposed@.subrange(i as int + 1, proposed@.len() as int));
        if contains_u64(supported, proposed[i]) {
            return Some(proposed[i]);
        }
        i = i + 1;
    }
    assert(proposed@.subrange(i as int, proposed@.len() as int) =~= Seq::<u64>::empty());
    None
}

impl ConnectionStore {
    pub closed spec fn supported_versions(self) -> Seq<u64> {
        self.supported@
    }

    /// An empty store for a chain that supports `supported`.
    pub fn new(supported: Vec<u64>) -> (r: ConnectionStore)
        ensures
            r@ == Seq::<ConnView>::empty(),
            r.supported_versions() == supported@,
    {
        let r = ConnectionStore { ends: Vec::new(), supported };
        assert(r@ =~= Seq::<ConnView>::empty());
        r
    }

    /// The number of connection ends.
    pub fn connection_count(&self) -> (r: usize)
        ensures
            r == self@.len(),
    {
        self.ends.len()
    }

    /// The handshake state of end `i`.
    pub fn state(&self, i: usize) -> (r: ConnState)
        requires
            i < self@.len(),
        ensures
            r == self@[i as int].state,
    {
        self.ends[i].state
    }

    /// The negotiated version of end `i`, once chosen.
    pub fn version(&self, i: usize) -> (r: Option<u64>)
        requires
            i < self@.len(),
        ensures
            r == self@[i as int].version,
    {
        self.ends[i].version
    }

    /// Init: opens a new end in `Init` on `client`, proposing `versions`;
    /// returns its index.
    pub fn conn_open_init(&mut self, client: usize, versions: Vec<u64>) -> (r: usize)
        ensures
            final(self)@ == init_next(old(self)@, client, versions@),
            final(self).supported_versions() == old(self).supported_versions(),
            r == old(self)@.len(),
    {
        let ghost old_view = self@;
        let r = self.ends.len();
        self.ends.push(ConnectionEnd { state: ConnState::Init, client, versions, version: None });
        assert(self@ =~= init_next(old_view, client, versions@));
        r
    }

    /// Try: on a verified proof of the counterparty's `Init` end proposing
    /// `proposed`, opens a new end in `TryOpen`; returns its index.
    pub fn conn_open_try(
        &mut self,
        client: usize,
        counterparty: Option<ConnState>,
        proposed: &Vec<u64>,
        proof_valid: bool,
        self_client_valid: bool,
    ) -> (r: Result<usize, ConnectionError>)
        ensures
            final(self).supported_versions() == old(self).supported_versions(),
            match try_next(
                old(self)@,
                old(self).supported_versions(),
                client,
                counterparty,
                proposed@,
                proof_valid,
                self_client_valid,
            ) {
                Ok(s) => final(self)@ == s && r == Ok::<usize, ConnectionError>(old(self)@.len() as usize),
                Err(e) => r == Err::<usize, ConnectionError>(e) && final(self)@ == old(self)@,
            },
    {
        if counterparty != Some(ConnState::Init) {
            return Err(ConnectionError::HandshakeState);
        }
        if !proof_valid {
            return Err(ConnectionError::ProofVerification);
        }
        if !self_client_valid {
            return Err(ConnectionError::SelfClientMismatch);
        }
        let v = match pick_version(proposed, &self.supported) {
            Some(v) => v,
            None => {
                return Err(ConnectionError::VersionMismatch);
            },
        };
        let ghost old_view = self@;
        let r = self.ends.len();
        let mut versions = Vec::new();
        versions.push(v);
        self.ends.push(ConnectionEnd { state: ConnState::TryOpen, client, versions, version: Some(v) });
        assert(versions@ =~= seq![v]);
        assert(self@ =~= try_next(
            old_view,
            self.supported@,
            client,
            counterparty,
            proposed@,
            proof_valid,
            self_client_valid,
        )->Ok_0);
        Ok(r)
    }

    /// Ack: on a verified proof of the counterparty's `TryOpen` end that chose
    /// `version`, moves end `i` from `Init` to `Open`.
    pub fn conn_open_ack(
        &mut self,
        i: usize,
        version: u64,
        counterparty: Option<ConnState>,
        proof_valid: bool,
        self_client_valid: bool,
    ) -> (r: Result<(), ConnectionError>)
        ensures
            final(self).supported_versions() == old(self).supported_versions(),
            match ack_next(old(self)@, i as int, version, counterparty, proof_valid, self_client_valid) {
                Ok(s) => final(self)@ == s && r is Ok,
                Err(e) => r == Err::<(), ConnectionError>(e) && final(self)@ == old(self)@,
            },
    {
        if i >= self.ends.len() {
            return Err(ConnectionError::ConnectionNotFound);
        }
        if self.ends[i].state != ConnState::Init || counterparty != Some(ConnState::TryOpen) {
            return Err(ConnectionError::HandshakeState);
        }
        if !proof_valid {
            return Err(ConnectionError::ProofVerification);
        }
        if !self_client_valid {
            return Err(ConnectionError::SelfClientMismatch);
        }
        if !contains_u64(&self.ends[i].versions, version) {
            return Err(ConnectionError::VersionMismatch);
        }
        let ghost old_view = self@;
        let mut versions = Vec::new();
        versions.push(version);
        let client = self.ends[i].client;
        self.ends.set(i, ConnectionEnd { state: ConnState::Open, client, versions, version: Some(version) });
        assert(versions@ =~= seq![version]);
        assert(self@ =~= ack_next(old_view, i as int, version, counterparty, proof_valid, self_client_valid)->Ok_0);
        Ok(())
    }

    /// Confirm: on a verified proof of the counterparty's `Open` end, moves
    /// end `i` from `TryOpen` to `Open`.
    pub fn conn_open_confirm(
        &mut self,
        i: usize,
        counterparty: Option<ConnState>,
        proof_valid: bool,
    ) -> (r: Result<(), ConnectionError>)
        ensures
            final(self).supported_versions() == old(self).supported_versions(),
            match confirm_next(old(self)@, i as int, counterparty, proof_valid) {
                Ok(s) => final(self)@ == s && r is Ok,
                Err(e) => r == Err::<(), ConnectionError>(e) && final(self)@ == old(self)@,
            },
    {
        if i >= self.ends.len() {
            return Err(ConnectionError::ConnectionNotFound);
        }
        if self.ends[i].state != ConnState::TryOpen || counterparty != Some(ConnState::Open) {
            return Err(ConnectionError::HandshakeState);
        }
        if !proof_valid {
            return Err(ConnectionError::ProofVerification);
        }
        let ghost old_view = self@;
        self.ends[i].state = ConnState::Open;
        assert(self@ =~= confirm_next(old_view, i as int, counterparty, proof_valid)->Ok_0);
        Ok(())
    }

    /// Try, with the proof of the counterparty's record checked through
    /// `client` in `clients` at `proof_height`: it fails closed when the
    /// client is unknown or frozen or holds no consensus state there.
    pub fn conn_open_try_proven(
        &mut self,
        clients: &ClientStore,
        client: usize,
        counterparty: Option<ConnState>,
        proposed: &Vec<u64>,
        proof_height: &Height,
        proof_verdict: bool,
        self_client_valid: bool,
    ) -> (r: Result<usize, ConnectionError>)
        ensures
            final(self).supported_versions() == old(self).supported_versions(),
            match try_next(
                old(self)@,
                old(self).supported_versions(),
                client,
                counterparty,
                proposed@,
                verify_spec(clients@, client as int, proof_height@, proof_verdict) is Ok,
                self_client_valid,
            ) {
                Ok(s) => final(self)@ == s && r == Ok::<usize, ConnectionError>(old(self)@.len() as usize),
                Err(e) => r == Err::<usize, ConnectionError>(e) && final(self)@ == old(self)@,
            },
    {
        let proven = clients.verify_proof(client, proof_height, proof_verdict).is_ok();
        self.conn_open_try(client, counterparty, proposed, proven, self_client_valid)
    }

    /// Ack, with the proof checked through end `i`'s client in `clients` at
    /// `proof_height`.
    pub fn conn_open_ack_proven(
        &mut self,
        i: usize,
        version: u64,
        counterparty: Option<ConnState>,
        clients: &ClientStore,
        proof_height: &Height,
        proof_verdict: bool,
        self_client_valid: bool,
    ) -> (r: Result<(), ConnectionError>)
        ensures
            final(self).supported_versions() == old(self).supported_versions(),
            match ack_next(
                old(self)@,
                i as int,
                version,
                counterparty,
                end_proof_ok(old(self)@, clients@, i as int, proof_height@, proof_verdict),
                self_client_valid,
            ) {
                Ok(s) => final(self)@ == s && r is Ok,
                Err(e) => r == Err::<(), ConnectionError>(e) && final(self)@ == old(self)@,
            },
    {
        let proven = i < self.ends.len() && clients.verify_proof(
            self.ends[i].client,
            proof_height,
            proof_verdict,
        ).is_ok();
        self.conn_open_ack(i, version, counterparty, proven, self_client_valid)
    }

    /// Confirm, with the proof checked through end `i`'s client in `clients`
    /// at `proof_height`.
    pub fn conn_open_confirm_proven(
        &mut self,
        i: usize,
        counterparty: Option<ConnState>,
        clients: &ClientStore,
        proof_height: &Height,
        proof_verdict: bool,
    ) -> (r: Result<(), ConnectionError>)
        ensures
            final(self).supported_versions() == old(self).supported_versions(),
            match confirm_next(
                old(self)@,
                i as int,
                counterparty,
                end_proof_ok(old(self)@, clients@, i as int, proof_height@, proof_verdict),
            ) {
                Ok(s) => final(self)@ == s && r is Ok,
                Err(e) => r == Err::<(), ConnectionError>(e) && final(self)@ == old(self)@,
            },
    {
        let proven = i < self.ends.len() && clients.verify_proof(
            self.ends[i].client,
            proof_height,
            proof_verdict,
        ).is_ok();
        self.conn_open_confirm(i, counterparty, proven)
    }
}

/// Whether the proof for a step on end `i` verifies through the end's client:
/// the end exists and its client accepts the proof at `h` (see `verify_spec`).
pub open spec fn end_proof_ok(
    s: Seq<ConnView>,
    clients: Seq<ClientView>,
    i: int,
    h: (u64, u64),
    verdict: bool,
) -> bool {
    0 <= i < s.len() && verify_spec(clients, s[i].client as int, h, verdict) is Ok
}

/// Handshake states never regress. A new end starts in `Init` (Init) or
/// `TryOpen` (Try, only against a counterparty proven in `Init`), never
/// `Open`. An end becomes `Open` only by Ack from `Init` against a
/// counterparty proven in `TryOpen`, or by Confirm from `TryOpen` against a
/// counterparty proven `Open`. An Ack on an end not in `Init`, or before the
/// counterparty's Try record exists, fails with `HandshakeState`; so does a
/// Confirm on an end not in `TryOpen` or before the counterparty is `Open`.
pub proof fn lemma_handshake_order(s: Seq<ConnView>, i: int)
    requires
        0 <= i < s.len(),
    ensures
        forall|c: usize, v: Seq<u64>| #[trigger] init_next(s, c, v)[i] == s[i] && init_next(
            s,
            c,
            v,
        ).last().state == ConnState::Init,
        forall|sup: Seq<u64>, c: usize, cp: Option<ConnState>, v: Seq<u64>, p: bool, sc: bool|
            #[trigger] try_next(s, sup, c, cp, v, p, sc) matches Ok(s2) ==> s2[i] == s[i]
                && s2.last().state == ConnState::TryOpen && cp == Some(ConnState::Init),
        forall|j: int, v: u64, cp: Option<ConnState>, p: bool, sc: bool| #[trigger] ack_next(
            s,
            j,
            v,
            cp,
            p,
            sc,
        ) matches Ok(s2) ==> conn_rank(s2[i].state) >= conn_rank(s[i].state) && (s2[i].state
            == ConnState::Open && s[i].state != ConnState::Open ==> j == i && s[i].state
            == ConnState::Init && cp == Some(ConnState::TryOpen)),
        forall|j: int, cp: Option<ConnState>, p: bool| #[trigger] confirm_next(s, j, cp, p) matches Ok(
            s2,
        ) ==> conn_rank(s2[i].state) >= conn_rank(s[i].state) && (s2[i].state == ConnState::Open
            && s[i].state != ConnState::Open ==> j == i && s[i].state == ConnState::TryOpen && cp
            == Some(ConnState::Open)),
        forall|v: u64, cp: Option<ConnState>, p: bool, sc: bool| (s[i].state != ConnState::Init
            || cp != Some(ConnState::TryOpen)) ==> #[trigger] ack_next(s, i, v, cp, p, sc)
            == Err::<Seq<ConnView>, ConnectionError>(ConnectionError::HandshakeState),
        forall|cp: Option<ConnState>, p: bool| (s[i].state != ConnState::TryOpen || cp != Some(
            ConnState::Open,
        )) ==> #[trigger] confirm_next(s, i, cp, p) == Err::<Seq<ConnView>, ConnectionError>(
            ConnectionError::HandshakeState,
        ),
{
}

/// The version picked from a proposal is one of the proposal and one that is
/// supported.
pub proof fn lemma_first_common(proposed: Seq<u64>, supported: Seq<u64>)
    ensures
        first_common(proposed, supported) matches Some(v) ==> proposed.contains(v)
            && supported.contains(v),
    decreases proposed.len(),
{
    if proposed.len() > 0 && !supported.contains(proposed[0]) {
        lemma_first_common(proposed.drop_first(), supported);
        if let Some(v) = first_common(proposed.drop_first(), supported) {
            let k = choose|k: int| 0 <= k < proposed.drop_first().len() && proposed.drop_first()[k] == v;
            assert(proposed[k + 1] == v);
        }
    }
}

/// Init on one chain, Try on the other, then Ack and Confirm, each against
/// the counterparty's record as it then stands and with verified proofs, leave
/// both new ends `Open` with the same version: the first of the proposal that
/// the Try side supports.
pub proof fn lemma_handshake_completes(
    sa: Seq<ConnView>,
    sb: Seq<ConnView>,
    client_a: usize,
    client_b: usize,
    proposed: Seq<u64>,
    supported: Seq<u64>,
)
    requires
        first_common(proposed, supported) is Some,
    ensures
        ({
            let v = first_common(proposed, supported)->Some_0;
            let a1 = init_next(sa, client_a, proposed);
            let i = sa.len() as int;
            let j = sb.len() as int;
            &&& a1[i].state == ConnState::Init
            &&& try_next(sb, supported, client_b, Some(a1[i].state), proposed, true, true) matches Ok(
                b1,
            ) && {
                &&& b1[j].state == ConnState::TryOpen
                &&& ack_next(a1, i, v, Some(b1[j].state), true, true) matches Ok(a2) && {
                    &&& a2[i].state == ConnState::Open
                    &&& a2[i].version == Some(v)
                    &&& confirm_next(b1, j, Some(a2[i].state), true) matches Ok(b2) && b2[j].state
                        == ConnState::Open && b2[j].version == Some(v)
                }
            }
        }),
{
    lemma_first_common(proposed, supported);
}

} // verus!
