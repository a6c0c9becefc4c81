//! Client lifecycle: creation, update, misbehaviour freezing and upgrade of
//! the light clients a host chain keeps for its counterparties.
//!
//! The client-type-specific checks (header validation, misbehaviour
//! detection, upgrade proofs) belong to the light client; each operation here
//! takes the light client's verdict and decides what the store becomes.
use vstd::prelude::*;
use crate::height::{Height, height_lt};
use crate::identifier::{
    CLIENT_ID_MIN_LEN, ClientId, ClientType, ID_MAX_LEN, IdentifierError, client_id_text, id_check,
};
use crate::events::{ClientMisbehaviour, CreateClient, UpdateClient, UpgradeClient};

verus! {

/// Reasons a client operation is refused.
#[derive(Clone, Copy, Debug, PartialEq, Eq, Structural)]
pub enum ClientError {
    /// No client is stored under the given index.
    UnknownClient,
    /// The client was frozen by misbehaviour evidence.
    Frozen,
    /// The light client rejected the header.
    InvalidHeader,
    /// A consensus state is already stored at the header's height.
    ConsensusStateExists,
    /// The light client found no misbehaviour in the evidence.
    InvalidMisbehaviour,
    /// The light client rejected the upgrade proof.
    InvalidUpgrade,
    /// The upgrade plan was already applied to this client.
    UpgradeAlreadyApplied,
    /// The upgraded height is not past the client's latest height.
    UpgradeHeightTooLow,
    /// The client's identifier would be malformed.
    Identifier(IdentifierError),
}

/// What the store records of one client.
pub struct ClientView {
    pub client_id: Seq<char>,
    pub client_type: Seq<char>,
    /// The latest-height watermark.
    pub latest: (u64, u64),
    pub frozen: bool,
    /// Heights at which consensus states are stored, in the order stored.
    pub consensus: Seq<(u64, u64)>,
    /// Heights of the upgrade plans applied.
    pub plans: Seq<(u64, u64)>,
}

/// The later of two heights.
pub open spec fn max_height(a: (u64, u64), b: (u64, u64)) -> (u64, u64) {
    if height_lt(a, b) {
        b
    } else {
        a
    }
}

/// The store after creating a client of `client_type` at `height`.
pub open spec fn create_next(s: Seq<ClientView>, client_type: Seq<char>, height: (u64, u64)) -> Result<
    Seq<ClientView>,
    ClientError,
> {
    let id = client_id_text(client_type, s.len() as u64);
    if let Err(e) = id_check(id, CLIENT_ID_MIN_LEN as nat, ID_MAX_LEN as nat) {
        Err(ClientError::Identifier(e))
    } else {
        Ok(
            s.push(
                ClientView {
                    client_id: id,
                    client_type,
                    latest: height,
                    frozen: false,
                    consensus: seq![height],
                    plans: Seq::empty(),
                },
            ),
        )
    }
}

/// The store after an update of client `i` with a header at `h` that the
/// light client judged `header_ok`.
pub open spec fn update_next(s: Seq<ClientView>, i: int, h: (u64, u64), header_ok: bool) -> Result<
    Seq<ClientView>,
    ClientError,
> {
    if !(0 <= i < s.len()) {
        Err(ClientError::UnknownClient)
    } else if s[i].frozen {
        Err(ClientError::Frozen)
    } else if !header_ok {
        Err(ClientError::InvalidHeader)
    } else if s[i].consensus.contains(h) {
        Err(ClientError::ConsensusStateExists)
    } else {
        Ok(
            s.update(
                i,
                ClientView {
                    client_id: s[i].client_id,
                    client_type: s[i].client_type,
                    latest: max_height(s[i].latest, h),
                    frozen: false,
                    consensus: s[i].consensus.push(h),
                    plans: s[i].plans,
                },
            ),
        )
    }
}

/// The store after misbehaviour evidence against client `i` that the light
/// client judged `detected`.
pub open spec fn misbehaviour_next(s: Seq<ClientView>, i: int, detected: bool) -> Result<
    Seq<ClientView>,
    ClientError,
> {
    if !(0 <= i < s.len()) {
        Err(ClientError::UnknownClient)
    } else if s[i].frozen {
        Err(ClientError::Frozen)
    } else if !detected {
        Err(ClientError::InvalidMisbehaviour)
    } else {
        Ok(
            s.update(
                i,
                ClientView {
                    client_id: s[i].client_id,
                    client_type: s[i].client_type,
                    latest: s[i].latest,
                    frozen: true,
                    consensus: s[i].consensus,
                    plans: s[i].plans,
                },
            ),
        )
    }
}

/// The store after upgrading client `i` under the plan at `plan` to a state
/// at `h`, with an upgrade proof the light client judged `proof_ok`.
pub open spec fn upgrade_next(
    s: Seq<ClientView>,
    i: int,
    plan: (u64, u64),
    h: (u64, u64),
    proof_ok: bool,
) -> Result<Seq<ClientView>, ClientError> {
    if !(0 <= i < s.len()) {
        Err(ClientError::UnknownClient)
    } else if s[i].frozen {
        Err(ClientError::Frozen)
    } else if !proof_ok {
        Err(ClientError::InvalidUpgrade)
    } else if s[i].plans.contains(plan) {
        Err(ClientError::UpgradeAlreadyApplied)
    } else if !height_lt(s[i].latest, h) {
        Err(ClientError::UpgradeHeightTooLow)
    } else {
        Ok(
            s.update(
                i,
                ClientView {
                    client_id: s[i].client_id,
                    client_type: s[i].client_type,
                    latest: h,
                    frozen: false,
                    consensus: s[i].consensus.push(h),
                    plans: s[i].plans.push(plan),
                },
            ),
        )
    }
}

/// Whether client `i` may serve proof verification at `h`: it exists, is
/// not frozen, and has a consensus state stored at `h`.
pub open spec fn proof_gate(s: Seq<ClientView>, i: int, h: (u64, u64)) -> Result<(), ClientError> {
    if !(0 <= i < s.len()) {
        Err(ClientError::UnknownClient)
    } else if s[i].frozen {
        Err(ClientError::Frozen)
    } else if !s[i].consensus.contains(h) {
        Err(ClientError::InvalidHeader)
    } else {
        Ok(())
    }
}

/// Reasons a membership or non-membership proof is refused.
#[derive(Clone, Copy, Debug, PartialEq, Eq, Structural)]
pub enum ProofError {
    /// The client cannot serve verification at that height.
    Client(ClientError),
    /// The light client found the proof invalid.
    VerificationFailed,
}

/// The outcome of verifying a proof against client `i` at `h`, given the
/// light client's verdict on the proof itself.
pub open spec fn verify_spec(s: Seq<ClientView>, i: int, h: (u64, u64), verdict: bool) -> Result<(), ProofError> {
    match proof_gate(s, i, h) {
        Err(e) => Err(ProofError::Client(e)),
        Ok(()) => if verdict {
            Ok(())
        } else {
            Err(ProofError::VerificationFailed)
        },
    }
}

/// One client as stored.
pub struct ClientState {
    client_id: ClientId,
    client_type: ClientType,
    latest_height: Height,
    frozen: bool,
    consensus_heights: Vec<Height>,
    applied_plans: Vec<Height>,
}

impl ClientState {
    pub closed spec fn view_of(self) -> ClientView {
        ClientView {
            client_id: self.client_id@,
            client_type: self.client_type@,
            latest: self.latest_height@,
            frozen: self.frozen,
            consensus: self.consensus_heights@.map_values(|h: Height| h@),
            plans: self.applied_plans@.map_values(|h: Height| h@),
        }
    }
}

/// The host's store of clients; the client with index `i` was the `i`-th created.
pub struct ClientStore {
    clients: Vec<ClientState>,
}

impl View for ClientStore {
    type V = Seq<ClientView>;

    closed spec fn view(&self) -> Seq<ClientView> {
        self.clients@.map_values(|c: ClientState| c.view_of())
    }
}

/// Whether `h` is among `hs`.
fn contains_height(hs: &Vec<Height>, h: &Height) -> (r: bool)
    ensures
        r == hs@.map_values(|x: Height| x@).contains(h@),
{
    let ghost views = hs@.map_values(|x: Height| x@);
    let mut i: usize = 0;
    while i < hs.len()
        invariant
            0 <= i <= hs@.len(),
            views == hs@.map_values(|x: Height| x@),
            forall|j: int| 0 <= j < i ==> views[j] != h@,
        decreases hs@.len() - i,
    {
        if hs[i].same(h) {
            assert(views[i as int] == h@);
            return true;
        }
        i = i + 1;
    }
    proof {
        if views.contains(h@) {
            let k = choose|k: int| 0 <= k < views.len() && views[k] == h@;
            assert(views[k] != h@);
        }
    }
    false
}

impl ClientStore {
    /// An empty store.
    pub fn new() -> (r: ClientStore)
        ensures
            r@ == Seq::<ClientView>::empty(),
    {
        let r = ClientStore { clients: Vec::new() };
        assert(r@ =~= Seq::<ClientView>::empty());
        r
    }

    /// The number of clients created.
    pub fn client_count(&self) -> (r: usize)
        ensures
            r == self@.len(),
    {
        self.clients.len()
    }

    /// The index of the client identified by `id`, if any.
    pub fn find_client(&self, id: &ClientId) -> (r: Option<usize>)
        ensures
            match r {
                Some(i) => i < self@.len() && self@[i as int].client_id == id@,
                None => forall|i: int| 0 <= i < self@.len() ==> #[trigger] self@[i].client_id != id@,
            },
    {
        let mut i: usize = 0;
        while i < self.clients.len()
            invariant
                0 <= i <= self@.len(),
                self@.len() == self.clients@.len(),
                forall|j: int| 0 <= j < i ==> #[trigger] self@[j].client_id != id@,
            decreases self.clients@.len() - i,
        {
            if self.clients[i].client_id.same(id) {
                return Some(i);
            }
            i = i + 1;
        }
        None
    }

    /// Whether client `i` is frozen.
    pub fn is_frozen(&self, i: usize) -> (r: bool)
        requires
            i < self@.len(),
        ensures
            r == self@[i as int].frozen,
    {
        self.clients[i].frozen
    }

    /// The latest-height watermark of client `i`.
    pub fn latest_height(&self, i: usize) -> (r: Height)
        requires
            i < self@.len(),
        ensures
            r@ == self@[i as int].latest,
    {
        self.clients[i].latest_height
    }

    /// Whether client `i` holds a consensus state at `h`.
    pub fn has_consensus_state(&self, i: usize, h: &Height) -> (r: bool)
        requires
            i < self@.len(),
        ensures
            r == self@[i as int].consensus.contains(h@),
    {
        contains_height(&self.clients[i].consensus_heights, h)
    }

    /// Creates a client of `client_type` whose initial consensus state is at
    /// `height`; its identifier is `"<type>-<index>"`.
    pub fn create_client(&mut self, client_type: ClientType, height: Height) -> (r: Result<
        CreateClient,
        ClientError,
    >)
        ensures
            match create_next(old(self)@, client_type@, height@) {
                Ok(s) => final(self)@ == s && (r matches Ok(ev) && ev.client_id_view()
                    == s.last().client_id && ev.client_type_view() == client_type@
                    && ev.consensus_height_view() == height@),
                Err(e) => r == Err::<CreateClient, ClientError>(e) && final(self)@ == old(self)@,
            },
    {
        let id = match ClientId::new(client_type.clone(), self.clients.len() as u64) {
            Ok(id) => id,
            Err(e) => {
                return Err(ClientError::Identifier(e));
            },
        };
        let ghost old_view = self@;
        let mut consensus_heights = Vec::new();
        consensus_heights.push(height);
        let state = ClientState {
            client_id: id.clone(),
            client_type: client_type.clone(),
            latest_height: height,
            frozen: false,
            consensus_heights,
            applied_plans: Vec::new(),
        };
        self.clients.push(state);
        proof {
            let v = state.view_of();
            assert(v.consensus =~= seq![height@]);
            assert(v.plans =~= Seq::<(u64, u64)>::empty());
            assert(self@ =~= old_view.push(v));
        }
        Ok(CreateClient::new(id, client_type, height))
    }

    /// Stores a consensus state at `height` for client `client`, whose header
    /// the light client judged `header_valid`, and advances the watermark.
    pub fn update_client(
        &mut self,
        client: usize,
        height: Height,
        header: Vec<u8>,
        header_valid: bool,
    ) -> (r: Result<UpdateClient, ClientError>)
        ensures
            match update_next(old(self)@, client as int, height@, header_valid) {
                Ok(s) => final(self)@ == s && (r matches Ok(ev) && ev.client_id_view()
                    == s[client as int].client_id && ev.client_type_view() == s[client as int].client_type
                    && ev.consensus_height_view() == height@ && ev.consensus_heights_view()
                    == seq![height@] && ev.header_view() == header@),
                Err(e) => r == Err::<UpdateClient, ClientError>(e) && final(self)@ == old(self)@,
            },
    {
        if client >= self.clients.len() {
            return Err(ClientError::UnknownClient);
        }
        if self.clients[client].frozen {
            return Err(ClientError::Frozen);
        }
        if !header_valid {
            return Err(ClientError::InvalidHeader);
        }
        if contains_height(&self.clients[client].consensus_heights, &height) {
            return Err(ClientError::ConsensusStateExists);
        }
        let ghost old_view = self@;
        let ghost old_c = self.clients@[client as int];
        let latest = if self.clients[client].latest_height.lt(&height) {
            height
        } else {
            self.clients[client].latest_height
        };
        self.clients[client].latest_height = latest;
        self.clients[client].consensus_heights.push(height);
        proof {
            let c = self.clients@[client as int];
            assert(c.consensus_heights@.map_values(|h: Height| h@) =~= old_c.consensus_heights@.map_values(
                |h: Height| h@,
            ).push(height@));
            assert(self@ =~= update_next(old_view, client as int, height@, header_valid)->Ok_0);
        }
        let mut heights = Vec::new();
        heights.push(height);
        let ev = UpdateClient::new(
            self.clients[client].client_id.clone(),
            self.clients[client].client_type.clone(),
            height,
            heights,
            header,
        );
        assert(heights@.map_values(|h: Height| h@) =~= seq![height@]);
        Ok(ev)
    }

    /// Freezes client `client` on misbehaviour evidence that the light client
    /// judged `detected`.
    pub fn submit_misbehaviour(&mut self, client: usize, detected: bool) -> (r: Result<
        ClientMisbehaviour,
        ClientError,
    >)
        ensures
            match misbehaviour_next(old(self)@, client as int, detected) {
                Ok(s) => final(self)@ == s && (r matches Ok(ev) && ev.client_id_view()
                    == s[client as int].client_id && ev.client_type_view() == s[client as int].client_type),
                Err(e) => r == Err::<ClientMisbehaviour, ClientError>(e) && final(self)@ == old(self)@,
            },
    {
        if client >= self.clients.len() {
            return Err(ClientError::UnknownClient);
        }
        if self.clients[client].frozen {
            return Err(ClientError::Frozen);
        }
        if !detected {
            return Err(ClientError::InvalidMisbehaviour);
        }
        let ghost old_view = self@;
        self.clients[client].frozen = true;
        assert(self@ =~= misbehaviour_next(old_view, client as int, detected)->Ok_0);
        Ok(
            ClientMisbehaviour::new(
                self.clients[client].client_id.clone(),
                self.clients[client].client_type.clone(),
            ),
        )
    }

    /// Upgrades client `client` under the plan at `plan` to a state at
    /// `height`, with an upgrade proof the light client judged `proof_valid`.
    pub fn upgrade_client(
        &mut self,
        client: usize,
        plan: Height,
        height: Height,
        proof_valid: bool,
    ) -> (r: Result<UpgradeClient, ClientError>)
        ensures
            match upgrade_next(old(self)@, client as int, plan@, height@, proof_valid) {
                Ok(s) => final(self)@ == s && (r matches Ok(ev) && ev.client_id_view()
                    == s[client as int].client_id && ev.client_type_view() == s[client as int].client_type
                    && ev.consensus_height_view() == height@),
                Err(e) => r == Err::<UpgradeClient, ClientError>(e) && final(self)@ == old(self)@,
            },
    {
        if client >= self.clients.len() {
            return Err(ClientError::UnknownClient);
        }
        if self.clients[client].frozen {
            return Err(ClientError::Frozen);
        }
        if !proof_valid {
            return Err(ClientError::InvalidUpgrade);
        }
        if contains_height(&self.clients[client].applied_plans, &plan) {
            return Err(ClientError::UpgradeAlreadyApplied);
        }
        if !self.clients[client].latest_height.lt(&height) {
            return Err(ClientError::UpgradeHeightTooLow);
        }
        let ghost old_view = self@;
        let ghost old_c = self.clients@[client as int];
        self.clients[client].latest_height = height;
        self.clients[client].consensus_heights.push(height);
        self.clients[client].applied_plans.push(plan);
        proof {
            let c = self.clients@[client as int];
            assert(c.consensus_heights@.map_values(|h: Height| h@) =~= old_c.consensus_heights@.map_values(
                |h: Height| h@,
            ).push(height@));
            assert(c.applied_plans@.map_values(|h: Height| h@) =~= old_c.applied_plans@.map_values(
                |h: Height| h@,
            ).push(plan@));
            assert(self@ =~= upgrade_next(old_view, client as int, plan@, height@, proof_valid)->Ok_0);
        }
        Ok(
            UpgradeClient::new(
                self.clients[client].client_id.clone(),
                self.clients[client].client_type.clone(),
                height,
            ),
        )
    }

    /// Checks that client `client` may serve proof verification at `height`:
    /// it exists, is not frozen, and holds a consensus state there.
    pub fn check_proof_height(&self, client: usize, height: &Height) -> (r: Result<(), ClientError>)
        ensures
            r == proof_gate(self@, client as int, height@),
    {
        if client >= self.clients.len() {
            return Err(ClientError::UnknownClient);
        }
        if self.clients[client].frozen {
            return Err(ClientError::Frozen);
        }
        if !contains_height(&self.clients[client].consensus_heights, height) {
            return Err(ClientError::InvalidHeader);
        }
        Ok(())
    }

    /// Verifies a membership or non-membership proof against the consensus
    /// state of client `client` at `height`, given the light client's verdict
    /// on the proof. It fails closed: an unknown or frozen client, or a height
    /// with no stored consensus state, refuses whatever the verdict.
    pub fn verify_proof(&self, client: usize, height: &Height, verdict: bool) -> (r: Result<(), ProofError>)
        ensures
            r == verify_spec(self@, client as int, height@, verdict),
    {
        match self.check_proof_height(client, height) {
            Err(e) => Err(ProofError::Client(e)),
            Ok(()) => if verdict {
                Ok(())
            } else {
                Err(ProofError::VerificationFailed)
            },
        }
    }
}

/// Accepted misbehaviour evidence freezes the client, and every update of a
/// frozen client fails with `Frozen`, leaving the store unchanged.
pub proof fn lemma_misbehaviour_blocks_updates(
    s: Seq<ClientView>,
    i: int,
    s1: Seq<ClientView>,
)
    requires
        misbehaviour_next(s, i, true) == Ok::<Seq<ClientView>, ClientError>(s1),
    ensures
        s1[i].frozen,
        forall|h: (u64, u64), ok: bool| #[trigger]
            update_next(s1, i, h, ok) == Err::<Seq<ClientView>, ClientError>(ClientError::Frozen),
{
}

/// A frozen client stays frozen through every client operation, on any client.
pub proof fn lemma_frozen_is_permanent(s: Seq<ClientView>, i: int)
    requires
        0 <= i < s.len(),
        s[i].frozen,
    ensures
        forall|t: Seq<char>, h: (u64, u64)| #[trigger] create_next(s, t, h) matches Ok(s2)
            ==> s2[i].frozen,
        forall|j: int, h: (u64, u64), ok: bool| #[trigger] update_next(s, j, h, ok) matches Ok(
            s2,
        ) ==> s2[i].frozen,
        forall|j: int, ok: bool| #[trigger] misbehaviour_next(s, j, ok) matches Ok(s2)
            ==> s2[i].frozen,
        forall|j: int, p: (u64, u64), h: (u64, u64), ok: bool| #[trigger] upgrade_next(
            s,
            j,
            p,
            h,
            ok,
        ) matches Ok(s2) ==> s2[i].frozen,
{
}

} // verus!
