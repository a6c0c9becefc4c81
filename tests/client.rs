use ibc::client::{ClientError, ClientStore, ProofError};
use ibc::height::Height;
use ibc::identifier::{ClientType, IdentifierError};

fn h(era: u64, index: u64) -> Height {
    Height::new(era, index).unwrap()
}

fn store_with_client() -> ClientStore {
    let mut store = ClientStore::new();
    let ev = store.create_client(ClientType::new("07-tendermint").unwrap(), h(0, 5)).unwrap();
    assert_eq!(ev.client_id().as_str(), "07-tendermint-0");
    store
}

#[test]
fn create_client_assigns_counter_ids() {
    let mut store = store_with_client();
    let ev = store.create_client(ClientType::new("07-tendermint").unwrap(), h(0, 1)).unwrap();
    assert_eq!(ev.client_id().as_str(), "07-tendermint-1");
    assert_eq!(store.client_count(), 2);
    assert!(store.has_consensus_state(1, &h(0, 1)));
    let e = store.create_client(ClientType::new("mock").unwrap(), h(0, 1)).unwrap_err();
    assert_eq!(e, ClientError::Identifier(IdentifierError::InvalidLength));
    assert_eq!(store.client_count(), 2);
}

#[test]
fn update_client_advances_watermark() {
    let mut store = store_with_client();
    let ev = store.update_client(0, h(0, 7), vec![1, 2], true).unwrap();
    assert_eq!(ev.consensus_height().revision_height(), 7);
    assert_eq!(store.latest_height(0).revision_height(), 7);
    // An older header stores its consensus state but keeps the watermark.
    store.update_client(0, h(0, 6), vec![], true).unwrap();
    assert_eq!(store.latest_height(0).revision_height(), 7);
    assert!(store.has_consensus_state(0, &h(0, 6)));
    assert_eq!(
        store.update_client(0, h(0, 6), vec![], true).unwrap_err(),
        ClientError::ConsensusStateExists
    );
    assert_eq!(store.update_client(0, h(0, 9), vec![], false).unwrap_err(), ClientError::InvalidHeader);
    assert_eq!(store.update_client(3, h(0, 9), vec![], true).unwrap_err(), ClientError::UnknownClient);
}

#[test]
fn frozen_client_rejects_updates() {
    let mut store = store_with_client();
    assert_eq!(store.submit_misbehaviour(0, false).unwrap_err(), ClientError::InvalidMisbehaviour);
    assert!(!store.is_frozen(0));
    let ev = store.submit_misbehaviour(0, true).unwrap();
    assert_eq!(ev.client_id().as_str(), "07-tendermint-0");
    assert!(store.is_frozen(0));
    assert_eq!(store.update_client(0, h(0, 8), vec![], true).unwrap_err(), ClientError::Frozen);
    assert!(!store.has_consensus_state(0, &h(0, 8)));
    assert_eq!(store.latest_height(0).revision_height(), 5);
    assert_eq!(store.submit_misbehaviour(0, true).unwrap_err(), ClientError::Frozen);
    assert_eq!(store.check_proof_height(0, &h(0, 5)), Err(ClientError::Frozen));
}

#[test]
fn upgrade_client_once_per_plan() {
    let mut store = store_with_client();
    assert_eq!(
        store.upgrade_client(0, h(0, 100), h(1, 1), false).unwrap_err(),
        ClientError::InvalidUpgrade
    );
    assert_eq!(
        store.upgrade_client(0, h(0, 100), h(0, 4), true).unwrap_err(),
        ClientError::UpgradeHeightTooLow
    );
    let ev = store.upgrade_client(0, h(0, 100), h(1, 1), true).unwrap();
    assert_eq!(ev.consensus_height().revision_number(), 1);
    assert_eq!(store.latest_height(0).revision_number(), 1);
    assert_eq!(
        store.upgrade_client(0, h(0, 100), h(1, 2), true).unwrap_err(),
        ClientError::UpgradeAlreadyApplied
    );
}

#[test]
fn proof_height_gate() {
    let store = store_with_client();
    assert_eq!(store.check_proof_height(0, &h(0, 5)), Ok(()));
    assert_eq!(store.check_proof_height(0, &h(0, 6)), Err(ClientError::InvalidHeader));
    assert_eq!(store.check_proof_height(1, &h(0, 5)), Err(ClientError::UnknownClient));
}

#[test]
fn proof_verification_fails_closed() {
    let mut store = store_with_client();
    assert_eq!(store.verify_proof(0, &h(0, 5), true), Ok(()));
    assert_eq!(store.verify_proof(0, &h(0, 5), false), Err(ProofError::VerificationFailed));
    assert_eq!(
        store.verify_proof(0, &h(0, 9), true),
        Err(ProofError::Client(ClientError::InvalidHeader))
    );
    store.submit_misbehaviour(0, true).unwrap();
    assert_eq!(store.verify_proof(0, &h(0, 5), true), Err(ProofError::Client(ClientError::Frozen)));
}

#[test]
fn find_client_by_identifier() {
    let mut store = store_with_client();
    store.create_client(ClientType::new("07-tendermint").unwrap(), h(0, 1)).unwrap();
    let id = ibc::identifier::ClientId::from_text("07-tendermint-1").unwrap();
    assert_eq!(store.find_client(&id), Some(1));
    let missing = ibc::identifier::ClientId::from_text("07-tendermint-7").unwrap();
    assert_eq!(store.find_client(&missing), None);
}
