use ibc::height::Height;
use ibc::identifier::{ClientId, ConnectionId};
use ibc::path::StorePath;
use ibc::services::{ConnectionQueryServer, QueryContext, QueryErrorKind};

struct Host {
    height: Option<Height>,
    with_proofs: bool,
}

impl QueryContext for Host {
    type ConnectionEnd = String;
    type ClientState = u64;
    type ConsensusState = u64;

    fn connection_end(&self, connection: &ConnectionId) -> Option<String> {
        if connection.as_str() == "connection-0" {
            Some("end-0".to_string())
        } else {
            None
        }
    }

    fn connection_ends(&self) -> Option<Vec<String>> {
        Some(vec!["end-0".to_string()])
    }

    fn client_connection_ends(&self, client: &ClientId) -> Option<Vec<ConnectionId>> {
        if client.as_str() == "07-tendermint-0" {
            Some(vec![ConnectionId::from_text("connection-0").unwrap()])
        } else {
            None
        }
    }

    fn connection_client_id(&self, _end: &String) -> ClientId {
        ClientId::from_text("07-tendermint-0").unwrap()
    }

    fn client_state(&self, _client: &ClientId) -> Option<u64> {
        Some(11)
    }

    fn consensus_state(&self, _client: &ClientId, height: &Height) -> Option<u64> {
        if height.revision_height() == 5 {
            Some(22)
        } else {
            None
        }
    }

    fn host_height(&self) -> Option<Height> {
        self.height
    }

    fn get_proof(&self, _height: &Height, path: &StorePath) -> Option<Vec<u8>> {
        if self.with_proofs {
            Some(path.to_text().into_bytes())
        } else {
            None
        }
    }

    fn max_expected_time_per_block_secs(&self) -> u64 {
        30
    }
}

fn server() -> ConnectionQueryServer<Host> {
    ConnectionQueryServer::new(Host { height: Some(Height::new(0, 40).unwrap()), with_proofs: true })
}

#[test]
fn query_connection() {
    let r = server().connection("connection-0").ok().unwrap();
    assert_eq!(r.connection, "end-0");
    assert_eq!(r.proof, b"connections/connection-0".to_vec());
    assert_eq!(r.proof_height.revision_height(), 40);
    let e = server().connection("bad").err().unwrap();
    assert_eq!(e.kind, QueryErrorKind::InvalidArgument);
    assert_eq!(e.message, "Invalid connection id: bad");
    let e = server().connection("connection-9").err().unwrap();
    assert_eq!(e.kind, QueryErrorKind::NotFound);
    assert_eq!(e.message, "Connection end not found for connection connection-9");
}

#[test]
fn query_connection_without_height_or_proof() {
    let s = ConnectionQueryServer::new(Host { height: None, with_proofs: true });
    let e = s.connection("connection-0").err().unwrap();
    assert_eq!(e.message, "Current height not found");
    let s = ConnectionQueryServer::new(Host { height: Some(Height::new(0, 1).unwrap()), with_proofs: false });
    let e = s.connection("connection-0").err().unwrap();
    assert_eq!(e.message, "Proof not found for connection path connection-0");
}

#[test]
fn query_connections_and_params() {
    let r = server().connections().ok().unwrap();
    assert_eq!(r.connections, vec!["end-0".to_string()]);
    assert_eq!(r.height.revision_height(), 40);
    assert_eq!(server().connection_params().max_expected_time_per_block, 30);
}

#[test]
fn query_client_connections() {
    let r = server().client_connections("07-tendermint-0").ok().unwrap();
    assert_eq!(r.connection_paths.len(), 1);
    assert_eq!(r.connection_paths[0].as_str(), "connection-0");
    assert_eq!(r.proof, b"clients/07-tendermint-0/connections".to_vec());
    let e = server().client_connections("x").err().unwrap();
    assert_eq!(e.message, "Invalid client id: x");
    let e = server().client_connections("07-tendermint-1").err().unwrap();
    assert_eq!(e.message, "Connections not found");
}

#[test]
fn query_connection_client_state() {
    let r = server().connection_client_state("connection-0").ok().unwrap();
    assert_eq!(r.client_id.as_str(), "07-tendermint-0");
    assert_eq!(r.client_state, 11);
    assert_eq!(r.proof, b"clients/07-tendermint-0/clientState".to_vec());
}

#[test]
fn query_connection_consensus_state() {
    let r = server().connection_consensus_state("connection-0", 0, 5).ok().unwrap();
    assert_eq!(r.consensus_state, 22);
    assert_eq!(r.client_id.as_str(), "07-tendermint-0");
    assert_eq!(r.proof, b"clients/07-tendermint-0/consensusStates/0-5".to_vec());
    let e = server().connection_consensus_state("connection-0", 3, 0).err().unwrap();
    assert_eq!(e.kind, QueryErrorKind::InvalidArgument);
    assert_eq!(e.message, "Invalid height: 3-0");
    let e = server().connection_consensus_state("connection-0", 0, 6).err().unwrap();
    assert_eq!(e.message, "Consensus state not found for connection connection-0");
}
