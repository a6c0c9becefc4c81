use ibc::identifier::{ClientId, ClientType, ConnectionId, IdentifierError};

#[test]
fn client_type_validation() {
    assert_eq!(ClientType::new("07-tendermint").unwrap().as_str(), "07-tendermint");
    assert_eq!(ClientType::new("").unwrap_err(), IdentifierError::InvalidLength);
    assert_eq!(ClientType::new("bad/type").unwrap_err(), IdentifierError::InvalidCharacter);
    assert_eq!(ClientType::new(&"a".repeat(65)).unwrap_err(), IdentifierError::InvalidLength);
}

#[test]
fn client_id_from_type_and_counter() {
    let t = ClientType::new("07-tendermint").unwrap();
    assert_eq!(ClientId::new(t.clone(), 0).unwrap().as_str(), "07-tendermint-0");
    assert_eq!(ClientId::new(t, 42).unwrap().as_str(), "07-tendermint-42");
    let short = ClientType::new("mock").unwrap();
    assert_eq!(ClientId::new(short, 1).unwrap_err(), IdentifierError::InvalidLength);
}

#[test]
fn connection_id_validation() {
    assert_eq!(ConnectionId::from_text("connection-0").unwrap().as_str(), "connection-0");
    assert_eq!(ConnectionId::from_text("conn-0").unwrap_err(), IdentifierError::InvalidLength);
    assert_eq!(
        ConnectionId::from_text("connection 0").unwrap_err(),
        IdentifierError::InvalidCharacter
    );
    assert!(ClientId::from_text("07-tendermint-0").is_ok());
    assert!(ClientId::from_text("07-tm").is_err());
}
