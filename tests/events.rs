use ibc::events::{
    ClientMisbehaviour, CreateClient, Event, UpdateClient, UpgradeClient, CLIENT_MISBEHAVIOUR_EVENT,
    CREATE_CLIENT_EVENT, UPDATE_CLIENT_EVENT, UPGRADE_CLIENT_EVENT,
};
use ibc::height::Height;
use ibc::identifier::{ClientId, ClientType};
use ibc_proto::google::protobuf::Any;
use ibc_proto::ibc::mock::Header as RawMockHeader;
use prost::Message;
use tendermint::abci::Event as AbciEvent;

fn to_abci(e: Event) -> AbciEvent {
    AbciEvent::new(e.kind, e.attributes.into_iter().map(|a| (a.key, a.value)))
}

fn mock_header_any(height: u64) -> Any {
    let mut header = RawMockHeader::default();
    let mut raw_height = header.height.clone().unwrap_or_default();
    raw_height.revision_number = 0;
    raw_height.revision_height = height;
    header.height = Some(raw_height);
    Any { type_url: "/ibc.mock.Header".to_string(), value: header.encode_to_vec() }
}

fn pairs(e: &Event) -> Vec<(String, String)> {
    e.attributes.iter().map(|a| (a.key.clone(), a.value.clone())).collect()
}

#[test]
fn ibc_to_abci_client_events() {
    struct Test {
        event_kind: &'static str,
        event: AbciEvent,
        expected_keys: Vec<&'static str>,
        expected_values: Vec<&'static str>,
    }

    let client_type = ClientType::new("07-tendermint")
        .expect("never fails because it's a valid client type");
    let client_id = ClientId::new(client_type.clone(), 0).unwrap();
    let consensus_height = Height::new(0, 5).unwrap();
    let consensus_heights = vec![Height::new(0, 5).unwrap(), Height::new(0, 7).unwrap()];
    let header: Any = mock_header_any(5);
    let expected_keys = vec![
        "client_id",
        "client_type",
        "consensus_height",
        "consensus_heights",
        "header",
    ];

    let expected_values = vec![
        "07-tendermint-0",
        "07-tendermint",
        "0-5",
        "0-5,0-7",
        "0a102f6962632e6d6f636b2e48656164657212040a021005",
    ];

    let tests: Vec<Test> = vec![
        Test {
            event_kind: CREATE_CLIENT_EVENT,
            event: to_abci(
                CreateClient::new(client_id.clone(), client_type.clone(), consensus_height)
                    .into_event(),
            ),
            expected_keys: expected_keys[0..3].to_vec(),
            expected_values: expected_values[0..3].to_vec(),
        },
        Test {
            event_kind: UPDATE_CLIENT_EVENT,
            event: to_abci(
                UpdateClient::new(
                    client_id.clone(),
                    client_type.clone(),
                    consensus_height,
                    consensus_heights,
                    header.encode_to_vec(),
                )
                .into_event(),
            ),
            expected_keys: expected_keys.clone(),
            expected_values: expected_values.clone(),
        },
        Test {
            event_kind: UPGRADE_CLIENT_EVENT,
            event: to_abci(
                UpgradeClient::new(client_id.clone(), client_type.clone(), consensus_height)
                    .into_event(),
            ),
            expected_keys: expected_keys[0..3].to_vec(),
            expected_values: expected_values[0..3].to_vec(),
        },
        Test {
            event_kind: CLIENT_MISBEHAVIOUR_EVENT,
            event: to_abci(ClientMisbehaviour::new(client_id, client_type).into_event()),
            expected_keys: expected_keys[0..2].to_vec(),
            expected_values: expected_values[0..2].to_vec(),
        },
    ];

    for t in tests {
        assert_eq!(t.event.kind, t.event_kind);
        assert_eq!(t.expected_keys.len(), t.event.attributes.len());
        for (i, e) in t.event.attributes.iter().enumerate() {
            assert_eq!(e.key, t.expected_keys[i], "key mismatch for {:?}", t.event_kind);
        }
        for (i, e) in t.event.attributes.iter().enumerate() {
            assert_eq!(e.value, t.expected_values[i], "value mismatch for {:?}", t.event_kind);
        }
    }
}

#[test]
fn create_client_record_attributes() {
    let client_type = ClientType::new("07-tendermint").unwrap();
    let client_id = ClientId::from_text("07-tendermint-0").unwrap();
    let e = CreateClient::new(client_id, client_type, Height::new(0, 5).unwrap()).into_event();
    assert_eq!(e.kind, "create_client");
    assert_eq!(
        pairs(&e),
        vec![
            ("client_id".to_string(), "07-tendermint-0".to_string()),
            ("client_type".to_string(), "07-tendermint".to_string()),
            ("consensus_height".to_string(), "0-5".to_string()),
        ]
    );
}

#[test]
fn update_client_heights_attribute() {
    let client_type = ClientType::new("07-tendermint").unwrap();
    let client_id = ClientId::new(client_type.clone(), 0).unwrap();
    let h5 = Height::new(0, 5).unwrap();
    let h7 = Height::new(0, 7).unwrap();
    let e = UpdateClient::new(client_id, client_type, h5, vec![h5, h7], vec![]).into_event();
    let p = pairs(&e);
    assert_eq!(p[3], ("consensus_heights".to_string(), "0-5,0-7".to_string()));
    assert_eq!(p[4], ("header".to_string(), String::new()));
}

#[test]
fn update_client_empty_and_single_heights() {
    let client_type = ClientType::new("07-tendermint").unwrap();
    let client_id = ClientId::new(client_type.clone(), 3).unwrap();
    let h = Height::new(2, 10).unwrap();
    let e = UpdateClient::new(client_id.clone(), client_type.clone(), h, vec![], vec![0xff, 0x00, 0xab])
        .into_event();
    let p = pairs(&e);
    assert_eq!(p[0].1, "07-tendermint-3");
    assert_eq!(p[2].1, "2-10");
    assert_eq!(p[3].1, "");
    assert_eq!(p[4].1, "ff00ab");
    let e = UpdateClient::new(client_id, client_type, h, vec![h], vec![0x0f]).into_event();
    let p = pairs(&e);
    assert_eq!(p[3].1, "2-10");
    assert_eq!(p[4].1, "0f");
}

#[test]
fn record_getters_and_kinds() {
    let client_type = ClientType::new("07-tendermint").unwrap();
    let client_id = ClientId::new(client_type.clone(), 1).unwrap();
    let h = Height::new(1, 9).unwrap();
    let c = CreateClient::new(client_id.clone(), client_type.clone(), h);
    assert_eq!(c.client_id().as_str(), "07-tendermint-1");
    assert_eq!(c.client_type().as_str(), "07-tendermint");
    assert_eq!(c.consensus_height().revision_height(), 9);
    assert_eq!(c.event_type(), "create_client");
    let u = UpdateClient::new(client_id.clone(), client_type.clone(), h, vec![h], vec![1, 2]);
    assert_eq!(u.consensus_heights().len(), 1);
    assert_eq!(u.header(), &vec![1u8, 2]);
    assert_eq!(u.event_type(), "update_client");
    let m = ClientMisbehaviour::new(client_id.clone(), client_type.clone());
    assert_eq!(m.event_type(), "client_misbehaviour");
    assert_eq!(m.client_id().as_str(), "07-tendermint-1");
    let g = UpgradeClient::new(client_id, client_type, h);
    assert_eq!(g.event_type(), "upgrade_client");
    assert_eq!(g.consensus_height().revision_number(), 1);
}
