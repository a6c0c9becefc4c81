//! Records emitted by the client lifecycle, rendered as a kind and an
//! ordered list of key/value text attributes.
use vstd::prelude::*;
use vstd::string::*;
use crate::height::{Height, height_text};
use crate::identifier::{ClientId, ClientType};

verus! {

/// Kind of the record emitted when a client is created.
pub const CREATE_CLIENT_EVENT: &'static str = "create_client";

/// Kind of the record emitted when a client is updated.
pub const UPDATE_CLIENT_EVENT: &'static str = "update_client";

/// Kind of the record emitted when misbehaviour of a client is recorded.
pub const CLIENT_MISBEHAVIOUR_EVENT: &'static str = "client_misbehaviour";

/// Kind of the record emitted when a client is upgraded.
pub const UPGRADE_CLIENT_EVENT: &'static str = "upgrade_client";

/// Key of the attribute holding the client identifier.
pub const CLIENT_ID_ATTRIBUTE_KEY: &'static str = "client_id";

/// Key of the attribute holding the client type.
pub const CLIENT_TYPE_ATTRIBUTE_KEY: &'static str = "client_type";

/// Key of the attribute holding the consensus height.
pub const CONSENSUS_HEIGHT_ATTRIBUTE_KEY: &'static str = "consensus_height";

/// Key of the attribute holding the heights of the consensus states processed.
pub const CONSENSUS_HEIGHTS_ATTRIBUTE_KEY: &'static str = "consensus_heights";

/// Key of the attribute holding the encoded header of an update.
pub const HEADER_ATTRIBUTE_KEY: &'static str = "header";

/// One key/value attribute of an emitted record.
#[derive(Debug)]
pub struct EventAttribute {
    pub key: String,
    pub value: String,
}

impl View for EventAttribute {
    type V = (Seq<char>, Seq<char>);

    open spec fn view(&self) -> (Seq<char>, Seq<char>) {
        (self.key@, self.value@)
    }
}

/// An emitted record: its kind and its attributes, in order.
#[derive(Debug)]
pub struct Event {
    pub kind: String,
    pub attributes: Vec<EventAttribute>,
}

impl Event {
    /// The attributes as key/value texts, in order.
    pub open spec fn attrs(self) -> Seq<(Seq<char>, Seq<char>)> {
        self.attributes@.map_values(|a: EventAttribute| a@)
    }
}

/// The lower-case hexadecimal digit for `d < 16`.
pub open spec fn hex_digit(d: nat) -> char {
    seq!['0', '1', '2', '3', '4', '5', '6', '7', '8', '9', 'a', 'b', 'c', 'd', 'e', 'f'][d as int]
}

/// Lower-case hexadecimal text of bytes: two digits per byte, high nibble first.
pub open spec fn hex_text(b: Seq<u8>) -> Seq<char>
    decreases b.len(),
{
    if b.len() == 0 {
        Seq::empty()
    } else {
        hex_text(b.drop_last()) + seq![
            hex_digit((b.last() / 16) as nat),
            hex_digit((b.last() % 16) as nat),
        ]
    }
}

/// Texts of heights joined with `,`.
pub open spec fn heights_text(hs: Seq<(u64, u64)>) -> Seq<char>
    decreases hs.len(),
{
    if hs.len() == 0 {
        Seq::empty()
    } else if hs.len() == 1 {
        height_text(hs[0])
    } else {
        heights_text(hs.drop_last()) + seq![','] + height_text(hs.last())
    }
}

/// Views of a list of heights.
pub open spec fn heights_view(hs: Seq<Height>) -> Seq<(u64, u64)> {
    hs.map_values(|h: Height| h@)
}

/// Relies on subtle_encoding::hex::encode: lower-case hexadecimal, two digits
/// per byte with the high nibble first, which is ASCII and so valid UTF-8.
#[verifier::external_body]
fn encode_hex(bytes: &Vec<u8>) -> (r: String)
    ensures
        r@ == hex_text(bytes@),
{
    String::from_utf8(subtle_encoding::hex::encode(bytes)).expect(
        "hexadecimal is valid UTF-8",
    )
}

fn attribute(key: &str, value: String) -> (r: EventAttribute)
    ensures
        r@ == (key@, value@),
{
    EventAttribute { key: key.to_owned(), value }
}

/// The attribute naming a client.
pub fn client_id_attribute(client_id: &ClientId) -> (r: EventAttribute)
    ensures
        r@ == (CLIENT_ID_ATTRIBUTE_KEY@, client_id@),
{
    attribute(CLIENT_ID_ATTRIBUTE_KEY, client_id.as_str().to_owned())
}

/// The attribute naming a client type.
pub fn client_type_attribute(client_type: &ClientType) -> (r: EventAttribute)
    ensures
        r@ == (CLIENT_TYPE_ATTRIBUTE_KEY@, client_type@),
{
    attribute(CLIENT_TYPE_ATTRIBUTE_KEY, client_type.as_str().to_owned())
}

/// The attribute holding one consensus height, as `"<era>-<index>"`.
pub fn consensus_height_attribute(height: &Height) -> (r: EventAttribute)
    ensures
        r@ == (CONSENSUS_HEIGHT_ATTRIBUTE_KEY@, height_text(height@)),
{
    attribute(CONSENSUS_HEIGHT_ATTRIBUTE_KEY, height.to_string())
}

/// Joins the texts of heights with `,`.
pub fn join_heights(heights: &Vec<Height>) -> (r: String)
    ensures
        r@ == heights_text(heights_view(heights@)),
{
    let mut s = String::new();
    let mut i: usize = 0;
    while i < heights.len()
        invariant
            0 <= i <= heights@.len(),
            s@ == heights_text(heights_view(heights@.subrange(0, i as int))),
        decreases heights@.len() - i,
    {
        let ghost pre = heights_view(heights@.subrange(0, i as int));
        let ghost next = heights_view(heights@.subrange(0, i as int + 1));
        let ghost old_s = s@;
        proof {
            assert(next.drop_last() =~= pre);
            assert(next.last() == heights@[i as int]@);
        }
        if i > 0 {
            proof { reveal_strlit(","); }
            s.append(",");
        }
        let t = heights[i].to_string();
        s.append(t.as_str());
        proof {
            if i == 0 {
                assert(s@ =~= height_text(next[0]));
            } else {
                assert(s@ =~= old_s + seq![','] + height_text(next.last()));
            }
        }
        i = i + 1;
    }
    assert(heights@.subrange(0, heights@.len() as int) =~= heights@);
    s
}

/// The attribute holding the heights of the consensus states processed.
pub fn consensus_heights_attribute(heights: &Vec<Height>) -> (r: EventAttribute)
    ensures
        r@ == (CONSENSUS_HEIGHTS_ATTRIBUTE_KEY@, heights_text(heights_view(heights@))),
{
    attribute(CONSENSUS_HEIGHTS_ATTRIBUTE_KEY, join_heights(heights))
}

/// The attribute holding an encoded header, as lower-case hexadecimal.
pub fn header_attribute(header: &Vec<u8>) -> (r: EventAttribute)
    ensures
        r@ == (HEADER_ATTRIBUTE_KEY@, hex_text(header@)),
{
    attribute(HEADER_ATTRIBUTE_KEY, encode_hex(header))
}

/// Signals the creation of a client on the host chain.
#[derive(Clone, Debug)]
pub struct CreateClient {
    client_id: ClientId,
    client_type: ClientType,
    consensus_height: Height,
}

impl CreateClient {
    /// The identifier of the new client.
    pub closed spec fn client_id_view(self) -> Seq<char> {
        self.client_id@
    }

    /// The type of the new client.
    pub closed spec fn client_type_view(self) -> Seq<char> {
        self.client_type@
    }

    /// The height of the initial consensus state.
    pub closed spec fn consensus_height_view(self) -> (u64, u64) {
        self.consensus_height@
    }

    pub fn new(client_id: ClientId, client_type: ClientType, consensus_height: Height) -> (r: Self)
        ensures
            r.client_id_view() == client_id@,
            r.client_type_view() == client_type@,
            r.consensus_height_view() == consensus_height@,
    {
        CreateClient { client_id, client_type, consensus_height }
    }

    pub fn client_id(&self) -> (r: &ClientId)
        ensures
            r@ == self.client_id_view(),
    {
        &self.client_id
    }

    pub fn client_type(&self) -> (r: &ClientType)
        ensures
            r@ == self.client_type_view(),
    {
        &self.client_type
    }

    pub fn consensus_height(&self) -> (r: &Height)
        ensures
            r@ == self.consensus_height_view(),
    {
        &self.consensus_height
    }

    pub fn event_type(&self) -> (r: &str)
        ensures
            r@ == CREATE_CLIENT_EVENT@,
    {
        CREATE_CLIENT_EVENT
    }

    /// Renders the record: client id, client type, consensus height.
    pub fn into_event(self) -> (e: Event)
        ensures
            e.kind@ == CREATE_CLIENT_EVENT@,
            e.attrs() == seq![
                (CLIENT_ID_ATTRIBUTE_KEY@, self.client_id_view()),
                (CLIENT_TYPE_ATTRIBUTE_KEY@, self.client_type_view()),
                (CONSENSUS_HEIGHT_ATTRIBUTE_KEY@, height_text(self.consensus_height_view())),
            ],
    {
        let attributes = vec![
            client_id_attribute(&self.client_id),
            client_type_attribute(&self.client_type),
            consensus_height_attribute(&self.consensus_height),
        ];
        let e = Event { kind: CREATE_CLIENT_EVENT.to_owned(), attributes };
        assert(e.attrs() =~= seq![
            (CLIENT_ID_ATTRIBUTE_KEY@, self.client_id_view()),
            (CLIENT_TYPE_ATTRIBUTE_KEY@, self.client_type_view()),
            (CONSENSUS_HEIGHT_ATTRIBUTE_KEY@, height_text(self.consensus_height_view())),
        ]);
        e
    }
}

/// Signals an update of a client on the host chain.
#[derive(Clone, Debug)]
pub struct UpdateClient {
    client_id: ClientId,
    client_type: ClientType,
    consensus_height: Height,
    consensus_heights: Vec<Height>,
    header: Vec<u8>,
}

impl UpdateClient {
    /// The identifier of the updated client.
    pub closed spec fn client_id_view(self) -> Seq<char> {
        self.client_id@
    }

    /// The type of the updated client.
    pub closed spec fn client_type_view(self) -> Seq<char> {
        self.client_type@
    }

    /// The height of the first consensus state stored by the update.
    pub closed spec fn consensus_height_view(self) -> (u64, u64) {
        self.consensus_height@
    }

    /// The heights of the consensus states stored by the update.
    pub closed spec fn consensus_heights_view(self) -> Seq<(u64, u64)> {
        heights_view(self.consensus_heights@)
    }

    /// The encoded header, an opaque envelope.
    pub closed spec fn header_view(self) -> Seq<u8> {
        self.header@
    }

    /// Builds the record; `header` is the encoded header envelope and is kept as it is.
    pub fn new(
        client_id: ClientId,
        client_type: ClientType,
        consensus_height: Height,
        consensus_heights: Vec<Height>,
        header: Vec<u8>,
    ) -> (r: Self)
        ensures
            r.client_id_view() == client_id@,
            r.client_type_view() == client_type@,
            r.consensus_height_view() == consensus_height@,
            r.consensus_heights_view() == heights_view(consensus_heights@),
            r.header_view() == header@,
    {
        UpdateClient { client_id, client_type, consensus_height, consensus_heights, header }
    }

    pub fn client_id(&self) -> (r: &ClientId)
        ensures
            r@ == self.client_id_view(),
    {
        &self.client_id
    }

    pub fn client_type(&self) -> (r: &ClientType)
        ensures
            r@ == self.client_type_view(),
    {
        &self.client_type
    }

    pub fn consensus_height(&self) -> (r: &Height)
        ensures
            r@ == self.consensus_height_view(),
    {
        &self.consensus_height
    }

    pub fn consensus_heights(&self) -> (r: &[Height])
        ensures
            heights_view(r@) == self.consensus_heights_view(),
    {
        self.consensus_heights.as_slice()
    }

    pub fn header(&self) -> (r: &Vec<u8>)
        ensures
            r@ == self.header_view(),
    {
        &self.header
    }

    pub fn event_type(&self) -> (r: &str)
        ensures
            r@ == UPDATE_CLIENT_EVENT@,
    {
        UPDATE_CLIENT_EVENT
    }

    /// Renders the record: client id, client type, consensus height,
    /// consensus heights joined with `,`, and the header in hexadecimal.
    pub fn into_event(self) -> (e: Event)
        ensures
            e.kind@ == UPDATE_CLIENT_EVENT@,
            e.attrs() == seq![
                (CLIENT_ID_ATTRIBUTE_KEY@, self.client_id_view()),
                (CLIENT_TYPE_ATTRIBUTE_KEY@, self.client_type_view()),
                (CONSENSUS_HEIGHT_ATTRIBUTE_KEY@, height_text(self.consensus_height_view())),
                (CONSENSUS_HEIGHTS_ATTRIBUTE_KEY@, heights_text(self.consensus_heights_view())),
                (HEADER_ATTRIBUTE_KEY@, hex_text(self.header_view())),
            ],
    {
        let attributes = vec![
            client_id_attribute(&self.client_id),
            client_type_attribute(&self.client_type),
            consensus_height_attribute(&self.consensus_height),
            consensus_heights_attribute(&self.consensus_heights),
            header_attribute(&self.header),
        ];
        let e = Event { kind: UPDATE_CLIENT_EVENT.to_owned(), attributes };
        assert(e.attrs() =~= seq![
            (CLIENT_ID_ATTRIBUTE_KEY@, self.client_id_view()),
            (CLIENT_TYPE_ATTRIBUTE_KEY@, self.client_type_view()),
            (CONSENSUS_HEIGHT_ATTRIBUTE_KEY@, height_text(self.consensus_height_view())),
            (CONSENSUS_HEIGHTS_ATTRIBUTE_KEY@, heights_text(self.consensus_heights_view())),
            (HEADER_ATTRIBUTE_KEY@, hex_text(self.header_view())),
        ]);
        e
    }
}

/// Signals that evidence of misbehaviour froze a client.
#[derive(Clone, Debug)]
pub struct ClientMisbehaviour {
    client_id: ClientId,
    client_type: ClientType,
}

impl ClientMisbehaviour {
    /// The identifier of the frozen client.
    pub closed spec fn client_id_view(self) -> Seq<char> {
        self.client_id@
    }

    /// The type of the frozen client.
    pub closed spec fn client_type_view(self) -> Seq<char> {
        self.client_type@
    }

    pub fn new(client_id: ClientId, client_type: ClientType) -> (r: Self)
        ensures
            r.client_id_view() == client_id@,
            r.client_type_view() == client_type@,
    {
        ClientMisbehaviour { client_id, client_type }
    }

    pub fn client_id(&self) -> (r: &ClientId)
        ensures
            r@ == self.client_id_view(),
    {
        &self.client_id
    }

    pub fn client_type(&self) -> (r: &ClientType)
        ensures
            r@ == self.client_type_view(),
    {
        &self.client_type
    }

    pub fn event_type(&self) -> (r: &str)
        ensures
            r@ == CLIENT_MISBEHAVIOUR_EVENT@,
    {
        CLIENT_MISBEHAVIOUR_EVENT
    }

    /// Renders the record: client id, client type.
    pub fn into_event(self) -> (e: Event)
        ensures
            e.kind@ == CLIENT_MISBEHAVIOUR_EVENT@,
            e.attrs() == seq![
                (CLIENT_ID_ATTRIBUTE_KEY@, self.client_id_view()),
                (CLIENT_TYPE_ATTRIBUTE_KEY@, self.client_type_view()),
            ],
    {
        let attributes = vec![
            client_id_attribute(&self.client_id),
            client_type_attribute(&self.client_type),
        ];
        let e = Event { kind: CLIENT_MISBEHAVIOUR_EVENT.to_owned(), attributes };
        assert(e.attrs() =~= seq![
            (CLIENT_ID_ATTRIBUTE_KEY@, self.client_id_view()),
            (CLIENT_TYPE_ATTRIBUTE_KEY@, self.client_type_view()),
        ]);
        e
    }
}

/// Signals the upgrade of a client on the host chain.
#[derive(Clone, Debug)]
pub struct UpgradeClient {
    client_id: ClientId,
    client_type: ClientType,
    consensus_height: Height,
}

impl UpgradeClient {
    /// The identifier of the upgraded client.
    pub closed spec fn client_id_view(self) -> Seq<char> {
        self.client_id@
    }

    /// The type of the upgraded client.
    pub closed spec fn client_type_view(self) -> Seq<char> {
        self.client_type@
    }

    /// The height of the upgraded consensus state.
    pub closed spec fn consensus_height_view(self) -> (u64, u64) {
        self.consensus_height@
    }

    pub fn new(client_id: ClientId, client_type: ClientType, consensus_height: Height) -> (r: Self)
        ensures
            r.client_id_view() == client_id@,
            r.client_type_view() == client_type@,
            r.consensus_height_view() == consensus_height@,
    {
        UpgradeClient { client_id, client_type, consensus_height }
    }

    pub fn client_id(&self) -> (r: &ClientId)
        ensures
            r@ == self.client_id_view(),
    {
        &self.client_id
    }

    pub fn client_type(&self) -> (r: &ClientType)
        ensures
            r@ == self.client_type_view(),
    {
        &self.client_type
    }

    pub fn consensus_height(&self) -> (r: &Height)
        ensures
            r@ == self.consensus_height_view(),
    {
        &self.consensus_height
    }

    pub fn event_type(&self) -> (r: &str)
        ensures
            r@ == UPGRADE_CLIENT_EVENT@,
    {
        UPGRADE_CLIENT_EVENT
    }

    /// Renders the record: client id, client type, consensus height.
    pub fn into_event(self) -> (e: Event)
        ensures
            e.kind@ == UPGRADE_CLIENT_EVENT@,
            e.attrs() == seq![
                (CLIENT_ID_ATTRIBUTE_KEY@, self.client_id_view()),
                (CLIENT_TYPE_ATTRIBUTE_KEY@, self.client_type_view()),
                (CONSENSUS_HEIGHT_ATTRIBUTE_KEY@, height_text(self.consensus_height_view())),
            ],
    {
        let attributes = vec![
            client_id_attribute(&self.client_id),
            client_type_attribute(&self.client_type),
            consensus_height_attribute(&self.consensus_height),
        ];
        let e = Event { kind: UPGRADE_CLIENT_EVENT.to_owned(), attributes };
        assert(e.attrs() =~= seq![
            (CLIENT_ID_ATTRIBUTE_KEY@, self.client_id_view()),
            (CLIENT_TYPE_ATTRIBUTE_KEY@, self.client_type_view()),
            (CONSENSUS_HEIGHT_ATTRIBUTE_KEY@, height_text(self.consensus_height_view())),
        ]);
        e
    }
}

} // verus!
