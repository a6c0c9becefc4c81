//! Validated identifiers: client types and client identifiers.
use vstd::prelude::*;
use vstd::string::*;
use crate::height::{decimal, push_decimal};

verus! {

/// Shortest client identifier.
pub const CLIENT_ID_MIN_LEN: usize = 9;

/// Shortest connection identifier.
pub const CONNECTION_ID_MIN_LEN: usize = 10;

/// Longest identifier of any kind.
pub const ID_MAX_LEN: usize = 64;

/// Reasons an identifier is refused.
#[derive(Clone, Copy, Debug, PartialEq, Eq, Structural)]
pub enum IdentifierError {
    /// The identifier is shorter or longer than its kind allows.
    InvalidLength,
    /// The identifier holds a character outside the allowed set.
    InvalidCharacter,
}

/// Characters allowed in identifiers: ASCII letters and digits, and `._+-#[]<>`.
pub open spec fn is_id_char(c: char) -> bool {
    ('a' <= c && c <= 'z') || ('A' <= c && c <= 'Z') || ('0' <= c && c <= '9') || c == '.'
        || c == '_' || c == '+' || c == '-' || c == '#' || c == '[' || c == ']' || c == '<'
        || c == '>'
}

/// Every character of `s` is allowed in identifiers.
pub open spec fn all_id_chars(s: Seq<char>) -> bool {
    forall|i: int| 0 <= i < s.len() ==> is_id_char(#[trigger] s[i])
}

/// A well-formed client type: one to 64 allowed characters.
pub open spec fn valid_client_type(s: Seq<char>) -> bool {
    1 <= s.len() <= ID_MAX_LEN && all_id_chars(s)
}

/// A well-formed client identifier: 9 to 64 allowed characters.
pub open spec fn valid_client_id(s: Seq<char>) -> bool {
    CLIENT_ID_MIN_LEN <= s.len() <= ID_MAX_LEN && all_id_chars(s)
}

/// A well-formed connection identifier: 10 to 64 allowed characters.
pub open spec fn valid_connection_id(s: Seq<char>) -> bool {
    CONNECTION_ID_MIN_LEN <= s.len() <= ID_MAX_LEN && all_id_chars(s)
}

/// The identifier text of the `counter`-th client of a type: `"<type>-<counter>"`.
pub open spec fn client_id_text(client_type: Seq<char>, counter: u64) -> Seq<char> {
    client_type + seq!['-'] + decimal(counter as nat)
}

/// The error that identifier checking reports for `s` with the given length bounds.
pub open spec fn id_check(s: Seq<char>, min: nat, max: nat) -> Result<(), IdentifierError> {
    if !(min <= s.len() <= max) {
        Err(IdentifierError::InvalidLength)
    } else if !all_id_chars(s) {
        Err(IdentifierError::InvalidCharacter)
    } else {
        Ok(())
    }
}

fn id_char(c: char) -> (r: bool)
    ensures
        r == is_id_char(c),
{
    ('a' <= c && c <= 'z') || ('A' <= c && c <= 'Z') || ('0' <= c && c <= '9') || c == '.'
        || c == '_' || c == '+' || c == '-' || c == '#' || c == '[' || c == ']' || c == '<'
        || c == '>'
}

/// Checks the length bounds, then the characters, of an identifier.
pub fn check_identifier(s: &str, min: usize, max: usize) -> (r: Result<(), IdentifierError>)
    ensures
        r == id_check(s@, min as nat, max as nat),
{
    let n = s.unicode_len();
    if n < min || n > max {
        return Err(IdentifierError::InvalidLength);
    }
    let mut i: usize = 0;
    while i < n
        invariant
            n == s@.len(),
            min <= n <= max,
            0 <= i <= n,
            forall|j: int| 0 <= j < i ==> is_id_char(#[trigger] s@[j]),
        decreases n - i,
    {
        if !id_char(s.get_char(i)) {
            assert(!all_id_chars(s@) && !is_id_char(s@[i as int]));
            return Err(IdentifierError::InvalidCharacter);
        }
        i = i + 1;
    }
    Ok(())
}

/// The type of a light client, such as `07-tendermint`.
#[derive(Debug)]
pub struct ClientType {
    id: String,
}

impl View for ClientType {
    type V = Seq<char>;

    closed spec fn view(&self) -> Seq<char> {
        self.id@
    }
}

impl Clone for ClientType {
    fn clone(&self) -> (r: Self)
        ensures
            r@ == self@,
    {
        ClientType { id: self.id.clone() }
    }
}

impl ClientType {
    /// Validates `s` as a client type.
    pub fn new(s: &str) -> (r: Result<ClientType, IdentifierError>)
        ensures
            r is Ok <==> valid_client_type(s@),
            r matches Ok(t) ==> t@ == s@,
            r matches Err(e) ==> Err::<(), IdentifierError>(e) == id_check(s@, 1, ID_MAX_LEN as nat),
    {
        match check_identifier(s, 1, ID_MAX_LEN) {
            Ok(()) => Ok(ClientType { id: s.to_owned() }),
            Err(e) => Err(e),
        }
    }

    /// The client type as text.
    pub fn as_str(&self) -> (r: &str)
        ensures
            r@ == self@,
    {
        self.id.as_str()
    }
}

/// The identifier of a light client on the host chain, such as `07-tendermint-0`.
#[derive(Debug)]
pub struct ClientId {
    id: String,
}

impl View for ClientId {
    type V = Seq<char>;

    closed spec fn view(&self) -> Seq<char> {
        self.id@
    }
}

impl Clone for ClientId {
    fn clone(&self) -> (r: Self)
        ensures
            r@ == self@,
    {
        ClientId { id: self.id.clone() }
    }
}

impl ClientId {
    /// Builds the identifier of the `counter`-th client of `client_type`:
    /// `"<type>-<counter>"`, which must be a well-formed client identifier.
    pub fn new(client_type: ClientType, counter: u64) -> (r: Result<ClientId, IdentifierError>)
        ensures
            r is Ok <==> valid_client_id(client_id_text(client_type@, counter)),
            r matches Ok(c) ==> c@ == client_id_text(client_type@, counter),
            r matches Err(e) ==> Err::<(), IdentifierError>(e) == id_check(
                client_id_text(client_type@, counter),
                CLIENT_ID_MIN_LEN as nat,
                ID_MAX_LEN as nat,
            ),
    {
        let mut s = client_type.id;
        proof { reveal_strlit("-"); }
        s.append("-");
        push_decimal(&mut s, counter);
        assert(s@ =~= client_id_text(client_type@, counter));
        match check_identifier(s.as_str(), CLIENT_ID_MIN_LEN, ID_MAX_LEN) {
            Ok(()) => Ok(ClientId { id: s }),
            Err(e) => Err(e),
        }
    }

    /// Whether two client identifiers are the same.
    pub fn same(&self, other: &ClientId) -> (r: bool)
        ensures
            r == (self@ == other@),
    {
        self.id == other.id
    }

    /// Validates `s` as a client identifier.
    pub fn from_text(s: &str) -> (r: Result<ClientId, IdentifierError>)
        ensures
            r is Ok <==> valid_client_id(s@),
            r matches Ok(c) ==> c@ == s@,
            r matches Err(e) ==> Err::<(), IdentifierError>(e) == id_check(
                s@,
                CLIENT_ID_MIN_LEN as nat,
                ID_MAX_LEN as nat,
            ),
    {
        match check_identifier(s, CLIENT_ID_MIN_LEN, ID_MAX_LEN) {
            Ok(()) => Ok(ClientId { id: s.to_owned() }),
            Err(e) => Err(e),
        }
    }

    /// The identifier as text.
    pub fn as_str(&self) -> (r: &str)
        ensures
            r@ == self@,
    {
        self.id.as_str()
    }
}

/// The identifier of a connection end on the host chain, such as `connection-0`.
#[derive(Debug)]
pub struct ConnectionId {
    id: String,
}

impl View for ConnectionId {
    type V = Seq<char>;

    closed spec fn view(&self) -> Seq<char> {
        self.id@
    }
}

impl Clone for ConnectionId {
    fn clone(&self) -> (r: Self)
        ensures
            r@ == self@,
    {
        ConnectionId { id: self.id.clone() }
    }
}

impl ConnectionId {
    /// Validates `s` as a connection identifier.
    pub fn from_text(s: &str) -> (r: Result<ConnectionId, IdentifierError>)
        ensures
            r is Ok <==> valid_connection_id(s@),
            r matches Ok(c) ==> c@ == s@,
            r matches Err(e) ==> Err::<(), IdentifierError>(e) == id_check(
                s@,
                CONNECTION_ID_MIN_LEN as nat,
                ID_MAX_LEN as nat,
            ),
    {
        match check_identifier(s, CONNECTION_ID_MIN_LEN, ID_MAX_LEN) {
            Ok(()) => Ok(ConnectionId { id: s.to_owned() }),
            Err(e) => Err(e),
        }
    }

    /// The identifier as text.
    pub fn as_str(&self) -> (r: &str)
        ensures
            r@ == self@,
    {
        self.id.as_str()
    }
}

} // verus!
