//! The connection query service: lookups of connection records, each paired
//! with a proof at the host's current height. Transport is left to the host;
//! the service answers with plain responses or a query error.
use vstd::prelude::*;
use vstd::string::*;
use crate::height::{Height, decimal, height_text, push_decimal};
use crate::identifier::{ClientId, ConnectionId, valid_client_id, valid_connection_id};
use crate::path::StorePath;

verus! {

/// What the service reads from the host: stored records, the host's height,
/// and proofs of stored records. Each lookup is a function of the host's
/// state and its arguments, named by a spec function that an implementation
/// defines.
pub trait QueryContext {
    type ConnectionEnd;
    type ClientState;
    type ConsensusState;

    /// The connection end stored under the connection identifier `connection`.
    closed spec fn spec_connection_end(&self, connection: Seq<char>) -> Option<Self::ConnectionEnd> {
        arbitrary()
    }

    /// All connection ends stored.
    closed spec fn spec_connection_ends(&self) -> Option<Vec<Self::ConnectionEnd>> {
        arbitrary()
    }

    /// The connections that use the client identified by `client`.
    closed spec fn spec_client_connections(&self, client: Seq<char>) -> Option<Vec<ConnectionId>> {
        arbitrary()
    }

    /// The identifier of the client a connection end uses.
    closed spec fn spec_client_of(&self, end: Self::ConnectionEnd) -> Seq<char> {
        arbitrary()
    }

    /// The client state of the client identified by `client`.
    closed spec fn spec_client_state(&self, client: Seq<char>) -> Option<Self::ClientState> {
        arbitrary()
    }

    /// The consensus state of the client identified by `client` at `height`.
    closed spec fn spec_consensus_state(&self, client: Seq<char>, height: (u64, u64)) -> Option<
        Self::ConsensusState,
    > {
        arbitrary()
    }

    /// The host's current height.
    closed spec fn spec_host_height(&self) -> Option<Height> {
        arbitrary()
    }

    /// A proof, at `height`, of the record under the path with text `path`.
    closed spec fn spec_proof(&self, height: (u64, u64), path: Seq<char>) -> Option<Vec<u8>> {
        arbitrary()
    }

    /// The longest time a block is expected to take, in seconds.
    closed spec fn spec_max_time_per_block(&self) -> u64 {
        arbitrary()
    }

    /// The connection end stored under `connection`.
    fn connection_end(&self, connection: &ConnectionId) -> (r: Option<Self::ConnectionEnd>)
        ensures
            r == self.spec_connection_end(connection@),
    ;

    /// All connection ends stored.
    fn connection_ends(&self) -> (r: Option<Vec<Self::ConnectionEnd>>)
        ensures
            r == self.spec_connection_ends(),
    ;

    /// The connections that use `client`.
    fn client_connection_ends(&self, client: &ClientId) -> (r: Option<Vec<ConnectionId>>)
        ensures
            r == self.spec_client_connections(client@),
    ;

    /// The client a connection end uses.
    fn connection_client_id(&self, end: &Self::ConnectionEnd) -> (r: ClientId)
        ensures
            r@ == self.spec_client_of(*end),
    ;

    /// The client state of `client`.
    fn client_state(&self, client: &ClientId) -> (r: Option<Self::ClientState>)
        ensures
            r == self.spec_client_state(client@),
    ;

    /// The consensus state of `client` at `height`.
    fn consensus_state(&self, client: &ClientId, height: &Height) -> (r: Option<Self::ConsensusState>)
        ensures
            r == self.spec_consensus_state(client@, height@),
    ;

    /// The host's current height.
    fn host_height(&self) -> (r: Option<Height>)
        ensures
            r == self.spec_host_height(),
    ;

    /// A proof of the record under `path` at `height`.
    fn get_proof(&self, height: &Height, path: &StorePath) -> (r: Option<Vec<u8>>)
        ensures
            r == self.spec_proof(height@, path.text()),
    ;

    /// The longest time a block is expected to take, in seconds.
    fn max_expected_time_per_block_secs(&self) -> (r: u64)
        ensures
            r == self.spec_max_time_per_block(),
    ;
}

/// `r` failed with `kind` and `message`.
pub open spec fn fails_with<T>(r: Result<T, QueryError>, kind: QueryErrorKind, message: Seq<char>) -> bool {
    r matches Err(e) && e.kind == kind && e.message@ == message
}

/// How a query failed.
#[derive(Clone, Copy, Debug, PartialEq, Eq, Structural)]
pub enum QueryErrorKind {
    /// The request holds a malformed argument.
    InvalidArgument,
    /// A record, the host height or a proof could not be found.
    NotFound,
}

/// A failed query: its kind and a message for the caller.
#[derive(Debug)]
pub struct QueryError {
    pub kind: QueryErrorKind,
    pub message: String,
}

fn query_error(kind: QueryErrorKind, parts: &str, tail: &str) -> (r: QueryError)
    ensures
        r.kind == kind,
        r.message@ == parts@ + tail@,
{
    let mut message = parts.to_owned();
    message.append(tail);
    QueryError { kind, message }
}

fn host_height_missing() -> (r: QueryError)
    ensures
        r.kind == QueryErrorKind::NotFound,
        r.message@ == "Current height not found"@,
{
    QueryError { kind: QueryErrorKind::NotFound, message: "Current height not found".to_owned() }
}

/// A connection end with a proof of it.
pub struct QueryConnectionResponse<C> {
    pub connection: C,
    pub proof: Vec<u8>,
    pub proof_height: Height,
}

/// All connection ends, at the host's height.
pub struct QueryConnectionsResponse<C> {
    pub connections: Vec<C>,
    pub height: Height,
}

/// The connections of a client, with a proof of the list.
pub struct QueryClientConnectionsResponse {
    pub connection_paths: Vec<ConnectionId>,
    pub proof: Vec<u8>,
    pub proof_height: Height,
}

/// The client state behind a connection, with a proof of it.
pub struct QueryConnectionClientStateResponse<S> {
    pub client_id: ClientId,
    pub client_state: S,
    pub proof: Vec<u8>,
    pub proof_height: Height,
}

/// A consensus state of the client behind a connection, with a proof of it.
pub struct QueryConnectionConsensusStateResponse<S> {
    pub consensus_state: S,
    pub client_id: ClientId,
    pub proof: Vec<u8>,
    pub proof_height: Height,
}

/// The connection parameters of the host.
pub struct QueryConnectionParamsResponse {
    pub max_expected_time_per_block: u64,
}

/// Answers connection queries from a host context.
pub struct ConnectionQueryServer<I> {
    ibc_context: I,
}

impl<I: QueryContext> ConnectionQueryServer<I> {
    pub closed spec fn context(self) -> I {
        self.ibc_context
    }

    pub fn new(ibc_context: I) -> (r: Self)
        ensures
            r.context() == ibc_context,
    {
        ConnectionQueryServer { ibc_context }
    }

    /// The connection end under `connection_id`, with a proof at the host's height.
    pub fn connection(&self, connection_id: &str) -> (r: Result<QueryConnectionResponse<I::ConnectionEnd>, QueryError>)
        ensures
            !valid_connection_id(connection_id@) ==> fails_with(
                r,
                QueryErrorKind::InvalidArgument,
                "Invalid connection id: "@ + connection_id@,
            ),
            valid_connection_id(connection_id@) ==> match self.context().spec_connection_end(
                connection_id@,
            ) {
                None => fails_with(
                    r,
                    QueryErrorKind::NotFound,
                    "Connection end not found for connection "@ + connection_id@,
                ),
                Some(end) => match self.context().spec_host_height() {
                    None => fails_with(r, QueryErrorKind::NotFound, "Current height not found"@),
                    Some(h) => match self.context().spec_proof(h@, "connections/"@ + connection_id@) {
                        None => fails_with(
                            r,
                            QueryErrorKind::NotFound,
                            "Proof not found for connection path "@ + connection_id@,
                        ),
                        Some(p) => r matches Ok(resp) && resp.connection == end && resp.proof == p
                            && resp.proof_height == h,
                    },
                },
            },
    {
        let connection = match ConnectionId::from_text(connection_id) {
            Ok(c) => c,
            Err(_) => {
                return Err(query_error(QueryErrorKind::InvalidArgument, "Invalid connection id: ", connection_id));
            },
        };
        let end = match self.ibc_context.connection_end(&connection) {
            Some(e) => e,
            None => {
                return Err(query_error(
                    QueryErrorKind::NotFound,
                    "Connection end not found for connection ",
                    connection.as_str(),
                ));
            },
        };
        let height = match self.ibc_context.host_height() {
            Some(h) => h,
            None => {
                return Err(host_height_missing());
            },
        };
        let path = StorePath::Connection(connection.clone());
        let proof = match self.ibc_context.get_proof(&height, &path) {
            Some(p) => p,
            None => {
                return Err(query_error(
                    QueryErrorKind::NotFound,
                    "Proof not found for connection path ",
                    connection.as_str(),
                ));
            },
        };
        Ok(QueryConnectionResponse { connection: end, proof, proof_height: height })
    }

    /// All connection ends, at the host's height.
    pub fn connections(&self) -> (r: Result<QueryConnectionsResponse<I::ConnectionEnd>, QueryError>)
        ensures
            match self.context().spec_connection_ends() {
                None => fails_with(r, QueryErrorKind::NotFound, "Connections not found"@),
                Some(ends) => match self.context().spec_host_height() {
                    None => fails_with(r, QueryErrorKind::NotFound, "Current height not found"@),
                    Some(h) => r matches Ok(resp) && resp.connections == ends && resp.height == h,
                },
            },
    {
        let connections = match self.ibc_context.connection_ends() {
            Some(c) => c,
            None => {
                return Err(QueryError {
                    kind: QueryErrorKind::NotFound,
                    message: "Connections not found".to_owned(),
                });
            },
        };
        let height = match self.ibc_context.host_height() {
            Some(h) => h,
            None => {
                return Err(host_height_missing());
            },
        };
        Ok(QueryConnectionsResponse { connections, height })
    }

    /// The connections of the client `client_id`, with a proof at the host's height.
    pub fn client_connections(&self, client_id: &str) -> (r: Result<QueryClientConnectionsResponse, QueryError>)
        ensures
            !valid_client_id(client_id@) ==> fails_with(
                r,
                QueryErrorKind::InvalidArgument,
                "Invalid client id: "@ + client_id@,
            ),
            valid_client_id(client_id@) ==> match self.context().spec_client_connections(client_id@) {
                None => fails_with(r, QueryErrorKind::NotFound, "Connections not found"@),
                Some(paths) => match self.context().spec_host_height() {
                    None => fails_with(r, QueryErrorKind::NotFound, "Current height not found"@),
                    Some(h) => match self.context().spec_proof(
                        h@,
                        "clients/"@ + client_id@ + "/connections"@,
                    ) {
                        None => fails_with(
                            r,
                            QueryErrorKind::NotFound,
                            "Proof not found for client connection path "@ + client_id@,
                        ),
                        Some(p) => r matches Ok(resp) && resp.connection_paths == paths && resp.proof
                            == p && resp.proof_height == h,
                    },
                },
            },
    {
        let client = match ClientId::from_text(client_id) {
            Ok(c) => c,
            Err(_) => {
                return Err(query_error(QueryErrorKind::InvalidArgument, "Invalid client id: ", client_id));
            },
        };
        let connection_paths = match self.ibc_context.client_connection_ends(&client) {
            Some(c) => c,
            None => {
                return Err(QueryError {
                    kind: QueryErrorKind::NotFound,
                    message: "Connections not found".to_owned(),
                });
            },
        };
        let height = match self.ibc_context.host_height() {
            Some(h) => h,
            None => {
                return Err(host_height_missing());
            },
        };
        let path = StorePath::ClientConnection(client.clone());
        let proof = match self.ibc_context.get_proof(&height, &path) {
            Some(p) => p,
            None => {
                return Err(query_error(
                    QueryErrorKind::NotFound,
                    "Proof not found for client connection path ",
                    client.as_str(),
                ));
            },
        };
        Ok(QueryClientConnectionsResponse { connection_paths, proof, proof_height: height })
    }

    /// The client state behind the connection `connection_id`, with a proof
    /// at the host's height.
    pub fn connection_client_state(&self, connection_id: &str) -> (r: Result<
        QueryConnectionClientStateResponse<I::ClientState>,
        QueryError,
    >)
        ensures
            !valid_connection_id(connection_id@) ==> fails_with(
                r,
                QueryErrorKind::InvalidArgument,
                "Invalid connection id: "@ + connection_id@,
            ),
            valid_connection_id(connection_id@) ==> match self.context().spec_connection_end(
                connection_id@,
            ) {
                None => fails_with(
                    r,
                    QueryErrorKind::NotFound,
                    "Connection end not found for connection "@ + connection_id@,
                ),
                Some(end) => {
                    let client = self.context().spec_client_of(end);
                    match self.context().spec_client_state(client) {
                        None => fails_with(
                            r,
                            QueryErrorKind::NotFound,
                            "Client state not found for connection "@ + connection_id@,
                        ),
                        Some(cs) => match self.context().spec_host_height() {
                            None => fails_with(r, QueryErrorKind::NotFound, "Current height not found"@),
                            Some(h) => match self.context().spec_proof(
                                h@,
                                "clients/"@ + client + "/clientState"@,
                            ) {
                                None => fails_with(
                                    r,
                                    QueryErrorKind::NotFound,
                                    "Proof not found for client state path "@ + client,
                                ),
                                Some(p) => r matches Ok(resp) && resp.client_id@ == client
                                    && resp.client_state == cs && resp.proof == p && resp.proof_height
                                    == h,
                            },
                        },
                    }
                },
            },
    {
        let connection = match ConnectionId::from_text(connection_id) {
            Ok(c) => c,
            Err(_) => {
                return Err(query_error(QueryErrorKind::InvalidArgument, "Invalid connection id: ", connection_id));
            },
        };
        let end = match self.ibc_context.connection_end(&connection) {
            Some(e) => e,
            None => {
                return Err(query_error(
                    QueryErrorKind::NotFound,
                    "Connection end not found for connection ",
                    connection.as_str(),
                ));
            },
        };
        let client = self.ibc_context.connection_client_id(&end);
        let client_state = match self.ibc_context.client_state(&client) {
            Some(s) => s,
            None => {
                return Err(query_error(
                    QueryErrorKind::NotFound,
                    "Client state not found for connection ",
                    connection.as_str(),
                ));
            },
        };
        let height = match self.ibc_context.host_height() {
            Some(h) => h,
            None => {
                return Err(host_height_missing());
            },
        };
        let path = StorePath::ClientState(client.clone());
        let proof = match self.ibc_context.get_proof(&height, &path) {
            Some(p) => p,
            None => {
                return Err(query_error(
                    QueryErrorKind::NotFound,
                    "Proof not found for client state path ",
                    client.as_str(),
                ));
            },
        };
        Ok(QueryConnectionClientStateResponse { client_id: client, client_state, proof, proof_height: height })
    }

    /// The consensus state at `(revision_number, revision_height)` of the
    /// client behind the connection `connection_id`, with a proof at the
    /// host's height.
    pub fn connection_consensus_state(
        &self,
        connection_id: &str,
        revision_number: u64,
        revision_height: u64,
    ) -> (r: Result<QueryConnectionConsensusStateResponse<I::ConsensusState>, QueryError>)
        ensures
            !valid_connection_id(connection_id@) ==> fails_with(
                r,
                QueryErrorKind::InvalidArgument,
                "Invalid connection id: "@ + connection_id@,
            ),
            valid_connection_id(connection_id@) ==> match self.context().spec_connection_end(
                connection_id@,
            ) {
                None => fails_with(
                    r,
                    QueryErrorKind::NotFound,
                    "Connection end not found for connection "@ + connection_id@,
                ),
                Some(end) => {
                    let client = self.context().spec_client_of(end);
                    let hv = (revision_number, revision_height);
                    if revision_height == 0 {
                        fails_with(
                            r,
                            QueryErrorKind::InvalidArgument,
                            "Invalid height: "@ + decimal(revision_number as nat) + "-"@ + decimal(
                                revision_height as nat,
                            ),
                        )
                    } else {
                        match self.context().spec_consensus_state(client, hv) {
                            None => fails_with(
                                r,
                                QueryErrorKind::NotFound,
                                "Consensus state not found for connection "@ + connection_id@,
                            ),
                            Some(cs) => match self.context().spec_host_height() {
                                None => fails_with(
                                    r,
                                    QueryErrorKind::NotFound,
                                    "Current height not found"@,
                                ),
                                Some(h) => match self.context().spec_proof(
                                    h@,
                                    "clients/"@ + client + "/consensusStates/"@ + height_text(hv),
                                ) {
                                    None => fails_with(
                                        r,
                                        QueryErrorKind::NotFound,
                                        "Proof not found for consensus state path "@ + client,
                                    ),
                                    Some(p) => r matches Ok(resp) && resp.consensus_state == cs
                                        && resp.client_id@ == client && resp.proof == p
                                        && resp.proof_height == h,
                                },
                            },
                        }
                    }
                },
            },
    {
        let connection = match ConnectionId::from_text(connection_id) {
            Ok(c) => c,
            Err(_) => {
                return Err(query_error(QueryErrorKind::InvalidArgument, "Invalid connection id: ", connection_id));
            },
        };
        let end = match self.ibc_context.connection_end(&connection) {
            Some(e) => e,
            None => {
                return Err(query_error(
                    QueryErrorKind::NotFound,
                    "Connection end not found for connection ",
                    connection.as_str(),
                ));
            },
        };
        let client = self.ibc_context.connection_client_id(&end);
        let consensus_height = match Height::new(revision_number, revision_height) {
            Ok(h) => h,
            Err(_) => {
                let mut message = "Invalid height: ".to_owned();
                push_decimal(&mut message, revision_number);
                message.append("-");
                push_decimal(&mut message, revision_height);
                return Err(QueryError { kind: QueryErrorKind::InvalidArgument, message });
            },
        };
        let consensus_state = match self.ibc_context.consensus_state(&client, &consensus_height) {
            Some(s) => s,
            None => {
                return Err(query_error(
                    QueryErrorKind::NotFound,
                    "Consensus state not found for connection ",
                    connection.as_str(),
                ));
            },
        };
        let height = match self.ibc_context.host_height() {
            Some(h) => h,
            None => {
                return Err(host_height_missing());
            },
        };
        let path = StorePath::ClientConsensusState(client.clone(), consensus_height);
        let proof = match self.ibc_context.get_proof(&height, &path) {
            Some(p) => p,
            None => {
                return Err(query_error(
                    QueryErrorKind::NotFound,
                    "Proof not found for consensus state path ",
                    client.as_str(),
                ));
            },
        };
        Ok(QueryConnectionConsensusStateResponse { consensus_state, client_id: client, proof, proof_height: height })
    }

    /// The host's connection parameters.
    pub fn connection_params(&self) -> (r: QueryConnectionParamsResponse)
        ensures
            r.max_expected_time_per_block == self.context().spec_max_time_per_block(),
    {
        QueryConnectionParamsResponse {
            max_expected_time_per_block: self.ibc_context.max_expected_time_per_block_secs(),
        }
    }
}

} // verus!
