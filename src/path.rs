//! Store paths: the keys under which records are kept and proven.
use vstd::prelude::*;
use vstd::string::*;
use crate::height::{Height, height_text};
use crate::identifier::{ClientId, ConnectionId};

verus! {

/// The closed set of store paths the connection queries prove.
#[derive(Clone, Debug)]
pub enum StorePath {
    /// `connections/<connection>`
    Connection(ConnectionId),
    /// `clients/<client>/connections`
    ClientConnection(ClientId),
    /// `clients/<client>/clientState`
    ClientState(ClientId),
    /// `clients/<client>/consensusStates/<era>-<index>`
    ClientConsensusState(ClientId, Height),
}

impl StorePath {
    /// The text of the path.
    pub open spec fn text(self) -> Seq<char> {
        match self {
            StorePath::Connection(c) => "connections/"@ + c@,
            StorePath::ClientConnection(c) => "clients/"@ + c@ + "/connections"@,
            StorePath::ClientState(c) => "clients/"@ + c@ + "/clientState"@,
            StorePath::ClientConsensusState(c, h) => "clients/"@ + c@ + "/consensusStates/"@
                + height_text(h@),
        }
    }

    /// Renders the path as text.
    pub fn to_text(&self) -> (r: String)
        ensures
            r@ == self.text(),
    {
        let mut s = String::new();
        match self {
            StorePath::Connection(c) => {
                s.append("connections/");
                s.append(c.as_str());
            },
            StorePath::ClientConnection(c) => {
                s.append("clients/");
                s.append(c.as_str());
                s.append("/connections");
            },
            StorePath::ClientState(c) => {
                s.append("clients/");
                s.append(c.as_str());
                s.append("/clientState");
            },
            StorePath::ClientConsensusState(c, h) => {
                s.append("clients/");
                s.append(c.as_str());
                s.append("/consensusStates/");
                let t = h.to_string();
                s.append(t.as_str());
            },
        }
        assert(s@ =~= self.text());
        s
    }
}

} // verus!
