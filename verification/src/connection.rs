//! Model of the established connection as the keeper sees it.
//!
//! The wire-level connection object (frame encoding, request/response
//! correlation) is an external collaborator. The keeper's decisions read
//! only three things of it: its identity, the shard layout the server
//! reported on it, and the keyspace selected on its session. `Connection`
//! carries exactly those as plain values; the driver that owns the real
//! transport keeps one such record per opened connection.

use crate::routing::ShardInfo;
use vstd::prelude::*;

verus! {

/// A keyspace identifier that already passed format and existence
/// validation upstream; the keeper treats it as an opaque, safe token.
pub struct VerifiedKeyspaceName {
    pub name: String,
}

impl View for VerifiedKeyspaceName {
    type V = Seq<char>;

    open spec fn view(&self) -> Seq<char> {
        self.name@
    }
}

impl VerifiedKeyspaceName {
    /// Wraps an already-validated keyspace name.
    pub fn new(name: String) -> (r: VerifiedKeyspaceName)
        ensures
            r@ == name@,
    {
        VerifiedKeyspaceName { name }
    }
}

impl Clone for VerifiedKeyspaceName {
    fn clone(&self) -> (r: Self)
        ensures
            r == *self,
    {
        VerifiedKeyspaceName { name: self.name.clone() }
    }
}

/// The keyspace selected on a connection's session, as a sequence of
/// characters, or `None` while no selection was ever issued.
pub open spec fn keyspace_view(keyspace: Option<VerifiedKeyspaceName>) -> Option<Seq<char>> {
    match keyspace {
        Some(name) => Some(name@),
        None => None,
    }
}

/// What the keeper's decisions read of an established connection.
pub struct Connection {
    /// Identity of the underlying transport; two records with one `id`
    /// stand for one shared wire connection.
    pub id: u64,
    /// The shard layout the server reported when the connection was opened.
    pub shard_info: Option<ShardInfo>,
    /// The keyspace whose selection was last issued on this session.
    pub keyspace: Option<VerifiedKeyspaceName>,
}

/// The mathematical value of a `Connection` record.
pub ghost struct ConnectionView {
    pub id: u64,
    pub shard_info: Option<ShardInfo>,
    pub keyspace: Option<Seq<char>>,
}

impl View for Connection {
    type V = ConnectionView;

    open spec fn view(&self) -> ConnectionView {
        ConnectionView {
            id: self.id,
            shard_info: self.shard_info,
            keyspace: keyspace_view(self.keyspace),
        }
    }
}

impl Connection {
    /// Records a freshly opened connection: no keyspace was selected on
    /// its session yet.
    pub fn new(id: u64, shard_info: Option<ShardInfo>) -> (r: Connection)
        ensures
            r@ == (ConnectionView { id, shard_info, keyspace: None }),
    {
        Connection { id, shard_info, keyspace: None }
    }

    /// Records that a keyspace selection was issued on this session. The
    /// record keeps the requested name whatever the wire call returned;
    /// the caller decides what to do with that result.
    pub fn select_keyspace(&mut self, keyspace_name: &VerifiedKeyspaceName)
        ensures
            final(self)@ == (ConnectionView {
                keyspace: Some(keyspace_name@),
                ..old(self)@
            }),
    {
        self.keyspace = Some(keyspace_name.clone());
    }

    /// The shard layout the server reported on this connection.
    pub fn get_shard_info(&self) -> (r: Option<ShardInfo>)
        ensures
            r == self.shard_info,
    {
        self.shard_info
    }
}

impl Clone for Connection {
    fn clone(&self) -> (r: Self)
        ensures
            r == *self,
    {
        Connection {
            id: self.id,
            shard_info: self.shard_info,
            keyspace: match &self.keyspace {
                Some(name) => Some(name.clone()),
                None => None,
            },
        }
    }
}

} // verus!
