//! The keeper's published state machine and the decision core of its
//! background worker.
//!
//! A keeper owns one connection slot. Its worker performs exactly one
//! connection attempt and publishes the outcome; the keeper handle lets any
//! number of readers observe the latest published state without blocking
//! and lets consumers pick up the shared connection once the attempt has
//! resolved. The asynchronous driver around this module opens the wire
//! connection, runs the worker's decisions on the result, publishes the
//! state they prescribe, and forwards the shard-info update they hand out.

use crate::connection::{keyspace_view, Connection, ConnectionView, VerifiedKeyspaceName};
use crate::errors::QueryError;
use crate::routing::{spec_source_port, ShardInfo};
use vstd::pervasive::unreached;
use vstd::prelude::*;

verus! {

/// The keeper's current status, published for all readers. A published
/// value is immutable; a transition replaces the whole value.
pub enum ConnectionState {
    /// The first connection attempt has not completed yet.
    Initializing,
    /// The attempt succeeded; carries the shared connection record.
    Connected(Connection),
    /// The single attempt failed; carries the reason.
    Broken(QueryError),
}

/// The mathematical value of a published state.
pub ghost enum StateView {
    Initializing,
    Connected(ConnectionView),
    Broken(Seq<char>),
}

impl View for ConnectionState {
    type V = StateView;

    open spec fn view(&self) -> StateView {
        match self {
            ConnectionState::Initializing => StateView::Initializing,
            ConnectionState::Connected(conn) => StateView::Connected(conn@),
            ConnectionState::Broken(error) => StateView::Broken(error@),
        }
    }
}

impl ConnectionState {
    /// What a consumer gets out of a terminal state: the shared connection
    /// on `Connected`, the stored error on `Broken`.
    pub fn connection_result(&self) -> (r: Result<Connection, QueryError>)
        requires
            !(self@ is Initializing),
        ensures
            attempt_view(r) == spec_get_connection(self@),
    {
        match self {
            ConnectionState::Connected(conn) => Ok(conn.clone()),
            ConnectionState::Broken(error) => Err(error.clone()),
            ConnectionState::Initializing => unreached(),
        }
    }
}

impl Clone for ConnectionState {
    fn clone(&self) -> (r: Self)
        ensures
            r == *self,
    {
        match self {
            ConnectionState::Initializing => ConnectionState::Initializing,
            ConnectionState::Connected(conn) => ConnectionState::Connected(conn.clone()),
            ConnectionState::Broken(error) => ConnectionState::Broken(error.clone()),
        }
    }
}

/// The one legal state change: the worker replaces `Initializing` by the
/// outcome of its single attempt. `Connected` and `Broken` are terminal.
pub open spec fn can_transition(pre: StateView, post: StateView) -> bool {
    &&& pre is Initializing
    &&& (post is Connected || post is Broken)
}

/// A connection attempt's outcome as a mathematical value.
pub open spec fn attempt_view(attempt: Result<Connection, QueryError>) -> Result<
    ConnectionView,
    Seq<char>,
> {
    match attempt {
        Ok(conn) => Ok(conn@),
        Err(error) => Err(error@),
    }
}

/// Works once in the background to open the connection and publish the
/// outcome. This struct holds what its decisions read; the driver holds
/// the address, the connection parameters and the write side of the
/// publisher, none of which the decisions look into.
pub struct ConnectionKeeperWorker {
    /// When present, the attempt is steered to this shard.
    pub shard_info: Option<ShardInfo>,
    /// Whether a cluster-wide shard-info sink was configured; forwarding
    /// through it is best-effort.
    pub has_shard_info_sender: bool,
    /// Keyspace whose selection is issued on each freshly opened
    /// connection; fixed at construction time.
    pub used_keyspace: Option<VerifiedKeyspaceName>,
}

/// The mathematical value of a worker.
pub ghost struct WorkerView {
    pub shard_info: Option<ShardInfo>,
    pub has_shard_info_sender: bool,
    pub used_keyspace: Option<Seq<char>>,
}

impl View for ConnectionKeeperWorker {
    type V = WorkerView;

    open spec fn view(&self) -> WorkerView {
        WorkerView {
            shard_info: self.shard_info,
            has_shard_info_sender: self.has_shard_info_sender,
            used_keyspace: keyspace_view(self.used_keyspace),
        }
    }
}

/// The source port the worker asks the driver to bind: drawn for the
/// target shard when shard affinity was requested, none otherwise.
pub open spec fn spec_chosen_source_port(w: WorkerView) -> Option<u16> {
    match w.shard_info {
        Some(si) => Some(spec_source_port(si.shard, si.nr_shards) as u16),
        None => None,
    }
}

/// The connection record that the worker hands on after a successful
/// open: the construction-time keyspace, when there is one, was selected
/// on the fresh session; everything else is the opened connection.
pub open spec fn spec_prepared_connection(w: WorkerView, opened: ConnectionView) -> ConnectionView {
    match w.used_keyspace {
        Some(name) => ConnectionView { keyspace: Some(name), ..opened },
        None => opened,
    }
}

/// The state the worker publishes for a given attempt outcome.
pub open spec fn spec_published_state(
    w: WorkerView,
    opened: Result<ConnectionView, Seq<char>>,
) -> StateView {
    match opened {
        Ok(conn) => StateView::Connected(spec_prepared_connection(w, conn)),
        Err(error) => StateView::Broken(error),
    }
}

/// The shard-info update the worker hands to the driver for best-effort
/// forwarding: `Some(update)` asks the driver to send `update` through the
/// shared sink, `None` means nothing is forwarded.
pub open spec fn spec_shard_info_update(
    w: WorkerView,
    opened: Result<ConnectionView, Seq<char>>,
) -> Option<Option<ShardInfo>> {
    match opened {
        Ok(conn) => if w.has_shard_info_sender {
            Some(conn.shard_info)
        } else {
            None
        },
        Err(_) => None,
    }
}

/// What one run of the worker tells the driver to do.
pub struct WorkOutcome {
    /// The state to publish; always terminal.
    pub published: ConnectionState,
    /// When present, the shard-info value to forward through the shared
    /// sink; the send is best-effort and its failure is discarded.
    pub shard_info_update: Option<Option<ShardInfo>>,
}

impl ConnectionKeeperWorker {
    /// The source port for the wire open, drawn so that the server's
    /// port-based shard assignment lands the connection on the target
    /// shard; no port is constrained when no shard affinity was asked.
    pub fn source_port(&self) -> (r: Option<u16>)
        requires
            self.shard_info matches Some(si) ==> si.is_valid(),
        ensures
            r == spec_chosen_source_port(self@),
    {
        match &self.shard_info {
            Some(info) => Some(info.draw_source_port_for_shard(info.shard)),
            None => None,
        }
    }

    /// Finishes one open attempt: a failure passes through unchanged; on
    /// success the construction-time keyspace, when there is one, is
    /// selected on the fresh session. The selection's wire result
    /// (`keyspace_outcome`) is deliberately discarded — the keyspace may
    /// have been dropped upstream since the keeper was built, and such
    /// errors belong to the explicit keyspace-selection call path, so the
    /// connection is handed on as usable either way.
    pub fn open_new_connection(
        &self,
        opened: Result<Connection, QueryError>,
        keyspace_outcome: Result<(), QueryError>,
    ) -> (r: Result<Connection, QueryError>)
        ensures
            attempt_view(r) == (match attempt_view(opened) {
                Ok(conn) => Ok::<ConnectionView, Seq<char>>(
                    spec_prepared_connection(self@, conn),
                ),
                Err(error) => Err::<ConnectionView, Seq<char>>(error),
            }),
    {
        let _ = keyspace_outcome;
        match opened {
            Ok(mut conn) => {
                match &self.used_keyspace {
                    Some(keyspace_name) => conn.select_keyspace(keyspace_name),
                    None => (),
                }
                Ok(conn)
            },
            Err(error) => Err(error),
        }
    }

    /// One full run of the worker: turns the attempt's outcome into the
    /// terminal state to publish and, on success, into the shard-info
    /// update to forward when a sink was configured.
    pub fn work(
        &self,
        opened: Result<Connection, QueryError>,
        keyspace_outcome: Result<(), QueryError>,
    ) -> (r: WorkOutcome)
        ensures
            r.published@ == spec_published_state(self@, attempt_view(opened)),
            r.shard_info_update == spec_shard_info_update(self@, attempt_view(opened)),
            !(r.published@ is Initializing),
    {
        let cur_connection = self.open_new_connection(opened, keyspace_outcome);
        match cur_connection {
            Ok(conn) => {
                let new_shard_info: Option<ShardInfo> = conn.get_shard_info();
                let shard_info_update: Option<Option<ShardInfo>> = if self.has_shard_info_sender {
                    Some(new_shard_info)
                } else {
                    None
                };
                WorkOutcome { published: ConnectionState::Connected(conn), shard_info_update }
            },
            Err(error) => WorkOutcome {
                published: ConnectionState::Broken(error),
                shard_info_update: None,
            },
        }
    }
}

/// A keyspace-selection call's outcome as a mathematical value.
pub open spec fn unit_result_view(r: Result<(), QueryError>) -> Result<(), Seq<char>> {
    match r {
        Ok(_) => Ok(()),
        Err(error) => Err(error@),
    }
}

/// What selecting a keyspace through a keeper returns: the stored failure
/// on a broken keeper, otherwise the wire call's own outcome, unchanged.
pub open spec fn spec_use_keyspace(s: StateView, call_outcome: Result<(), Seq<char>>) -> Result<
    (),
    Seq<char>,
>
    recommends
        !(s is Initializing),
{
    match s {
        StateView::Broken(error) => Err(error),
        _ => call_outcome,
    }
}

/// The shared connection, or the stored failure, that a consumer gets
/// once the keeper's state is terminal.
pub open spec fn spec_get_connection(s: StateView) -> Result<ConnectionView, Seq<char>>
    recommends
        !(s is Initializing),
{
    match s {
        StateView::Connected(conn) => Ok(conn),
        StateView::Broken(error) => Err(error),
        StateView::Initializing => arbitrary(),
    }
}

/// The public handle: owns the keeper's slot of the latest published
/// state and answers every reader from it. Its abstract value is that
/// published state.
pub struct ConnectionKeeper {
    state: ConnectionState,
}

impl View for ConnectionKeeper {
    type V = StateView;

    closed spec fn view(&self) -> StateView {
        self.state@
    }
}

impl ConnectionKeeper {
    /// Creates a keeper seeded with `Initializing`, together with the
    /// worker that will resolve it. The driver runs the worker's single
    /// attempt concurrently with every reader of the keeper and publishes
    /// the outcome through [`ConnectionKeeper::publish`]; `new` itself
    /// never waits on the attempt.
    pub fn new(
        shard_info: Option<ShardInfo>,
        has_shard_info_sender: bool,
        keyspace_name: Option<VerifiedKeyspaceName>,
    ) -> (r: (ConnectionKeeper, ConnectionKeeperWorker))
        ensures
            r.0@ is Initializing,
            r.1.shard_info == shard_info,
            r.1.has_shard_info_sender == has_shard_info_sender,
            r.1.used_keyspace == keyspace_name,
    {
        let keeper = ConnectionKeeper { state: ConnectionState::Initializing };
        let worker = ConnectionKeeperWorker {
            shard_info,
            has_shard_info_sender,
            used_keyspace: keyspace_name,
        };
        (keeper, worker)
    }

    /// Replaces the published state by the worker's outcome. The worker
    /// publishes exactly once, so the old state is `Initializing` and the
    /// new one terminal; after this no reader can observe `Initializing`
    /// again.
    pub fn publish(&mut self, state: ConnectionState)
        requires
            can_transition(old(self)@, state@),
        ensures
            final(self)@ == state@,
    {
        self.state = state;
    }

    /// The latest published state, as a cheap copy; never waits, even
    /// while the attempt is still running.
    pub fn connection_state(&self) -> (r: ConnectionState)
        ensures
            r@ == self@,
    {
        self.state.clone()
    }

    /// Whether the first attempt has resolved. A waiter suspends exactly
    /// while this is false and, once woken by a publish, finds it true
    /// forever: no transition leaves a terminal state.
    pub fn is_initialized(&self) -> (r: bool)
        ensures
            r == !(self@ is Initializing),
    {
        match &self.state {
            ConnectionState::Initializing => false,
            _ => true,
        }
    }

    /// The shared connection on `Connected`, the stored error on
    /// `Broken`. The caller has awaited initialization, so the state is
    /// terminal.
    pub fn get_connection(&self) -> (r: Result<Connection, QueryError>)
        requires
            !(self@ is Initializing),
        ensures
            attempt_view(r) == spec_get_connection(self@),
    {
        self.state.connection_result()
    }

    /// Result of selecting a keyspace through this keeper: the stored
    /// error when the keeper is `Broken`, otherwise the outcome of the
    /// selection call the driver issued on the shared connection
    /// (`call_outcome`), passed through unchanged. The caller has awaited
    /// initialization, so the state is terminal. This call never touches
    /// the keyspace the worker selects on a freshly opened connection;
    /// that one is fixed at construction time.
    pub fn use_keyspace(&self, call_outcome: Result<(), QueryError>) -> (r: Result<
        (),
        QueryError,
    >)
        requires
            !(self@ is Initializing),
        ensures
            unit_result_view(r) == spec_use_keyspace(self@, unit_result_view(call_outcome)),
            self@ is Connected ==> r == call_outcome,
    {
        match &self.state {
            ConnectionState::Connected(_) => call_outcome,
            ConnectionState::Broken(error) => Err(error.clone()),
            ConnectionState::Initializing => unreached(),
        }
    }
}

} // verus!
