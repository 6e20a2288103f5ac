use connection_keeper::connection::{Connection, VerifiedKeyspaceName};
use connection_keeper::errors::QueryError;
use connection_keeper::keeper::{ConnectionKeeper, ConnectionState};
use connection_keeper::routing::ShardInfo;

fn keyspace(name: &str) -> VerifiedKeyspaceName {
    VerifiedKeyspaceName::new(String::from(name))
}

fn error(message: &str) -> QueryError {
    QueryError::new(String::from(message))
}

#[test]
fn keeper_starts_initializing() {
    let (keeper, _worker) = ConnectionKeeper::new(None, false, None);
    assert!(matches!(
        keeper.connection_state(),
        ConnectionState::Initializing
    ));
    assert!(!keeper.is_initialized());
}

#[test]
fn successful_attempt_publishes_connected() {
    let (mut keeper, worker) = ConnectionKeeper::new(None, false, None);
    let outcome = worker.work(Ok(Connection::new(7, None)), Ok(()));
    keeper.publish(outcome.published);
    assert!(keeper.is_initialized());
    match keeper.connection_state() {
        ConnectionState::Connected(conn) => assert_eq!(conn.id, 7),
        _ => panic!("expected a connected state"),
    }
}

#[test]
fn state_never_reverts_after_publish() {
    let (mut keeper, worker) = ConnectionKeeper::new(None, false, None);
    assert!(matches!(
        keeper.connection_state(),
        ConnectionState::Initializing
    ));
    let outcome = worker.work(Ok(Connection::new(1, None)), Ok(()));
    keeper.publish(outcome.published);
    // Every later observation sees the one terminal state.
    for _ in 0..3 {
        assert!(keeper.is_initialized());
        assert!(matches!(
            keeper.connection_state(),
            ConnectionState::Connected(_)
        ));
    }
}

#[test]
fn get_connection_returns_same_handle() {
    let (mut keeper, worker) = ConnectionKeeper::new(None, false, None);
    let outcome = worker.work(Ok(Connection::new(42, None)), Ok(()));
    keeper.publish(outcome.published);
    let first = keeper.get_connection().expect("keeper is connected");
    let second = keeper.get_connection().expect("keeper is connected");
    assert_eq!(first.id, 42);
    assert_eq!(first.id, second.id);
}

#[test]
fn broken_attempt_propagates_equal_error() {
    let (mut keeper, worker) = ConnectionKeeper::new(None, false, None);
    let outcome = worker.work(Err(error("connection refused")), Ok(()));
    keeper.publish(outcome.published);
    assert!(outcome.shard_info_update.is_none());
    match keeper.connection_state() {
        ConnectionState::Broken(e) => assert_eq!(e.message, "connection refused"),
        _ => panic!("expected a broken state"),
    }
    match keeper.get_connection() {
        Err(e) => assert_eq!(e.message, "connection refused"),
        Ok(_) => panic!("expected the stored error"),
    }
    match keeper.use_keyspace(Ok(())) {
        Err(e) => assert_eq!(e.message, "connection refused"),
        Ok(()) => panic!("expected the stored error"),
    }
    match keeper.use_keyspace(Err(error("other"))) {
        Err(e) => assert_eq!(e.message, "connection refused"),
        Ok(()) => panic!("expected the stored error"),
    }
}

#[test]
fn initial_keyspace_is_selected_on_fresh_connection() {
    let (mut keeper, worker) = ConnectionKeeper::new(None, false, Some(keyspace("ks1")));
    let outcome = worker.work(Ok(Connection::new(3, None)), Ok(()));
    keeper.publish(outcome.published);
    let conn = keeper.get_connection().expect("keeper is connected");
    assert_eq!(conn.keyspace.expect("keyspace was selected").name, "ks1");
}

#[test]
fn failed_keyspace_selection_still_connects() {
    let (mut keeper, worker) = ConnectionKeeper::new(None, false, Some(keyspace("ks1")));
    let outcome = worker.work(Ok(Connection::new(3, None)), Err(error("no such keyspace")));
    keeper.publish(outcome.published);
    match keeper.connection_state() {
        ConnectionState::Connected(conn) => {
            assert_eq!(conn.keyspace.expect("selection was issued").name, "ks1");
        }
        _ => panic!("a failed keyspace selection must not break the keeper"),
    }
}

#[test]
fn no_keyspace_means_none_selected() {
    let (mut keeper, worker) = ConnectionKeeper::new(None, false, None);
    let outcome = worker.work(Ok(Connection::new(3, None)), Ok(()));
    keeper.publish(outcome.published);
    let conn = keeper.get_connection().expect("keeper is connected");
    assert!(conn.keyspace.is_none());
}

#[test]
fn use_keyspace_passes_wire_outcome_through() {
    let (mut keeper, worker) = ConnectionKeeper::new(None, false, None);
    let outcome = worker.work(Ok(Connection::new(9, None)), Ok(()));
    keeper.publish(outcome.published);
    assert!(keeper.use_keyspace(Ok(())).is_ok());
    match keeper.use_keyspace(Err(error("no such keyspace"))) {
        Err(e) => assert_eq!(e.message, "no such keyspace"),
        Ok(()) => panic!("expected the wire error back"),
    }
}

#[test]
fn worker_port_matches_drawn_port_for_shard() {
    let info = ShardInfo { shard: 3, nr_shards: 8 };
    let (_keeper, worker) = ConnectionKeeper::new(Some(info), false, None);
    let port = worker.source_port().expect("shard affinity was requested");
    assert_eq!(port, info.draw_source_port_for_shard(3));
    assert_eq!(port % 8, 3);
}

#[test]
fn no_shard_affinity_means_no_source_port() {
    let (_keeper, worker) = ConnectionKeeper::new(None, false, None);
    assert!(worker.source_port().is_none());
}

#[test]
fn shard_info_forwarded_when_sink_configured() {
    let info = ShardInfo { shard: 1, nr_shards: 2 };
    let (_keeper, worker) = ConnectionKeeper::new(Some(info), true, None);
    let outcome = worker.work(Ok(Connection::new(5, Some(info))), Ok(()));
    assert_eq!(outcome.shard_info_update, Some(Some(info)));
}

#[test]
fn shard_info_not_forwarded_without_sink() {
    let info = ShardInfo { shard: 1, nr_shards: 2 };
    let (_keeper, worker) = ConnectionKeeper::new(Some(info), false, None);
    let outcome = worker.work(Ok(Connection::new(5, Some(info))), Ok(()));
    assert!(outcome.shard_info_update.is_none());
}

#[test]
fn connection_records_issued_keyspace_selection() {
    let mut conn = Connection::new(11, None);
    assert!(conn.get_shard_info().is_none());
    conn.select_keyspace(&keyspace("ks2"));
    assert_eq!(conn.keyspace.expect("selection recorded").name, "ks2");
}

#[test]
fn error_values_clone_equal() {
    let e = error("boom");
    let copy = e.clone();
    assert_eq!(copy.message, "boom");
    assert_eq!(copy.message, e.message);
}
