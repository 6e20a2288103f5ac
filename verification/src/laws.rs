//! The guarantees the keeper advertises, stated and proved as laws over
//! the decision core's specification functions.

use crate::connection::ConnectionView;
use crate::keeper::{
    can_transition, spec_chosen_source_port, spec_get_connection, spec_published_state,
    spec_shard_info_update, spec_use_keyspace, StateView, WorkerView,
};
use crate::routing::{
    lemma_source_port_in_range, lemma_source_port_routes_correctly, shard_of_source_port,
    ShardInfo,
};
use vstd::prelude::*;

verus! {

/// The sequence of states a keeper publishes over its lifetime: it starts
/// at `Initializing` and every later entry comes from a legal transition
/// out of the one before it.
pub open spec fn valid_history(h: Seq<StateView>) -> bool {
    &&& h.len() > 0
    &&& h[0] is Initializing
    &&& forall|i: int| 0 < i < h.len() ==> can_transition(h[i - 1], #[trigger] h[i])
}

/// Every observer of the published state sees `Initializing` first and
/// then at most one terminal state: a history never returns to
/// `Initializing` after leaving it, and holds at most one transition.
pub proof fn lemma_history_never_reverts(h: Seq<StateView>)
    requires
        valid_history(h),
    ensures
        h.len() <= 2,
        forall|i: int| 0 < i < h.len() ==> !((#[trigger] h[i]) is Initializing),
{
    assert forall|i: int| 0 < i < h.len() implies !((#[trigger] h[i]) is Initializing) by {
        assert(can_transition(h[i - 1], h[i]));
    }
    if h.len() > 2 {
        assert(can_transition(h[0], h[1]));
        assert(can_transition(h[1], h[2]));
    }
}

/// Whatever the attempt's outcome, the state the worker prescribes is a
/// legal publish out of `Initializing`: the one transition of the
/// keeper's state machine.
pub proof fn lemma_work_outcome_is_legal_transition(
    w: WorkerView,
    opened: Result<ConnectionView, Seq<char>>,
)
    ensures
        can_transition(StateView::Initializing, spec_published_state(w, opened)),
{
}

/// `Connected` and `Broken` are terminal: no transition leaves them. A
/// waiter woken by the publish therefore finds the state initialized and
/// it stays so; no later observation sees `Initializing` again.
pub proof fn lemma_terminal_states_are_final(pre: StateView, post: StateView)
    requires
        !(pre is Initializing),
    ensures
        !can_transition(pre, post),
{
}

/// When shard affinity was requested, the source port the worker hands
/// the driver for the wire open routes, under the server's source-port
/// shard assignment, to exactly the requested shard.
pub proof fn lemma_chosen_port_routes_to_shard(w: WorkerView, si: ShardInfo)
    requires
        w.shard_info == Some(si),
        si.is_valid(),
    ensures
        spec_chosen_source_port(w) matches Some(port) && shard_of_source_port(
            port as int,
            si.nr_shards,
        ) == si.shard,
{
    lemma_source_port_in_range(si.shard, si.nr_shards);
    lemma_source_port_routes_correctly(si.shard, si.nr_shards);
}

/// A keeper built with a keyspace publishes, on a successful attempt,
/// a `Connected` state whose connection carries that keyspace as its
/// selected one, with identity and shard layout untouched. The published
/// state is a function of the worker and the opened connection alone, so
/// this holds whatever the keyspace-selection wire call returned.
pub proof fn lemma_initial_keyspace_selected(w: WorkerView, opened: ConnectionView, name: Seq<char>)
    requires
        w.used_keyspace == Some(name),
    ensures
        spec_published_state(w, Ok(opened)) matches StateView::Connected(c) && c.keyspace == Some(
            name,
        ) && c.id == opened.id && c.shard_info == opened.shard_info,
{
}

/// The connection a consumer gets is a function of the published state
/// alone: repeated calls after a success all return the one shared
/// connection stored in the `Connected` state, never a fresh one.
pub proof fn lemma_get_connection_stable(
    s: StateView,
    r1: Result<ConnectionView, Seq<char>>,
    r2: Result<ConnectionView, Seq<char>>,
)
    requires
        s is Connected,
        r1 == spec_get_connection(s),
        r2 == spec_get_connection(s),
    ensures
        r1 == r2,
        s matches StateView::Connected(c) ==> r1 == Ok::<ConnectionView, Seq<char>>(c),
{
}

/// A failed attempt with a given error is published as `Broken` with that
/// error, nothing is forwarded to the shard-info sink, and both consumer
/// paths surface an equal error: `get_connection` returns it, and
/// selecting any keyspace returns it whatever the wire call would have
/// produced.
pub proof fn lemma_broken_error_propagates(
    w: WorkerView,
    error: Seq<char>,
    call_outcome: Result<(), Seq<char>>,
)
    ensures
        spec_published_state(w, Err(error)) == StateView::Broken(error),
        spec_shard_info_update(w, Err(error)) is None,
        spec_get_connection(StateView::Broken(error)) == Err::<ConnectionView, Seq<char>>(error),
        spec_use_keyspace(StateView::Broken(error), call_outcome) == Err::<(), Seq<char>>(error),
{
}

} // verus!
