//! Shard identity and shard-affine source-port selection.
//!
//! The server assigns every incoming connection to one of its shards by
//! taking the client's source port modulo the shard count. A client that
//! wants a connection to land on a particular shard therefore picks a
//! source port in the ephemeral range whose remainder is that shard.

use vstd::arithmetic::div_mod::{lemma_fundamental_div_mod, lemma_fundamental_div_mod_converse};
use vstd::prelude::*;

verus! {

/// The first port of the range the keeper draws source ports from.
pub const FIRST_SOURCE_PORT: u16 = 49152;

/// The largest shard count for which every shard still has a source port
/// in the range `FIRST_SOURCE_PORT..=u16::MAX` (that range holds 16384
/// ports, one remainder class per shard).
pub const MAX_SHARD_COUNT: u16 = 16384;

/// Identifies a target shard and the shard count of the server that the
/// connection is steered towards.
#[derive(Clone, Copy, PartialEq, Eq, Structural, Debug)]
pub struct ShardInfo {
    /// The shard the keeper wants its connection to land on.
    pub shard: u16,
    /// How many shards the server splits its workload into.
    pub nr_shards: u16,
}

/// The shard that the server's connection-acceptance logic assigns to a
/// connection arriving from `source_port`.
pub open spec fn shard_of_source_port(source_port: int, nr_shards: u16) -> int {
    source_port % (nr_shards as int)
}

/// The source port drawn for `shard` on a server with `nr_shards` shards:
/// the smallest port at or above `FIRST_SOURCE_PORT` whose remainder
/// modulo `nr_shards` is `shard`.
pub open spec fn spec_source_port(shard: u16, nr_shards: u16) -> int {
    let first = FIRST_SOURCE_PORT as int;
    let aligned = first - first % (nr_shards as int);
    if aligned + shard >= first {
        aligned + shard
    } else {
        aligned + shard + nr_shards
    }
}

impl ShardInfo {
    /// A shard identity makes sense when the shard lies below the shard
    /// count and every shard has a source port that fits in a `u16`.
    pub open spec fn is_valid(&self) -> bool {
        &&& 0 < self.nr_shards <= MAX_SHARD_COUNT
        &&& self.shard < self.nr_shards
    }

    /// Runtime check of [`ShardInfo::is_valid`], for drivers that receive
    /// the shard layout from outside and must test it before drawing a
    /// port.
    pub fn check_valid(&self) -> (r: bool)
        ensures
            r == self.is_valid(),
    {
        0 < self.nr_shards && self.nr_shards <= MAX_SHARD_COUNT && self.shard < self.nr_shards
    }

    /// Picks the source port that steers a new connection to `shard`:
    /// opening a socket bound to the returned port makes the server's
    /// port-modulo-shard-count assignment land the connection on `shard`.
    pub fn draw_source_port_for_shard(&self, shard: u16) -> (port: u16)
        requires
            self.is_valid(),
            shard < self.nr_shards,
        ensures
            port == spec_source_port(shard, self.nr_shards),
            shard_of_source_port(port as int, self.nr_shards) == shard,
            FIRST_SOURCE_PORT <= port,
    {
        proof {
            lemma_source_port_in_range(shard, self.nr_shards);
            lemma_source_port_routes_correctly(shard, self.nr_shards);
        }
        let nr: u32 = self.nr_shards as u32;
        let first: u32 = FIRST_SOURCE_PORT as u32;
        let aligned: u32 = first - first % nr;
        let candidate: u32 = aligned + shard as u32;
        let port32: u32 = if candidate >= first {
            candidate
        } else {
            candidate + nr
        };
        port32 as u16
    }
}

/// The drawn source port lies in the ephemeral range `FIRST_SOURCE_PORT..=u16::MAX`.
pub proof fn lemma_source_port_in_range(shard: u16, nr_shards: u16)
    requires
        0 < nr_shards <= MAX_SHARD_COUNT,
        shard < nr_shards,
    ensures
        FIRST_SOURCE_PORT <= spec_source_port(shard, nr_shards) <= u16::MAX,
{
    let first = FIRST_SOURCE_PORT as int;
    let nr = nr_shards as int;
    lemma_fundamental_div_mod(first, nr);
}

/// Shard-affinity law: the port drawn for a shard routes, under the
/// server's source-port shard assignment, to exactly that shard.
pub proof fn lemma_source_port_routes_correctly(shard: u16, nr_shards: u16)
    requires
        0 < nr_shards <= MAX_SHARD_COUNT,
        shard < nr_shards,
    ensures
        shard_of_source_port(spec_source_port(shard, nr_shards), nr_shards) == shard,
{
    let first = FIRST_SOURCE_PORT as int;
    let nr = nr_shards as int;
    let q = first / nr;
    lemma_fundamental_div_mod(first, nr);
    let aligned = first - first % nr;
    assert(aligned == q * nr);
    let port = spec_source_port(shard, nr_shards);
    if aligned + shard >= first {
        assert(port == q * nr + shard);
        lemma_fundamental_div_mod_converse(port, nr, q, shard as int);
    } else {
        assert(port == (q + 1) * nr + shard) by (nonlinear_arith)
            requires
                port == q * nr + shard + nr,
        ;
        lemma_fundamental_div_mod_converse(port, nr, q + 1, shard as int);
    }
}

} // verus!
