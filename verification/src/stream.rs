//! Streams as seen by the connection layer: an identifier and a
//! directionality. Stream identifiers are allocated deterministically by
//! [`crate::connection::Connection::generate_stream_id`]; the facts that make
//! the scheme safe (reserved identifiers, injectivity, monotonicity) are
//! stated and proved here.

use vstd::prelude::*;

verus! {

/// A stream identifier.
pub type Id = u64;

/// Directionality of a stream: data flows in both directions
/// (`Bidirectional`) or only from the stream's initiator (`Unidirectional`).
#[derive(Clone, Copy, Debug, PartialEq, Eq, Structural)]
pub enum Type {
    Bidirectional,
    Unidirectional,
}

/// The largest counter value for which the allocated stream identifier still
/// fits in 64 bits.
pub const MAX_STREAM_COUNTER: u64 = 0x3FFF_FFFF_FFFF_FFFE;

/// The identifier allocated for counter `next_id` by an endpoint with role
/// `is_client` for a stream of directionality `stype`: identifiers 0 to 3 are
/// reserved, the counter selects the step along one of four interleaved
/// arithmetic progressions of step 4, and the role and the directionality
/// select the progression through the two low bits.
pub open spec fn stream_id_spec(next_id: u64, is_client: bool, stype: Type) -> int {
    (next_id + 1) * 4
        + (if is_client { 0int } else { 1int })
        + (if stype == Type::Unidirectional { 2int } else { 0int })
}

/// The reserved identifiers 0 to 3 are never allocated.
pub proof fn lemma_stream_id_reserved(next_id: u64, is_client: bool, stype: Type)
    ensures
        stream_id_spec(next_id, is_client, stype) >= 4,
{
}

/// The allocator is injective across the four (role, directionality)
/// combinations: two distinct combinations never yield the same identifier,
/// for any pair of counters.
pub proof fn lemma_stream_id_combinations_disjoint(
    n1: u64,
    c1: bool,
    t1: Type,
    n2: u64,
    c2: bool,
    t2: Type,
)
    requires
        !(c1 == c2 && t1 == t2),
    ensures
        stream_id_spec(n1, c1, t1) != stream_id_spec(n2, c2, t2),
{
}

/// For a fixed (role, directionality) combination the allocated identifier is
/// strictly increasing in the counter, so a caller that increments its
/// counter after each allocation never sees a collision within the
/// combination either.
pub proof fn lemma_stream_id_strictly_increasing(n1: u64, n2: u64, is_client: bool, stype: Type)
    requires
        n1 < n2,
    ensures
        stream_id_spec(n1, is_client, stype) < stream_id_spec(n2, is_client, stype),
{
}

/// Allocated identifiers are unique outright: two allocations collide only
/// when the counter, the role and the directionality are all the same. So a
/// caller that increments its counter after each allocation never reuses an
/// identifier, and the two endpoints of a connection never clash without
/// any negotiation.
pub proof fn lemma_stream_id_unique(n1: u64, c1: bool, t1: Type, n2: u64, c2: bool, t2: Type)
    requires
        !(n1 == n2 && c1 == c2 && t1 == t2),
    ensures
        stream_id_spec(n1, c1, t1) != stream_id_spec(n2, c2, t2),
{
    if c1 == c2 && t1 == t2 {
        if n1 < n2 {
            lemma_stream_id_strictly_increasing(n1, n2, c1, t1);
        } else {
            lemma_stream_id_strictly_increasing(n2, n1, c1, t1);
        }
    } else {
        lemma_stream_id_combinations_disjoint(n1, c1, t1, n2, c2, t2);
    }
}

/// The allocator is a pure function: equal inputs always give the equal
/// identifier, whatever else the endpoint has done in between.
pub proof fn lemma_stream_id_deterministic(
    n1: u64,
    c1: bool,
    t1: Type,
    n2: u64,
    c2: bool,
    t2: Type,
)
    requires
        n1 == n2,
        c1 == c2,
        t1 == t2,
    ensures
        stream_id_spec(n1, c1, t1) == stream_id_spec(n2, c2, t2),
{
}

} // verus!
