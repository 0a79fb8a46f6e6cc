//! A scoped parallel join of a fixed list of task bodies.
//!
//! Each join takes a fixed list of zero-argument bodies, submits them to
//! the fork-join scheduler (`rayon`), and returns only after every body
//! has run to completion, yielding every body's result. The bodies may —
//! but are not guaranteed to — run concurrently with one another: the
//! pool may run them all on a single worker. Because the call blocks
//! until every body finishes, a body may capture stack-local state owned
//! by the caller. If a body fails, the failure is re-raised at the join
//! point after the other bodies have still run.

use vstd::prelude::*;

verus! {

/// Relies on `rayon::join`: runs both bodies to completion, possibly in
/// parallel on the fork-join pool, and returns both results; a panic in
/// either body is propagated at the join point after both have run.
#[verifier::external_body]
fn join_raw<A, B, RA, RB>(body_a: A, body_b: B) -> (r: (RA, RB)) where
    A: FnOnce() -> RA + Send,
    B: FnOnce() -> RB + Send,
    RA: Send,
    RB: Send,

    requires
        call_requires(body_a, ()),
        call_requires(body_b, ()),
    ensures
        call_ensures(body_a, (), r.0),
        call_ensures(body_b, (), r.1),
{
    rayon::join(body_a, body_b)
}

/// Run two task bodies to completion and give both results back.
///
/// Each result is a value its body's own contract allows, and the call
/// returns only after both bodies have finished.
pub fn join2<A, B, RA, RB>(body_a: A, body_b: B) -> (r: (RA, RB)) where
    A: FnOnce() -> RA + Send,
    B: FnOnce() -> RB + Send,
    RA: Send,
    RB: Send,

    requires
        call_requires(body_a, ()),
        call_requires(body_b, ()),
    ensures
        call_ensures(body_a, (), r.0),
        call_ensures(body_b, (), r.1),
{
    join_raw(body_a, body_b)
}

/// Run three task bodies to completion and give all three results back.
///
/// Each result is a value its body's own contract allows, and the call
/// returns only after all three bodies have finished.
pub fn join3<A, B, C, RA, RB, RC>(body_a: A, body_b: B, body_c: C) -> (r: (RA, RB, RC)) where
    A: FnOnce() -> RA + Send,
    B: FnOnce() -> RB + Send,
    C: FnOnce() -> RC + Send,
    RA: Send,
    RB: Send,
    RC: Send,

    requires
        call_requires(body_a, ()),
        call_requires(body_b, ()),
        call_requires(body_c, ()),
    ensures
        call_ensures(body_a, (), r.0),
        call_ensures(body_b, (), r.1),
        call_ensures(body_c, (), r.2),
{
    let pair = (
    || -> (r: (RB, RC))
        requires
            call_requires(body_b, ()),
            call_requires(body_c, ()),
        ensures
            call_ensures(body_b, (), r.0),
            call_ensures(body_c, (), r.1),
        {
            join_raw(body_b, body_c)
        });
    let (ra, (rb, rc)) = join_raw(body_a, pair);
    (ra, rb, rc)
}

} // verus!
