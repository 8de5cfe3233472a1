//! The plan of a connection pool: which connection actors to start, from
//! which local address to which remote one, and on which queues.
use vstd::prelude::*;

verus! {

/// The port of the remote service.
pub const REMOTE_PORT: u16 = 443;

/// One of the two job queues.
#[derive(Debug, Clone, Copy, PartialEq, Eq, Structural)]
pub enum Lane {
    /// New submissions.
    Fresh,
    /// Jobs that failed once and are tried again.
    Retry,
}

/// One connection actor to start. Addresses are IPv4 addresses as 32-bit
/// numbers, most significant octet first.
#[derive(Debug, Clone, Copy, PartialEq, Eq, Structural)]
pub struct ActorPlan {
    pub local: u32,
    pub remote: u32,
    /// The queue it takes jobs from.
    pub consumes: Lane,
    /// The queue it puts failed jobs back on.
    pub requeues_to: Lane,
}

/// The actor from `local` to `remote` in the group that consumes `lane`;
/// every group requeues to the retry lane.
pub open spec fn actor(local: u32, remote: u32, lane: Lane) -> ActorPlan {
    ActorPlan { local, remote, consumes: lane, requeues_to: Lane::Retry }
}

/// The actors from `local` to each of `remotes`, in order.
pub open spec fn row(local: u32, remotes: Seq<u32>, lane: Lane) -> Seq<ActorPlan> {
    remotes.map_values(|r: u32| actor(local, r, lane))
}

/// The actors from each of `locals` to each of `remotes`, local by local.
pub open spec fn grid(locals: Seq<u32>, remotes: Seq<u32>, lane: Lane) -> Seq<ActorPlan>
    decreases locals.len(),
{
    if locals.len() == 0 {
        Seq::empty()
    } else {
        grid(locals.drop_last(), remotes, lane) + row(locals.last(), remotes, lane)
    }
}

/// `s` repeated `k` times.
pub open spec fn repeat(s: Seq<ActorPlan>, k: nat) -> Seq<ActorPlan>
    decreases k,
{
    if k == 0 {
        Seq::empty()
    } else {
        repeat(s, (k - 1) as nat) + s
    }
}

/// The whole pool: the fresh grid `fresh_multiplier` times, then the retry
/// grid `retry_multiplier` times.
pub open spec fn pool(fresh: Seq<u32>, retry: Seq<u32>, remotes: Seq<u32>, fresh_multiplier: nat, retry_multiplier: nat) -> Seq<ActorPlan> {
    repeat(grid(fresh, remotes, Lane::Fresh), fresh_multiplier) + repeat(grid(retry, remotes, Lane::Retry), retry_multiplier)
}

/// A grid has one actor per pair of a local and a remote address.
pub proof fn grid_len(locals: Seq<u32>, remotes: Seq<u32>, lane: Lane)
    ensures
        grid(locals, remotes, lane).len() == locals.len() * remotes.len(),
    decreases locals.len(),
{
    if locals.len() > 0 {
        grid_len(locals.drop_last(), remotes, lane);
        assert((locals.len() - 1) * remotes.len() + remotes.len() == locals.len() * remotes.len()) by (nonlinear_arith);
    }
}

/// Repeating a plan `k` times multiplies its length by `k`.
pub proof fn repeat_len(s: Seq<ActorPlan>, k: nat)
    ensures
        repeat(s, k).len() == k * s.len(),
    decreases k,
{
    if k > 0 {
        repeat_len(s, (k - 1) as nat);
        assert((k - 1) * s.len() + s.len() == k * s.len()) by (nonlinear_arith);
    } else {
        assert(0 * s.len() == 0);
    }
}

/// The pool has `|fresh| * |remotes| * fresh_multiplier` actors on the fresh
/// lane and `|retry| * |remotes| * retry_multiplier` on the retry lane, and
/// every one of them requeues failures to the retry lane.
pub proof fn pool_shape(fresh: Seq<u32>, retry: Seq<u32>, remotes: Seq<u32>, fresh_multiplier: nat, retry_multiplier: nat)
    ensures
        pool(fresh, retry, remotes, fresh_multiplier, retry_multiplier).len()
            == fresh.len() * remotes.len() * fresh_multiplier + retry.len() * remotes.len() * retry_multiplier,
{
    grid_len(fresh, remotes, Lane::Fresh);
    grid_len(retry, remotes, Lane::Retry);
    repeat_len(grid(fresh, remotes, Lane::Fresh), fresh_multiplier);
    repeat_len(grid(retry, remotes, Lane::Retry), retry_multiplier);
    assert(fresh_multiplier * (fresh.len() * remotes.len()) == fresh.len() * remotes.len() * fresh_multiplier) by (nonlinear_arith);
    assert(retry_multiplier * (retry.len() * remotes.len()) == retry.len() * remotes.len() * retry_multiplier) by (nonlinear_arith);
}

/// Appends the grid from each of `locals` to each of `remotes` to `out`.
fn push_grid(out: &mut Vec<ActorPlan>, locals: &Vec<u32>, remotes: &Vec<u32>, lane: Lane)
    ensures
        final(out)@ == old(out)@ + grid(locals@, remotes@, lane),
{
    let ghost start = out@;
    let mut i: usize = 0;
    while i < locals.len()
        invariant
            i <= locals@.len(),
            out@ == start + grid(locals@.take(i as int), remotes@, lane),
        decreases locals@.len() - i,
    {
        let ghost before = out@;
        let mut j: usize = 0;
        while j < remotes.len()
            invariant
                i < locals@.len(),
                j <= remotes@.len(),
                out@ == before + row(locals@[i as int], remotes@.take(j as int), lane),
            decreases remotes@.len() - j,
        {
            out.push(ActorPlan { local: locals[i], remote: remotes[j], consumes: lane, requeues_to: Lane::Retry });
            proof {
                assert(row(locals@[i as int], remotes@.take(j + 1), lane) =~= row(locals@[i as int], remotes@.take(j as int), lane).push(
                    actor(locals@[i as int], remotes@[j as int], lane),
                ));
            }
            j = j + 1;
        }
        proof {
            assert(remotes@.take(remotes@.len() as int) =~= remotes@);
            assert(locals@.take(i + 1).drop_last() =~= locals@.take(i as int));
            assert(locals@.take(i + 1).last() == locals@[i as int]);
        }
        i = i + 1;
    }
    proof {
        assert(locals@.take(locals@.len() as int) =~= locals@);
    }
}

/// The plan of a pool: from each fresh local address to each remote one,
/// `fresh_multiplier` times, an actor that consumes the fresh lane; from each
/// retry local address to each remote one, `retry_multiplier` times, an actor
/// that consumes the retry lane. Every actor requeues to the retry lane.
pub fn plan_pool(fresh: &Vec<u32>, retry: &Vec<u32>, remotes: &Vec<u32>, fresh_multiplier: u8, retry_multiplier: u8) -> (r: Vec<ActorPlan>)
    ensures
        r@ == pool(fresh@, retry@, remotes@, fresh_multiplier as nat, retry_multiplier as nat),
{
    let mut out: Vec<ActorPlan> = Vec::new();
    let mut k: u8 = 0;
    while k < fresh_multiplier
        invariant
            k <= fresh_multiplier,
            out@ == repeat(grid(fresh@, remotes@, Lane::Fresh), k as nat),
        decreases fresh_multiplier - k,
    {
        push_grid(&mut out, fresh, remotes, Lane::Fresh);
        k = k + 1;
    }
    let ghost fresh_part = out@;
    let mut k: u8 = 0;
    while k < retry_multiplier
        invariant
            k <= retry_multiplier,
            out@ == fresh_part + repeat(grid(retry@, remotes@, Lane::Retry), k as nat),
        decreases retry_multiplier - k,
    {
        push_grid(&mut out, retry, remotes, Lane::Retry);
        proof {
            let g = grid(retry@, remotes@, Lane::Retry);
            assert(fresh_part + repeat(g, k as nat) + g =~= fresh_part + (repeat(g, k as nat) + g));
        }
        k = k + 1;
    }
    out
}

} // verus!
