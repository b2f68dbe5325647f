use crate::trace::Trace;
use vstd::prelude::*;

verus! {

/// The time attributed to measured sub-queries, in milliseconds: for a
/// sub-query, its own elapsed time plus that of its descendants; for the
/// root, that of its children alone, since the root's own elapsed time is its
/// total wall time.
pub open spec fn measured_time(t: Trace) -> nat
    decreases t,
{
    match t {
        Trace::Root { children, .. } => children_time(children@),
        Trace::Query { elapsed, children, .. } => (elapsed + children_time(children@)) as nat,
    }
}

/// The summed [`measured_time`] of a sequence of children.
pub open spec fn children_time(cs: Seq<(String, Trace)>) -> nat
    decreases cs,
{
    if cs.len() == 0 {
        0
    } else {
        (children_time(cs.drop_last()) + measured_time(cs.last().1)) as nat
    }
}

/// `n` where it fits in a `u64`, else the largest `u64`.
pub open spec fn capped(n: nat) -> u64 {
    if n <= u64::MAX {
        n as u64
    } else {
        u64::MAX
    }
}

/// The elapsed time that a node declares.
pub open spec fn elapsed_of(t: Trace) -> u64 {
    match t {
        Trace::Root { elapsed, .. } => elapsed,
        Trace::Query { elapsed, .. } => elapsed,
    }
}

/// The part of `elapsed` not spent in sub-queries that took `query` in all;
/// zero where the sub-queries took longer than `elapsed`.
pub open spec fn other_of(elapsed: u64, query: u64) -> u64 {
    if query <= elapsed {
        (elapsed - query) as u64
    } else {
        0
    }
}

proof fn lemma_capped_sum(a: nat, b: nat)
    ensures
        capped(a + b) == capped(a).saturating_add(capped(b)),
{
}

/// Computes [`measured_time`] in milliseconds, saturating at the largest
/// `u64`.
pub fn query_time(trace: &Trace) -> (r: u64)
    ensures
        r == capped(measured_time(*trace)),
    decreases trace,
{
    match trace {
        Trace::Root { children, .. } => children_query_time(children),
        Trace::Query { elapsed, children, .. } => {
            let inner: u64 = children_query_time(children);
            proof {
                lemma_capped_sum(*elapsed as nat, children_time(children@));
            }
            elapsed.saturating_add(inner)
        },
    }
}

/// Computes [`children_time`] in milliseconds, saturating at the largest
/// `u64`.
fn children_query_time(children: &Vec<(String, Trace)>) -> (r: u64)
    ensures
        r == capped(children_time(children@)),
    decreases children,
{
    let mut total: u64 = 0;
    let mut i: usize = 0;
    while i < children.len()
        invariant
            i <= children@.len(),
            total == capped(children_time(children@.subrange(0, i as int))),
        decreases children@.len() - i,
    {
        let ghost done = children@.subrange(0, i as int);
        assert(children@.subrange(0, i + 1).drop_last() =~= done);
        proof {
            assert(decreases_to!(children => children@[i as int]));
        }
        let t: u64 = query_time(&children[i].1);
        proof {
            lemma_capped_sum(children_time(done), measured_time(children@[i as int].1));
        }
        total = total.saturating_add(t);
        i = i + 1;
    }
    assert(children@.subrange(0, children@.len() as int) =~= children@);
    total
}

/// The root's overhead outside measured sub-queries: its elapsed time less
/// [`query_time`], clamped at zero where the sub-queries add up to more.
pub fn other_time(root: &Trace) -> (r: u64)
    ensures
        r == other_of(elapsed_of(*root), capped(measured_time(*root))),
{
    let elapsed: u64 = match root {
        Trace::Root { elapsed, .. } => *elapsed,
        Trace::Query { elapsed, .. } => *elapsed,
    };
    let query: u64 = query_time(root);
    if query <= elapsed {
        elapsed - query
    } else {
        0
    }
}

} // verus!
