//! Block ordering: a depth-first post-order numbering of the blocks reachable
//! from the entry block.
//!
//! Each successor is visited before the current block receives its index, and
//! already-visited blocks are skipped, so cycles terminate the traversal. The
//! worklist driver dequeues blocks in descending index order, approximating a
//! reverse-post-order forward traversal; this only reduces redundant
//! reprocessing, so the contract pins the structural facts the driver and its
//! callers rely on — the visited set grows and is closed under successors on
//! return, newly visited blocks receive fresh, distinct, contiguous indices,
//! and the root of a traversal is numbered after everything it reached.

use crate::cfg::{successors_in_range, Block};
use vstd::pervasive::VecAdditionalExecFns;
use vstd::prelude::*;

verus! {

/// How many entries of a visited table are still false.
pub open spec fn count_false(s: Seq<bool>) -> nat
    decreases s.len(),
{
    if s.len() == 0 {
        0
    } else {
        count_false(s.drop_last()) + if s.last() {
            0nat
        } else {
            1nat
        }
    }
}

/// Marking one unvisited entry strictly shrinks the unvisited count.
pub proof fn lemma_count_false_update_true(s: Seq<bool>, i: int)
    requires
        0 <= i < s.len(),
        !s[i],
    ensures
        count_false(s.update(i, true)) + 1 == count_false(s),
    decreases s.len(),
{
    if i == s.len() - 1 {
        assert(s.update(i, true).drop_last() =~= s.drop_last());
    } else {
        assert(s.update(i, true).drop_last() =~= s.drop_last().update(i, true));
        lemma_count_false_update_true(s.drop_last(), i);
    }
}

/// A visited table has at most as many unvisited entries as it is long.
pub proof fn lemma_count_false_le_len(s: Seq<bool>)
    ensures
        count_false(s) <= s.len(),
    decreases s.len(),
{
    if s.len() > 0 {
        lemma_count_false_le_len(s.drop_last());
    }
}

/// A pointwise-larger visited table has at most as many unvisited entries.
pub proof fn lemma_count_false_pointwise(s1: Seq<bool>, s2: Seq<bool>)
    requires
        s1.len() == s2.len(),
        forall|i: int| 0 <= i < s1.len() && s1[i] ==> s2[i],
    ensures
        count_false(s2) <= count_false(s1),
    decreases s1.len(),
{
    if s1.len() > 0 {
        lemma_count_false_pointwise(s1.drop_last(), s2.drop_last());
    }
}

/// What one traversal step does to the visited table, the index table, and
/// the running counter: visited entries only get added; the order entries of
/// previously visited blocks stay; the counter never retreats and advances by
/// at most the number of newly visited blocks; and every newly visited block
/// receives a fresh index in the window the counter moved across, no two of
/// them the same.
pub open spec fn rpo_step(
    n: int,
    v1: Seq<bool>,
    o1: Seq<usize>,
    i1: usize,
    v2: Seq<bool>,
    o2: Seq<usize>,
    i2: usize,
) -> bool {
    &&& v2.len() == n
    &&& o2.len() == n
    &&& forall|i: int| 0 <= i < n && v1[i] ==> v2[i]
    &&& forall|i: int| 0 <= i < n && v1[i] ==> o2[i] == o1[i]
    &&& i1 <= i2
    &&& i2 + count_false(v2) <= i1 + count_false(v1)
    &&& forall|i: int| 0 <= i < n && !v1[i] && v2[i] ==> i1 <= #[trigger] o2[i] < i2
    &&& forall|i: int, k: int|
        0 <= i < n && 0 <= k < n && i != k && !v1[i] && v2[i] && !v1[k] && v2[k] ==> #[trigger] o2[i]
            != #[trigger] o2[k]
}

/// Whether every block newly visited between two traversal snapshots has all
/// of its successors visited in the later snapshot: a depth-first traversal
/// never returns while a visited block still has an unvisited successor.
pub open spec fn rpo_closed(blocks: Seq<Block>, v1: Seq<bool>, v2: Seq<bool>) -> bool {
    forall|i: int, j: int|
        0 <= i < blocks.len() && !v1[i] && v2[i] && 0 <= j
            < blocks[i].terminator.spec_successors().len() ==> v2[(
        #[trigger] blocks[i].terminator.spec_successors()[j]) as int]
}

/// Successor closure composes across two traversal steps whose visited set
/// only grows.
pub proof fn lemma_rpo_closed_compose(
    blocks: Seq<Block>,
    v1: Seq<bool>,
    v2: Seq<bool>,
    v3: Seq<bool>,
)
    requires
        v1.len() == blocks.len(),
        v2.len() == blocks.len(),
        v3.len() == blocks.len(),
        forall|b: int|
            0 <= b < blocks.len() ==> successors_in_range(
                (#[trigger] blocks[b]).terminator,
                blocks.len() as int,
            ),
        rpo_closed(blocks, v1, v2),
        rpo_closed(blocks, v2, v3),
        forall|i: int| 0 <= i < v2.len() && v2[i] ==> v3[i],
    ensures
        rpo_closed(blocks, v1, v3),
{
    assert forall|i: int, j: int|
        0 <= i < blocks.len() && !v1[i] && v3[i] && 0 <= j
            < blocks[i].terminator.spec_successors().len() implies v3[(
    #[trigger] blocks[i].terminator.spec_successors()[j]) as int] by {
        if v2[i] {
            assert(successors_in_range(blocks[i].terminator, blocks.len() as int));
            assert(v2[(blocks[i].terminator.spec_successors()[j]) as int]);
        }
    }
}

/// Whether consecutive entries of `path` follow successor edges of `blocks`.
pub open spec fn is_path(blocks: Seq<Block>, path: Seq<usize>) -> bool {
    forall|k: int|
        0 <= k < path.len() - 1 ==> (#[trigger] path[k]) < blocks.len() && exists|j: int|
            0 <= j < blocks[path[k] as int].terminator.spec_successors().len() && (
            #[trigger] blocks[path[k] as int].terminator.spec_successors()[j]) == path[k + 1]
}

/// Whether `to` can be reached from `from` along successor edges.
pub open spec fn reachable(blocks: Seq<Block>, from: usize, to: usize) -> bool {
    exists|path: Seq<usize>|
        path.len() >= 1 && path.first() == from && path.last() == to && #[trigger] is_path(
            blocks,
            path,
        )
}

/// Every block reaches itself.
pub proof fn lemma_reachable_self(blocks: Seq<Block>, b: usize)
    ensures
        reachable(blocks, b, b),
{
    let path = seq![b];
    assert(is_path(blocks, path));
}

/// Reachability extends backwards across one successor edge.
pub proof fn lemma_reachable_step(blocks: Seq<Block>, from: usize, mid: usize, to: usize)
    requires
        from < blocks.len(),
        exists|j: int|
            0 <= j < blocks[from as int].terminator.spec_successors().len() && (
            #[trigger] blocks[from as int].terminator.spec_successors()[j]) == mid,
        reachable(blocks, mid, to),
    ensures
        reachable(blocks, from, to),
{
    let path = choose|path: Seq<usize>|
        path.len() >= 1 && path.first() == mid && path.last() == to && #[trigger] is_path(
            blocks,
            path,
        );
    let p2 = seq![from] + path;
    assert(p2.last() == to);
    assert forall|k: int| 0 <= k < p2.len() - 1 implies (#[trigger] p2[k]) < blocks.len()
        && exists|j: int|
        0 <= j < blocks[p2[k] as int].terminator.spec_successors().len() && (
        #[trigger] blocks[p2[k] as int].terminator.spec_successors()[j]) == p2[k + 1] by {
        if k == 0 {
            assert(p2[0] == from);
            assert(p2[1] == path[0]);
            let jw = choose|j: int|
                0 <= j < blocks[from as int].terminator.spec_successors().len() && (
                #[trigger] blocks[from as int].terminator.spec_successors()[j]) == mid;
            assert(blocks[p2[0] as int].terminator.spec_successors()[jw] == p2[1]);
        } else {
            assert(p2[k] == path[k - 1]);
            assert(p2[k + 1] == path[k]);
            let jw = choose|j: int|
                0 <= j < blocks[path[k - 1] as int].terminator.spec_successors().len() && (
                #[trigger] blocks[path[k - 1] as int].terminator.spec_successors()[j]) == path[k];
            assert(blocks[p2[k] as int].terminator.spec_successors()[jw] == p2[k + 1]);
        }
    }
    assert(is_path(blocks, p2));
}

/// The block table a traversal starts from: nothing visited yet.
pub open spec fn all_unvisited(n: nat) -> Seq<bool> {
    Seq::new(n, |i: int| false)
}

/// The index table a traversal starts from: every entry zero.
pub open spec fn zero_order(n: nat) -> Seq<usize> {
    Seq::new(n, |i: int| 0usize)
}

/// Whether `order` is the index table of a completed depth-first post-order
/// traversal of `blocks` from `entry`, started on fresh tables: some visited
/// set, closed under successors and holding the entry block, received the
/// distinct indices `0 .. ni`, and the entry block received the largest one.
pub open spec fn ordered_by_traversal(blocks: Seq<Block>, entry: usize, order: Seq<usize>) -> bool {
    exists|v: Seq<bool>, ni: usize|
        {
            &&& #[trigger] rpo_step(
                blocks.len() as int,
                all_unvisited(blocks.len()),
                zero_order(blocks.len()),
                0usize,
                v,
                order,
                ni,
            )
            &&& rpo_closed(blocks, all_unvisited(blocks.len()), v)
            &&& forall|i: int|
                0 <= i < blocks.len() && #[trigger] v[i] ==> reachable(blocks, entry, i as usize)
            &&& entry < v.len()
            &&& v[entry as int]
            &&& order[entry as int] + 1 == ni
        }
}

/// Two consecutive traversal steps make one.
pub proof fn lemma_rpo_step_compose(
    n: int,
    v1: Seq<bool>,
    o1: Seq<usize>,
    i1: usize,
    v2: Seq<bool>,
    o2: Seq<usize>,
    i2: usize,
    v3: Seq<bool>,
    o3: Seq<usize>,
    i3: usize,
)
    requires
        v1.len() == n,
        o1.len() == n,
        rpo_step(n, v1, o1, i1, v2, o2, i2),
        rpo_step(n, v2, o2, i2, v3, o3, i3),
    ensures
        rpo_step(n, v1, o1, i1, v3, o3, i3),
{
    assert forall|i: int| 0 <= i < n && !v1[i] && v3[i] implies i1 <= #[trigger] o3[i] < i3 by {
        if v2[i] {
            assert(o3[i] == o2[i]);
        }
    }
    assert forall|i: int, k: int|
        0 <= i < n && 0 <= k < n && i != k && !v1[i] && v3[i] && !v1[k] && v3[k] implies #[trigger] o3[i]
        != #[trigger] o3[k] by {
        if v2[i] && v2[k] {
            assert(o3[i] == o2[i]);
            assert(o3[k] == o2[k]);
        } else if v2[i] && !v2[k] {
            assert(o3[i] == o2[i]);
            assert(o2[i] < i2);
            assert(i2 <= o3[k]);
        } else if !v2[i] && v2[k] {
            assert(o3[k] == o2[k]);
            assert(o2[k] < i2);
            assert(i2 <= o3[i]);
        }
    }
}

/// Depth-first traversal from `block`: every successor is visited before
/// `block` itself receives the next free index, and blocks already visited
/// are skipped. On return the traversal has performed one [`rpo_step`], the
/// start block is visited, and — if it was not visited before — it carries
/// the largest index handed out, one below the final counter.
#[verifier::loop_isolation(false)]
pub fn reverse_post_order(
    blocks: &Vec<Block>,
    block: usize,
    order: &mut Vec<usize>,
    visited: &mut Vec<bool>,
    idx: &mut usize,
)
    requires
        old(order)@.len() == blocks@.len(),
        old(visited)@.len() == blocks@.len(),
        block < blocks@.len(),
        forall|b: int|
            0 <= b < blocks@.len() ==> successors_in_range(
                (#[trigger] blocks@[b]).terminator,
                blocks@.len() as int,
            ),
        *old(idx) + count_false(old(visited)@) <= usize::MAX,
    ensures
        rpo_step(
            blocks@.len() as int,
            old(visited)@,
            old(order)@,
            *old(idx),
            final(visited)@,
            final(order)@,
            *final(idx),
        ),
        rpo_closed(blocks@, old(visited)@, final(visited)@),
        forall|i: int|
            0 <= i < blocks@.len() && !old(visited)@[i] && (#[trigger] final(visited)@[i])
                ==> reachable(blocks@, block, i as usize),
        final(visited)@[block as int],
        !old(visited)@[block as int] ==> final(order)@[block as int] + 1 == *final(idx),
    decreases count_false(old(visited)@),
{
    if visited[block] {
        return ;
    }
    let ghost v_entry = visited@;
    let ghost o_entry = order@;
    let ghost i_entry = *idx;
    visited.set(block, true);
    proof {
        lemma_count_false_update_true(v_entry, block as int);
        lemma_reachable_self(blocks@, block);
    }
    let ghost v_mark = visited@;
    let t = blocks[block].terminator;
    assert(successors_in_range(blocks@[block as int].terminator, blocks@.len() as int));
    let succs = t.successors();
    let n = succs.len();
    let mut s: usize = 0;
    while s < n
        invariant
            s <= n,
            visited@.len() == blocks@.len(),
            order@.len() == blocks@.len(),
            rpo_step(blocks@.len() as int, v_mark, o_entry, i_entry, visited@, order@, *idx),
            rpo_closed(blocks@, v_mark, visited@),
            forall|j: int| 0 <= j < s ==> visited@[(#[trigger] succs@[j]) as int],
            forall|i: int|
                0 <= i < blocks@.len() && !v_entry[i] && (#[trigger] visited@[i]) ==> reachable(
                    blocks@,
                    block,
                    i as usize,
                ),
        decreases n - s,
    {
        let ghost v_cur = visited@;
        let ghost o_cur = order@;
        let ghost i_cur = *idx;
        proof {
            lemma_count_false_pointwise(v_mark, v_cur);
        }
        let suc = succs[s];
        reverse_post_order(blocks, suc, order, visited, idx);
        proof {
            lemma_rpo_step_compose(
                blocks@.len() as int,
                v_mark,
                o_entry,
                i_entry,
                v_cur,
                o_cur,
                i_cur,
                visited@,
                order@,
                *idx,
            );
            lemma_rpo_closed_compose(blocks@, v_mark, v_cur, visited@);
            assert forall|j: int| 0 <= j < s + 1 implies visited@[(#[trigger] succs@[j]) as int] by {
                if j < s {
                    assert(v_cur[succs@[j] as int]);
                }
            }
            assert forall|i: int|
                0 <= i < blocks@.len() && !v_entry[i] && (#[trigger] visited@[i]) implies reachable(
                blocks@,
                block,
                i as usize,
            ) by {
                if !v_cur[i] {
                    assert(reachable(blocks@, suc, i as usize));
                    assert(blocks@[block as int].terminator.spec_successors()[s as int] == suc);
                    lemma_reachable_step(blocks@, block, suc, i as usize);
                }
            }
        }
        s = s + 1;
    }
    proof {
        lemma_count_false_pointwise(v_mark, visited@);
    }
    let ghost v_loop = visited@;
    let ghost o_loop = order@;
    let ghost i_loop = *idx;
    let cur = *idx;
    order.set(block, cur);
    *idx = cur + 1;
    proof {
        let nl = blocks@.len() as int;
        assert forall|i: int, j: int|
            0 <= i < nl && !v_entry[i] && visited@[i] && 0 <= j
                < blocks@[i].terminator.spec_successors().len() implies visited@[(
        #[trigger] blocks@[i].terminator.spec_successors()[j]) as int] by {
            if i == block as int {
                assert(succs@[j] == blocks@[i].terminator.spec_successors()[j]);
                assert(visited@[succs@[j] as int]);
            } else {
                assert(!v_mark[i]);
            }
        }
        assert(rpo_closed(blocks@, v_entry, visited@));
        assert forall|i: int| 0 <= i < nl && !v_entry[i] && visited@[i] implies i_entry
            <= #[trigger] order@[i] < *idx by {
            if i != block as int {
                assert(!v_mark[i]);
                assert(order@[i] == o_loop[i]);
            }
        }
        assert forall|i: int, k: int|
            0 <= i < nl && 0 <= k < nl && i != k && !v_entry[i] && visited@[i] && !v_entry[k]
                && visited@[k] implies #[trigger] order@[i] != #[trigger] order@[k] by {
            if i == block as int {
                assert(!v_mark[k]);
                assert(order@[k] == o_loop[k]);
                assert(o_loop[k] < i_loop);
            } else if k == block as int {
                assert(!v_mark[i]);
                assert(order@[i] == o_loop[i]);
                assert(o_loop[i] < i_loop);
            } else {
                assert(!v_mark[i] && !v_mark[k]);
                assert(order@[i] == o_loop[i] && order@[k] == o_loop[k]);
            }
        }
    }
}

} // verus!
