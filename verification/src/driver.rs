//! The worklist driver: the fixpoint loop of the analysis.
//!
//! The entry block starts at top, every other block at bottom, and the entry
//! block is the only block initially pending. Each round dequeues the pending
//! block with the highest post-order index, pushes its stored state through
//! the block's statements — splitting it on a boolean-guarded branch — joins
//! the outcome into the stored states of the successors, and re-enqueues each
//! successor whose stored state actually grew. Stored states grow
//! monotonically in a finite-height lattice, so the loop terminates, and when
//! the queue empties the stored states are a post-fixpoint of the transfer
//! functions: what flows out of every processed block is already covered by
//! the stored state of each successor.

use crate::cfg::{graph_wf, successors_in_range, FunctionGraph, Statement, Terminator, VarType};
use crate::lattice::{lemma_rank_join, rank, SignAnalysis};
use crate::order::{
    all_unvisited, lemma_count_false_le_len, ordered_by_traversal, reachable, reverse_post_order,
    rpo_closed, rpo_step, zero_order,
};
use crate::state::{
    compat, filled, lemma_branch_side_tracks, lemma_flow_call_tracks, lemma_state_join_le,
    lemma_state_join_tracks, lemma_state_le_refl, lemma_state_le_trans, lemma_tracks_compat,
    spec_branch_side, spec_equiv_after_assign, spec_flow_assign, spec_flow_call, state_join,
    state_le, tracks, AbsState, EquivMap,
};
use vstd::pervasive::VecAdditionalExecFns;
use vstd::prelude::*;

verus! {

/// How far a slot can still grow: the lattice height minus the rank of the
/// value it holds. Untracked slots never grow.
pub open spec fn slot_cap(v: Option<SignAnalysis>) -> nat {
    match v {
        None => 0,
        Some(x) => (3 - rank(x)) as nat,
    }
}

/// How far a whole state can still grow.
pub open spec fn seq_cap(s: Seq<Option<SignAnalysis>>) -> nat
    decreases s.len(),
{
    if s.len() == 0 {
        0
    } else {
        seq_cap(s.drop_last()) + slot_cap(s.last())
    }
}

/// How far the whole stored-state table can still grow.
pub open spec fn total_cap(states: Seq<AbsState>) -> nat
    decreases states.len(),
{
    if states.len() == 0 {
        0
    } else {
        total_cap(states.drop_last()) + seq_cap(states.last()@)
    }
}

/// A single state can absorb at most `3 · n` join steps that change it: each
/// tracked slot climbs the lattice, whose height is 3, at most once per level.
pub proof fn lemma_seq_cap_bound(s: Seq<Option<SignAnalysis>>)
    ensures
        seq_cap(s) <= 3 * s.len(),
    decreases s.len(),
{
    if s.len() > 0 {
        lemma_seq_cap_bound(s.drop_last());
    }
}

/// The whole stored-state table can absorb at most
/// `3 · (block count) · (tracked-variable count)` changing joins — the bound
/// on state updates the worklist loop's termination measure realizes.
pub proof fn lemma_total_cap_bound(states: Seq<AbsState>, n: nat)
    requires
        forall|i: int| 0 <= i < states.len() ==> (#[trigger] states[i])@.len() <= n,
    ensures
        total_cap(states) <= 3 * states.len() * n,
    decreases states.len(),
{
    if states.len() > 0 {
        let l = states.len() as int;
        lemma_total_cap_bound(states.drop_last(), n);
        lemma_seq_cap_bound(states.last()@);
        assert(3 * (l - 1) * n + 3 * n == 3 * l * n) by (nonlinear_arith);
    }
}

proof fn lemma_seq_cap_pointwise(s1: Seq<Option<SignAnalysis>>, s2: Seq<Option<SignAnalysis>>)
    requires
        s1.len() == s2.len(),
        forall|i: int| 0 <= i < s1.len() ==> slot_cap(#[trigger] s1[i]) <= slot_cap(s2[i]),
    ensures
        seq_cap(s1) <= seq_cap(s2),
    decreases s1.len(),
{
    if s1.len() > 0 {
        lemma_seq_cap_pointwise(s1.drop_last(), s2.drop_last());
    }
}

proof fn lemma_seq_cap_pointwise_strict(
    s1: Seq<Option<SignAnalysis>>,
    s2: Seq<Option<SignAnalysis>>,
    w: int,
)
    requires
        s1.len() == s2.len(),
        forall|i: int| 0 <= i < s1.len() ==> slot_cap(#[trigger] s1[i]) <= slot_cap(s2[i]),
        0 <= w < s1.len(),
        slot_cap(s1[w]) < slot_cap(s2[w]),
    ensures
        seq_cap(s1) < seq_cap(s2),
    decreases s1.len(),
{
    if w == s1.len() - 1 {
        lemma_seq_cap_pointwise(s1.drop_last(), s2.drop_last());
    } else {
        lemma_seq_cap_pointwise_strict(s1.drop_last(), s2.drop_last(), w);
    }
}

proof fn lemma_total_cap_update(states: Seq<AbsState>, k: int, st: AbsState)
    requires
        0 <= k < states.len(),
    ensures
        total_cap(states.update(k, st)) + seq_cap(states[k]@) == total_cap(states) + seq_cap(st@),
    decreases states.len(),
{
    if k == states.len() - 1 {
        assert(states.update(k, st).drop_last() =~= states.drop_last());
    } else {
        assert(states.update(k, st).drop_last() =~= states.drop_last().update(k, st));
        lemma_total_cap_update(states.drop_last(), k, st);
    }
}

/// Joining a state into a stored state never lets the stored state grow
/// further than it could before, and whenever the join actually changes the
/// stored state, the room left to grow strictly shrinks.
proof fn lemma_join_cap(s1: Seq<Option<SignAnalysis>>, s2: Seq<Option<SignAnalysis>>)
    requires
        compat(s1, s2),
    ensures
        seq_cap(state_join(s1, s2)) <= seq_cap(s2),
        !(state_join(s1, s2) =~= s2) ==> seq_cap(state_join(s1, s2)) < seq_cap(s2),
{
    let j = state_join(s1, s2);
    assert forall|i: int| 0 <= i < j.len() implies slot_cap(#[trigger] j[i]) <= slot_cap(s2[i]) by {
        if s1[i] is Some {
            lemma_rank_join(s1[i]->0, s2[i]->0);
        }
    }
    lemma_seq_cap_pointwise(j, s2);
    if !(j =~= s2) {
        let w = choose|w: int| 0 <= w < j.len() && j[w] != s2[w];
        assert(s1[w] is Some);
        lemma_rank_join(s1[w]->0, s2[w]->0);
        lemma_seq_cap_pointwise_strict(j, s2, w);
    }
}

/// The state and the equivalence map after a prefix of a block's assignment
/// statements, folded left to right from a start state and an empty map.
pub open spec fn run_stmts(
    s: Seq<Option<SignAnalysis>>,
    e: Seq<(usize, usize)>,
    stmts: Seq<Statement>,
) -> (Seq<Option<SignAnalysis>>, Seq<(usize, usize)>)
    decreases stmts.len(),
{
    if stmts.len() == 0 {
        (s, e)
    } else {
        let prev = run_stmts(s, e, stmts.drop_last());
        let st = stmts.last();
        (
            spec_flow_assign(prev.0, st.target, st.rvalue),
            spec_equiv_after_assign(prev.1, prev.0, st.target, st.rvalue),
        )
    }
}

proof fn lemma_run_stmts_tracks(
    decls: Seq<VarType>,
    s: Seq<Option<SignAnalysis>>,
    e: Seq<(usize, usize)>,
    stmts: Seq<Statement>,
)
    requires
        tracks(decls, s),
    ensures
        tracks(decls, run_stmts(s, e, stmts).0),
    decreases stmts.len(),
{
    if stmts.len() > 0 {
        lemma_run_stmts_tracks(decls, s, e, stmts.drop_last());
        crate::state::lemma_flow_assign_tracks(
            decls,
            run_stmts(s, e, stmts.drop_last()).0,
            stmts.last().target,
            stmts.last().rvalue,
        );
    }
}

/// The state a non-branch block hands to each successor: its statements in
/// program order, then — for a call terminator with a destination — the call
/// transfer.
pub open spec fn block_out_plain(g: FunctionGraph, s: Seq<Option<SignAnalysis>>, b: int) -> Seq<
    Option<SignAnalysis>,
> {
    let r = run_stmts(s, Seq::<(usize, usize)>::empty(), g.blocks@[b].statements@).0;
    match g.blocks@[b].terminator {
        Terminator::Call { dest, .. } => match dest {
            Some(d) => spec_flow_call(r, d),
            None => r,
        },
        _ => r,
    }
}

/// The pair of states a branch block hands to its false and true successors:
/// the statements before the boolean-defining one in program order, then the
/// branch transfer on that final statement's right-hand side.
pub open spec fn block_outs_branch(g: FunctionGraph, s: Seq<Option<SignAnalysis>>, b: int) -> (
    Seq<Option<SignAnalysis>>,
    Seq<Option<SignAnalysis>>,
) {
    let stmts = g.blocks@[b].statements@;
    let pre = run_stmts(s, Seq::<(usize, usize)>::empty(), stmts.drop_last());
    let rv = stmts.last().rvalue;
    (spec_branch_side(pre.0, pre.1, rv, false), spec_branch_side(pre.0, pre.1, rv, true))
}

/// Whether everything that flows out of block `b` under its stored state is
/// already covered by the stored states of its successors.
pub open spec fn block_flows(g: FunctionGraph, inp: Seq<AbsState>, b: int) -> bool {
    match g.blocks@[b].terminator {
        Terminator::Branch { false_target, true_target, .. } => {
            let outs = block_outs_branch(g, inp[b]@, b);
            &&& state_le(outs.0, inp[false_target as int]@)
            &&& state_le(outs.1, inp[true_target as int]@)
        },
        _ => {
            forall|j: int|
                0 <= j < g.blocks@[b].terminator.spec_successors().len() ==> state_le(
                    block_out_plain(g, inp[b]@, b),
                    inp[g.blocks@[b].terminator.spec_successors()[j] as int]@,
                )
        },
    }
}

/// The fixpoint property the driver establishes: every block either already
/// flows into its successors, or still holds the untouched bottom state it
/// started with (it was never reached by propagation).
pub open spec fn is_post_fixpoint(g: FunctionGraph, inp: Seq<AbsState>) -> bool {
    &&& inp.len() == g.blocks@.len()
    &&& forall|b: int|
        0 <= b < inp.len() ==> block_flows(g, inp, b) || (#[trigger] inp[b])@ == filled(
            g.decls@,
            SignAnalysis::Bottom,
        )
}

/// Flowing into successors is stable under growth of the other stored states:
/// if a block's own stored state is unchanged and every stored state only
/// grew, the block still flows.
proof fn lemma_block_flows_mono(
    g: FunctionGraph,
    inp1: Seq<AbsState>,
    inp2: Seq<AbsState>,
    b: int,
)
    requires
        graph_wf(g),
        inp1.len() == g.blocks@.len(),
        inp2.len() == inp1.len(),
        0 <= b < inp1.len(),
        block_flows(g, inp1, b),
        inp2[b]@ == inp1[b]@,
        forall|c: int| 0 <= c < inp1.len() ==> state_le((#[trigger] inp1[c])@, inp2[c]@),
    ensures
        block_flows(g, inp2, b),
{
    assert(successors_in_range(g.blocks@[b].terminator, g.blocks@.len() as int));
    match g.blocks@[b].terminator {
        Terminator::Branch { false_target, true_target, .. } => {
            let outs = block_outs_branch(g, inp1[b]@, b);
            assert(g.blocks@[b].terminator.spec_successors()[0] == false_target);
            assert(g.blocks@[b].terminator.spec_successors()[1] == true_target);
            lemma_state_le_trans(outs.0, inp1[false_target as int]@, inp2[false_target as int]@);
            lemma_state_le_trans(outs.1, inp1[true_target as int]@, inp2[true_target as int]@);
        },
        _ => {
            let out = block_out_plain(g, inp1[b]@, b);
            let succs = g.blocks@[b].terminator.spec_successors();
            assert forall|j: int| 0 <= j < succs.len() implies state_le(
                block_out_plain(g, inp2[b]@, b),
                inp2[succs[j] as int]@,
            ) by {
                assert(succs[j] < g.blocks@.len());
                lemma_state_le_trans(out, inp1[succs[j] as int]@, inp2[succs[j] as int]@);
            }
        },
    }
}

/// Pushes a state through every assignment statement of a non-branch block,
/// in program order, and through the call transfer if the block ends in a
/// call with a destination.
#[verifier::loop_isolation(false)]
fn compute_block_out(graph: &FunctionGraph, b: usize, start: &AbsState) -> (out: AbsState)
    requires
        b < graph.blocks@.len(),
        !(graph.blocks@[b as int].terminator is Branch),
    ensures
        out@ == block_out_plain(*graph, start@, b as int),
{
    let blk = &graph.blocks[b];
    let mut equiv = EquivMap::new();
    let mut lattice = start.clone_state();
    let ghost s0 = start@;
    let n = blk.statements.len();
    let mut i: usize = 0;
    while i < n
        invariant
            i <= n,
            lattice@ == run_stmts(
                s0,
                Seq::<(usize, usize)>::empty(),
                blk.statements@.take(i as int),
            ).0,
            equiv@ == run_stmts(
                s0,
                Seq::<(usize, usize)>::empty(),
                blk.statements@.take(i as int),
            ).1,
        decreases n - i,
    {
        let stmt = blk.statements[i];
        let next = lattice.flow_assign(stmt.target, &stmt.rvalue, &mut equiv);
        lattice = next;
        proof {
            assert(blk.statements@.take(i + 1).drop_last() =~= blk.statements@.take(i as int));
            assert(blk.statements@.take(i + 1).last() == blk.statements@[i as int]);
        }
        i = i + 1;
    }
    proof {
        assert(blk.statements@.take(n as int) =~= blk.statements@);
    }
    let term = blk.terminator;
    match term {
        Terminator::Call { dest, .. } => match dest {
            Some(d) => lattice.flow_function_call(d),
            None => lattice,
        },
        _ => lattice,
    }
}

/// Pushes a state through the statements of a branch block: every assignment
/// before the boolean-defining final one in program order, then the branch
/// transfer on that final statement, yielding the false-side and true-side
/// out-states.
#[verifier::loop_isolation(false)]
fn compute_block_branch(graph: &FunctionGraph, b: usize, start: &AbsState) -> (outs: (
    AbsState,
    AbsState,
))
    requires
        graph_wf(*graph),
        b < graph.blocks@.len(),
        graph.blocks@[b as int].terminator is Branch,
    ensures
        outs.0@ == block_outs_branch(*graph, start@, b as int).0,
        outs.1@ == block_outs_branch(*graph, start@, b as int).1,
{
    let blk = &graph.blocks[b];
    assert(crate::cfg::branch_block_wf(graph.blocks@[b as int]));
    let mut equiv = EquivMap::new();
    let mut lattice = start.clone_state();
    let ghost s0 = start@;
    let n = blk.statements.len();
    let last: usize = n - 1;
    let mut i: usize = 0;
    while i < last
        invariant
            i <= last,
            lattice@ == run_stmts(
                s0,
                Seq::<(usize, usize)>::empty(),
                blk.statements@.take(i as int),
            ).0,
            equiv@ == run_stmts(
                s0,
                Seq::<(usize, usize)>::empty(),
                blk.statements@.take(i as int),
            ).1,
        decreases last - i,
    {
        let stmt = blk.statements[i];
        let next = lattice.flow_assign(stmt.target, &stmt.rvalue, &mut equiv);
        lattice = next;
        proof {
            assert(blk.statements@.take(i + 1).drop_last() =~= blk.statements@.take(i as int));
            assert(blk.statements@.take(i + 1).last() == blk.statements@[i as int]);
        }
        i = i + 1;
    }
    proof {
        assert(blk.statements@.take(last as int) =~= blk.statements@.drop_last());
    }
    let stmt = blk.statements[last];
    lattice.flow_branch(&stmt.rvalue, &equiv)
}

/// The analysis of one function: its graph, the stored per-block states, the
/// post-order index of each block, and the worklist of pending blocks.
pub struct Analysis {
    pub graph: FunctionGraph,
    pub input: Vec<AbsState>,
    pub order: Vec<usize>,
    pub worklist: Vec<usize>,
}

/// Structural soundness of an analysis in progress: the graph is well formed,
/// there is one stored state per block, each over the graph's declarations,
/// and the worklist holds valid block indices.
pub open spec fn analysis_inv(a: Analysis) -> bool {
    &&& graph_wf(a.graph)
    &&& a.input@.len() == a.graph.blocks@.len()
    &&& a.order@.len() == a.graph.blocks@.len()
    &&& forall|b: int| 0 <= b < a.input@.len() ==> tracks(a.graph.decls@, (#[trigger] a.input@[b])@)
    &&& forall|i: int| 0 <= i < a.worklist@.len() ==> (#[trigger] a.worklist@[i]) < a.graph.blocks@.len()
}

/// The worklist invariant: every block is pending, or already flows into its
/// successors, or still holds its initial bottom state.
pub open spec fn worklist_covers(g: FunctionGraph, inp: Seq<AbsState>, wl: Seq<usize>) -> bool {
    forall|c: int|
        0 <= c < inp.len() ==> wl.contains(c as usize) || block_flows(g, inp, c) || (
        #[trigger] inp[c])@ == filled(g.decls@, SignAnalysis::Bottom)
}

/// The worklist invariant with one block exempted: the one being processed.
pub open spec fn covers_except(
    g: FunctionGraph,
    inp: Seq<AbsState>,
    wl: Seq<usize>,
    b: usize,
) -> bool {
    forall|c: int|
        0 <= c < inp.len() && c != b ==> wl.contains(c as usize) || block_flows(g, inp, c) || (
        #[trigger] inp[c])@ == filled(g.decls@, SignAnalysis::Bottom)
}

/// One join into one successor keeps the worklist invariant for every block
/// but the one being processed.
proof fn lemma_covers_after_join(
    g: FunctionGraph,
    inp1: Seq<AbsState>,
    wl1: Seq<usize>,
    inp2: Seq<AbsState>,
    wl2: Seq<usize>,
    b: usize,
    succ: usize,
)
    requires
        graph_wf(g),
        inp1.len() == g.blocks@.len(),
        inp2.len() == inp1.len(),
        covers_except(g, inp1, wl1, b),
        forall|c: int| 0 <= c < inp1.len() && c != succ ==> inp2[c] == inp1[c],
        forall|c: int| 0 <= c < inp1.len() ==> state_le((#[trigger] inp1[c])@, inp2[c]@),
        forall|c: usize| wl1.contains(c) ==> wl2.contains(c),
        inp2[succ as int]@ != inp1[succ as int]@ ==> wl2.contains(succ),
    ensures
        covers_except(g, inp2, wl2, b),
{
    assert forall|c: int| 0 <= c < inp2.len() && c != b implies wl2.contains(c as usize)
        || block_flows(g, inp2, c) || (#[trigger] inp2[c])@ == filled(
        g.decls@,
        SignAnalysis::Bottom,
    ) by {
        if wl1.contains(c as usize) {
        } else if c == succ && inp2[succ as int]@ != inp1[succ as int]@ {
        } else if block_flows(g, inp1, c) {
            lemma_block_flows_mono(g, inp1, inp2, c);
        }
    }
}

impl Analysis {
    /// Prepares the analysis of a function: computes the post-order block
    /// indices from the entry block on fresh tables, stores bottom for every
    /// block but the entry block, which starts at top, and seeds the worklist
    /// with the entry block.
    pub fn new(graph: FunctionGraph) -> (r: Analysis)
        requires
            graph_wf(graph),
        ensures
            analysis_inv(r),
            r.graph == graph,
            worklist_covers(r.graph, r.input@, r.worklist@),
            r.input@.len() == graph.blocks@.len(),
            r.input@[graph.entry as int]@ == filled(graph.decls@, SignAnalysis::Top),
            forall|b: int|
                0 <= b < r.input@.len() && b != graph.entry ==> (#[trigger] r.input@[b])@ == filled(
                    graph.decls@,
                    SignAnalysis::Bottom,
                ),
            r.worklist@ =~= seq![graph.entry],
            ordered_by_traversal(graph.blocks@, graph.entry, r.order@),
    {
        let n = graph.blocks.len();
        let mut order: Vec<usize> = Vec::new();
        let mut visited: Vec<bool> = Vec::new();
        let mut i: usize = 0;
        while i < n
            invariant
                i <= n,
                order@.len() == i,
                visited@.len() == i,
                forall|k: int| 0 <= k < i ==> !(#[trigger] visited@[k]),
                forall|k: int| 0 <= k < i ==> (#[trigger] order@[k]) == 0usize,
            decreases n - i,
        {
            order.push(0);
            visited.push(false);
            i = i + 1;
        }
        let mut idx: usize = 0;
        proof {
            assert(visited@ =~= all_unvisited(graph.blocks@.len()));
            assert(order@ =~= zero_order(graph.blocks@.len()));
            lemma_count_false_le_len(visited@);
        }
        reverse_post_order(&graph.blocks, graph.entry, &mut order, &mut visited, &mut idx);
        proof {
            assert(ordered_by_traversal(graph.blocks@, graph.entry, order@)) by {
                assert(rpo_step(
                    graph.blocks@.len() as int,
                    all_unvisited(graph.blocks@.len()),
                    zero_order(graph.blocks@.len()),
                    0usize,
                    visited@,
                    order@,
                    idx,
                ));
                assert(rpo_closed(graph.blocks@, all_unvisited(graph.blocks@.len()), visited@));
                assert forall|i: int|
                    0 <= i < graph.blocks@.len() && #[trigger] visited@[i] implies reachable(
                    graph.blocks@,
                    graph.entry,
                    i as usize,
                ) by {
                    assert(!all_unvisited(graph.blocks@.len())[i]);
                }
                assert(!all_unvisited(graph.blocks@.len())[graph.entry as int]);
                assert(order@[graph.entry as int] + 1 == idx);
            }
        }
        let mut input: Vec<AbsState> = Vec::new();
        let mut j: usize = 0;
        while j < n
            invariant
                j <= n,
                input@.len() == j,
                forall|b: int|
                    0 <= b < j ==> (#[trigger] input@[b])@ == filled(
                        graph.decls@,
                        SignAnalysis::Bottom,
                    ),
            decreases n - j,
        {
            input.push(AbsState::bot(&graph.decls));
            j = j + 1;
        }
        input.set(graph.entry, AbsState::top(&graph.decls));
        let mut worklist: Vec<usize> = Vec::new();
        worklist.push(graph.entry);
        let r = Analysis { graph, input, order, worklist };
        proof {
            assert(r.worklist@ =~= seq![r.graph.entry]);
            assert(r.worklist@.contains(r.graph.entry)) by {
                assert(r.worklist@[0] == r.graph.entry);
            }
        }
        r
    }

    /// Removes and returns the pending block with the highest post-order
    /// index; every other pending block stays pending.
    #[verifier::loop_isolation(false)]
    fn pop_max(&mut self) -> (b: usize)
        requires
            analysis_inv(*old(self)),
            old(self).worklist@.len() > 0,
        ensures
            analysis_inv(*final(self)),
            final(self).graph == old(self).graph,
            final(self).order == old(self).order,
            final(self).input == old(self).input,
            b < final(self).graph.blocks@.len(),
            old(self).worklist@.contains(b),
            final(self).worklist@.len() == old(self).worklist@.len() - 1,
            forall|c: usize|
                old(self).worklist@.contains(c) && c != b ==> final(self).worklist@.contains(c),
            forall|c: usize| final(self).worklist@.contains(c) ==> old(self).worklist@.contains(c),
            forall|i: int|
                0 <= i < old(self).worklist@.len() ==> old(self).order@[(
                #[trigger] old(self).worklist@[i]) as int] <= old(self).order@[b as int],
    {
        let n = self.worklist.len();
        let mut best: usize = 0;
        let mut j: usize = 1;
        while j < n
            invariant
                1 <= j <= n,
                best < j,
                forall|k: int|
                    0 <= k < j ==> self.order@[(#[trigger] self.worklist@[k]) as int]
                        <= self.order@[self.worklist@[best as int] as int],
            decreases n - j,
        {
            let cand = self.worklist[j];
            let cur = self.worklist[best];
            if self.order[cand] > self.order[cur] {
                best = j;
            }
            j = j + 1;
        }
        let ghost wl0 = self.worklist@;
        let b = self.worklist.swap_remove(best);
        proof {
            let wl1 = self.worklist@;
            assert(wl1 == wl0.update(best as int, wl0.last()).drop_last());
            assert forall|c: usize| wl0.contains(c) && c != b implies wl1.contains(c) by {
                let i = choose|i: int| 0 <= i < wl0.len() && wl0[i] == c;
                if i < wl0.len() - 1 {
                    if i == best {
                        assert(false);
                    } else {
                        assert(wl1[i] == c);
                    }
                } else {
                    assert(best < wl0.len() - 1) by {
                        if best == wl0.len() - 1 {
                            assert(wl0[best as int] == c);
                        }
                    }
                    assert(wl1[best as int] == c);
                }
            }
            assert forall|c: usize| wl1.contains(c) implies wl0.contains(c) by {
                let i = choose|i: int| 0 <= i < wl1.len() && wl1[i] == c;
                if i == best {
                    assert(wl0[wl0.len() - 1] == c);
                } else {
                    assert(wl0[i] == c);
                }
            }
            assert(wl0[best as int] == b);
        }
        b
    }

    /// Joins an out-state into one successor's stored state; if the stored
    /// state actually grows, the successor becomes pending again.
    fn join_into(&mut self, succ: usize, out: &AbsState)
        requires
            analysis_inv(*old(self)),
            succ < old(self).graph.blocks@.len(),
            tracks(old(self).graph.decls@, out@),
        ensures
            analysis_inv(*final(self)),
            final(self).graph == old(self).graph,
            final(self).order == old(self).order,
            final(self).input@.len() == old(self).input@.len(),
            state_le(out@, final(self).input@[succ as int]@),
            forall|c: int|
                0 <= c < old(self).input@.len() && c != succ
                    ==> final(self).input@[c] == old(self).input@[c],
            forall|c: int|
                0 <= c < old(self).input@.len() ==> state_le(
                    (#[trigger] old(self).input@[c])@,
                    final(self).input@[c]@,
                ),
            forall|c: usize|
                old(self).worklist@.contains(c) ==> final(self).worklist@.contains(c),
            final(self).input@[succ as int]@ != old(self).input@[succ as int]@
                ==> final(self).worklist@.contains(succ),
            total_cap(final(self).input@) <= total_cap(old(self).input@),
            (final(self).input == old(self).input && final(self).worklist == old(self).worklist)
                || total_cap(final(self).input@) < total_cap(old(self).input@),
    {
        proof {
            lemma_tracks_compat(self.graph.decls@, out@, self.input@[succ as int]@);
        }
        let joined = AbsState::join(out, &self.input[succ]);
        proof {
            lemma_state_join_le(out@, self.input@[succ as int]@);
            lemma_state_join_tracks(self.graph.decls@, out@, self.input@[succ as int]@);
        }
        let changed = !joined.state_eq(&self.input[succ]);
        if changed {
            proof {
                lemma_join_cap(out@, self.input@[succ as int]@);
                lemma_total_cap_update(self.input@, succ as int, joined);
            }
            self.input.set(succ, joined);
            self.worklist.push(succ);
            proof {
                assert(self.worklist@.contains(succ)) by {
                    assert(self.worklist@.last() == succ);
                }
                assert forall|c: usize| old(self).worklist@.contains(c) implies self
                    .worklist@.contains(c) by {
                    let i = choose|i: int|
                        0 <= i < old(self).worklist@.len() && old(self).worklist@[i] == c;
                    assert(self.worklist@[i] == c);
                }
                assert forall|c: int|
                    0 <= c < old(self).input@.len() implies state_le(
                    (#[trigger] old(self).input@[c])@,
                    self.input@[c]@,
                ) by {
                    if c != succ {
                        lemma_state_le_refl(old(self).input@[c]@);
                    }
                }
            }
        } else {
            proof {
                assert(joined@ =~= self.input@[succ as int]@);
                assert forall|c: int|
                    0 <= c < old(self).input@.len() implies state_le(
                    (#[trigger] old(self).input@[c])@,
                    self.input@[c]@,
                ) by {
                    lemma_state_le_refl(old(self).input@[c]@);
                }
            }
        }
    }

    /// The fixpoint loop: while any block is pending, dequeue the pending
    /// block with the highest post-order index, push its stored state through
    /// its statements — splitting on a boolean-guarded branch — join the
    /// outcome into each successor's stored state, and mark each successor
    /// whose stored state grew as pending again. Stored states only grow, and
    /// when the worklist empties they form a post-fixpoint.
    #[verifier::loop_isolation(false)]
    pub fn run(&mut self)
        requires
            analysis_inv(*old(self)),
            worklist_covers(old(self).graph, old(self).input@, old(self).worklist@),
        ensures
            analysis_inv(*final(self)),
            final(self).graph == old(self).graph,
            final(self).order == old(self).order,
            final(self).worklist@.len() == 0,
            final(self).input@.len() == old(self).input@.len(),
            is_post_fixpoint(final(self).graph, final(self).input@),
            forall|c: int|
                0 <= c < old(self).input@.len() ==> state_le(
                    (#[trigger] old(self).input@[c])@,
                    final(self).input@[c]@,
                ),
    {
        let ghost g = old(self).graph;
        proof {
            assert forall|c: int|
                0 <= c < old(self).input@.len() implies state_le(
                (#[trigger] old(self).input@[c])@,
                self.input@[c]@,
            ) by {
                lemma_state_le_refl(old(self).input@[c]@);
            }
        }
        while self.worklist.len() > 0
            invariant
                analysis_inv(*self),
                self.graph == g,
                self.order == old(self).order,
                self.input@.len() == old(self).input@.len(),
                worklist_covers(g, self.input@, self.worklist@),
                forall|c: int|
                    0 <= c < old(self).input@.len() ==> state_le(
                        (#[trigger] old(self).input@[c])@,
                        self.input@[c]@,
                    ),
            decreases total_cap(self.input@), self.worklist@.len(),
        {
            let ghost cap0 = total_cap(self.input@);
            let ghost wl_before = self.worklist@;
            let b = self.pop_max();
            let ghost inp_pop = self.input@;
            let ghost wl_pop = self.worklist@;
            proof {
                vstd::std_specs::vec::axiom_spec_len(&self.input);
                assert forall|c: int| 0 <= c < self.input@.len() && c != b implies self
                    .worklist@.contains(c as usize) || block_flows(g, self.input@, c) || (
                #[trigger] self.input@[c])@ == filled(g.decls@, SignAnalysis::Bottom) by {
                    assert(c == (c as usize) as int);
                    if wl_before.contains(c as usize) {
                        assert((c as usize) != b);
                        assert(self.worklist@.contains(c as usize));
                    }
                }
                assert(covers_except(g, self.input@, self.worklist@, b));
            }
            let start = self.input[b].clone_state();
            let ghost run_entry_inp = old(self).input@;
            let term = self.graph.blocks[b].terminator;
            match term {
                Terminator::Branch { false_target, true_target, .. } => {
                    proof {
                        assert(successors_in_range(
                            g.blocks@[b as int].terminator,
                            g.blocks@.len() as int,
                        ));
                        assert(g.blocks@[b as int].terminator.spec_successors()[0]
                            == false_target);
                        assert(g.blocks@[b as int].terminator.spec_successors()[1] == true_target);
                        assert(false_target < g.blocks@.len());
                        assert(true_target < g.blocks@.len());
                    }
                    let outs = compute_block_branch(&self.graph, b, &start);
                    proof {
                        let stmts = g.blocks@[b as int].statements@;
                        let pre = run_stmts(
                            start@,
                            Seq::<(usize, usize)>::empty(),
                            stmts.drop_last(),
                        );
                        lemma_run_stmts_tracks(
                            g.decls@,
                            start@,
                            Seq::<(usize, usize)>::empty(),
                            stmts.drop_last(),
                        );
                        lemma_branch_side_tracks(
                            g.decls@,
                            pre.0,
                            pre.1,
                            stmts.last().rvalue,
                            false,
                        );
                        lemma_branch_side_tracks(g.decls@, pre.0, pre.1, stmts.last().rvalue, true);
                        assert(tracks(g.decls@, outs.0@));
                        assert(tracks(g.decls@, outs.1@));
                    }
                    let ghost inp_c1 = self.input@;
                    let ghost wl_c1 = self.worklist@;
                    self.join_into(false_target, &outs.0);
                    proof {
                        lemma_covers_after_join(
                            g,
                            inp_c1,
                            wl_c1,
                            self.input@,
                            self.worklist@,
                            b,
                            false_target,
                        );
                        assert forall|c: int|
                            0 <= c < run_entry_inp.len() implies state_le(
                            (#[trigger] run_entry_inp[c])@,
                            self.input@[c]@,
                        ) by {
                            lemma_state_le_trans(run_entry_inp[c]@, inp_c1[c]@, self.input@[c]@);
                        }
                    }
                    let ghost inp_c2 = self.input@;
                    let ghost wl_c2 = self.worklist@;
                    self.join_into(true_target, &outs.1);
                    proof {
                        lemma_covers_after_join(
                            g,
                            inp_c2,
                            wl_c2,
                            self.input@,
                            self.worklist@,
                            b,
                            true_target,
                        );
                        assert forall|c: int|
                            0 <= c < run_entry_inp.len() implies state_le(
                            (#[trigger] run_entry_inp[c])@,
                            self.input@[c]@,
                        ) by {
                            lemma_state_le_trans(run_entry_inp[c]@, inp_c2[c]@, self.input@[c]@);
                        }
                        lemma_state_le_trans(
                            outs.0@,
                            inp_c2[false_target as int]@,
                            self.input@[false_target as int]@,
                        );
                        assert(state_le(outs.0@, self.input@[false_target as int]@));
                        assert(state_le(outs.1@, self.input@[true_target as int]@));
                        let changed1 = inp_c2[b as int]@ != inp_c1[b as int]@;
                        let changed2 = self.input@[b as int]@ != inp_c2[b as int]@;
                        if changed1 || changed2 {
                            assert(self.worklist@.contains(b));
                        } else {
                            assert(self.input@[b as int]@ == start@);
                            assert(block_outs_branch(g, self.input@[b as int]@, b as int).0
                                == outs.0@);
                            assert(block_outs_branch(g, self.input@[b as int]@, b as int).1
                                == outs.1@);
                            assert(block_flows(g, self.input@, b as int));
                        }
                        assert(worklist_covers(g, self.input@, self.worklist@));
                    }
                },
                _ => {
                    let out = compute_block_out(&self.graph, b, &start);
                    proof {
                        let stmts = g.blocks@[b as int].statements@;
                        lemma_run_stmts_tracks(
                            g.decls@,
                            start@,
                            Seq::<(usize, usize)>::empty(),
                            stmts,
                        );
                        match g.blocks@[b as int].terminator {
                            Terminator::Call { dest, .. } => match dest {
                                Some(d) => lemma_flow_call_tracks(
                                    g.decls@,
                                    run_stmts(start@, Seq::<(usize, usize)>::empty(), stmts).0,
                                    d,
                                ),
                                None => (),
                            },
                            _ => (),
                        }
                        assert(tracks(g.decls@, out@));
                        assert(successors_in_range(
                            g.blocks@[b as int].terminator,
                            g.blocks@.len() as int,
                        ));
                    }
                    let succs = term.successors();
                    let m = succs.len();
                    let mut j: usize = 0;
                    while j < m
                        invariant
                            j <= m,
                            analysis_inv(*self),
                            self.graph == g,
                            self.order == old(self).order,
                            self.input@.len() == run_entry_inp.len(),
                            covers_except(g, self.input@, self.worklist@, b),
                            forall|c: int|
                                0 <= c < run_entry_inp.len() ==> state_le(
                                    (#[trigger] run_entry_inp[c])@,
                                    self.input@[c]@,
                                ),
                            forall|k: int|
                                0 <= k < j ==> state_le(
                                    out@,
                                    self.input@[(#[trigger] succs@[k]) as int]@,
                                ),
                            self.input@[b as int]@ == start@ || self.worklist@.contains(b),
                            total_cap(self.input@) <= cap0,
                            (self.input@ == inp_pop && self.worklist@ == wl_pop) || total_cap(
                                self.input@,
                            ) < cap0,
                        decreases m - j,
                    {
                        let succ = succs[j];
                        let ghost inp_c = self.input@;
                        let ghost wl_c = self.worklist@;
                        self.join_into(succ, &out);
                        proof {
                            lemma_covers_after_join(
                                g,
                                inp_c,
                                wl_c,
                                self.input@,
                                self.worklist@,
                                b,
                                succ,
                            );
                            assert forall|k: int|
                                0 <= k < j + 1 implies state_le(
                                out@,
                                self.input@[(#[trigger] succs@[k]) as int]@,
                            ) by {
                                if k < j {
                                    lemma_state_le_trans(
                                        out@,
                                        inp_c[succs@[k] as int]@,
                                        self.input@[succs@[k] as int]@,
                                    );
                                }
                            }
                            assert forall|c: int|
                                0 <= c < run_entry_inp.len() implies state_le(
                                (#[trigger] run_entry_inp[c])@,
                                self.input@[c]@,
                            ) by {
                                lemma_state_le_trans(run_entry_inp[c]@, inp_c[c]@, self.input@[c]@);
                            }
                        }
                        j = j + 1;
                    }
                    proof {
                        if self.input@[b as int]@ == start@ {
                            assert(block_out_plain(g, self.input@[b as int]@, b as int) == out@);
                            assert(block_flows(g, self.input@, b as int)) by {
                                assert forall|k: int|
                                    0 <= k
                                        < g.blocks@[b as int].terminator.spec_successors().len() implies state_le(
                                    block_out_plain(g, self.input@[b as int]@, b as int),
                                    self.input@[g.blocks@[b as int].terminator.spec_successors()[k] as int]@,
                                ) by {
                                    assert(succs@[k]
                                        == g.blocks@[b as int].terminator.spec_successors()[k]);
                                }
                            }
                        }
                        assert(worklist_covers(g, self.input@, self.worklist@));
                    }
                },
            }
        }
    }
}

/// Analyzes one function to completion: computes the block ordering, seeds
/// the initial states, runs the worklist to its fixpoint, and returns the
/// per-block state table. The entry block's state stays at top, and every
/// block either flows into its successors under the returned states or was
/// never reached and still holds bottom.
pub fn analyze(graph: FunctionGraph) -> (result: Vec<AbsState>)
    requires
        graph_wf(graph),
    ensures
        result@.len() == graph.blocks@.len(),
        forall|b: int| 0 <= b < result@.len() ==> tracks(graph.decls@, (#[trigger] result@[b])@),
        is_post_fixpoint(graph, result@),
        result@[graph.entry as int]@ == filled(graph.decls@, SignAnalysis::Top),
{
    let ghost g = graph;
    let mut a = Analysis::new(graph);
    a.run();
    proof {
        let top = filled(g.decls@, SignAnalysis::Top);
        let fin = a.input@[g.entry as int]@;
        assert(state_le(top, fin));
        assert forall|i: int| 0 <= i < fin.len() implies fin[i] == top[i] by {
            if top[i] is Some {
                assert(crate::lattice::le(SignAnalysis::Top, fin[i]->0));
            }
        }
        assert(fin =~= top);
    }
    a.input
}

/// Replays a block's statements from a given entry state: entry `i` of the
/// result is the abstract state that holds immediately before statement `i`'s
/// own effect is applied, in block-processing order. A diagnostic consumer
/// inspects these pre-statement states and derives its findings from them.
#[verifier::loop_isolation(false)]
pub fn states_before(graph: &FunctionGraph, b: usize, entry_state: &AbsState) -> (r: Vec<AbsState>)
    requires
        b < graph.blocks@.len(),
    ensures
        r@.len() == graph.blocks@[b as int].statements@.len(),
        forall|i: int|
            0 <= i < r@.len() ==> (#[trigger] r@[i])@ == run_stmts(
                entry_state@,
                Seq::<(usize, usize)>::empty(),
                graph.blocks@[b as int].statements@.take(i),
            ).0,
{
    let blk = &graph.blocks[b];
    let mut equiv = EquivMap::new();
    let mut lattice = entry_state.clone_state();
    let ghost s0 = entry_state@;
    let mut r: Vec<AbsState> = Vec::new();
    let n = blk.statements.len();
    let mut i: usize = 0;
    while i < n
        invariant
            i <= n,
            r@.len() == i,
            lattice@ == run_stmts(
                s0,
                Seq::<(usize, usize)>::empty(),
                blk.statements@.take(i as int),
            ).0,
            equiv@ == run_stmts(
                s0,
                Seq::<(usize, usize)>::empty(),
                blk.statements@.take(i as int),
            ).1,
            forall|k: int|
                0 <= k < i ==> (#[trigger] r@[k])@ == run_stmts(
                    s0,
                    Seq::<(usize, usize)>::empty(),
                    blk.statements@.take(k),
                ).0,
        decreases n - i,
    {
        r.push(lattice.clone_state());
        let stmt = blk.statements[i];
        let next = lattice.flow_assign(stmt.target, &stmt.rvalue, &mut equiv);
        lattice = next;
        proof {
            assert(blk.statements@.take(i + 1).drop_last() =~= blk.statements@.take(i as int));
            assert(blk.statements@.take(i + 1).last() == blk.statements@[i as int]);
        }
        i = i + 1;
    }
    r
}

} // verus!
