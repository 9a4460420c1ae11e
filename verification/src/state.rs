//! The variable-state map: the chosen sign lattice lifted to a mapping from
//! tracked variables to abstract values.
//!
//! A state holds one slot per declared variable; slots of untracked variables
//! are `None`, and the key set never changes once a state is built from the
//! declarations. Besides the pointwise lattice operations, this module defines
//! the per-statement transfer, the per-branch transfer that splits a state
//! into a false copy and a true copy, the conservative call transfer, and the
//! best-effort equivalence map that propagates branch refinements to direct
//! variable copies.

use crate::cfg::{Operand, Rvalue, VarType};
use crate::lattice::{
    le, spec_alpha, spec_flow_binop, spec_flow_cond_false, spec_flow_cond_true, spec_flow_unop,
    spec_join, SignAnalysis,
};
use vstd::pervasive::VecAdditionalExecFns;
use vstd::prelude::*;

verus! {

/// An abstract state: one abstract value per tracked variable, `None` per
/// untracked one, indexed by variable number.
#[derive(Debug)]
pub struct AbsState {
    pub values: Vec<Option<SignAnalysis>>,
}

impl View for AbsState {
    type V = Seq<Option<SignAnalysis>>;

    open spec fn view(&self) -> Seq<Option<SignAnalysis>> {
        self.values@
    }
}

/// The equivalence map: every pair of variables recorded as direct copies of
/// one another, in both directions. Purely auxiliary; rebuilt from scratch for
/// each block and never persisted beyond one analysis run.
#[derive(Debug)]
pub struct EquivMap {
    pub pairs: Vec<(usize, usize)>,
}

impl View for EquivMap {
    type V = Seq<(usize, usize)>;

    open spec fn view(&self) -> Seq<(usize, usize)> {
        self.pairs@
    }
}

/// Whether the equivalence map records `b` as a direct alias of `a`.
pub open spec fn linked(e: Seq<(usize, usize)>, a: usize, b: usize) -> bool {
    exists|i: int| 0 <= i < e.len() && e[i] == (a, b)
}

impl EquivMap {
    /// An empty equivalence map.
    pub fn new() -> (r: EquivMap)
        ensures
            r@ == Seq::<(usize, usize)>::empty(),
    {
        let r = EquivMap { pairs: Vec::new() };
        assert(r@ =~= Seq::<(usize, usize)>::empty());
        r
    }
}

/// Whether a state has exactly the key set the declarations induce: one slot
/// per declaration, filled exactly for the integer-typed variables.
pub open spec fn tracks(decls: Seq<VarType>, s: Seq<Option<SignAnalysis>>) -> bool {
    &&& s.len() == decls.len()
    &&& forall|i: int| 0 <= i < s.len() ==> ((#[trigger] s[i]) is Some <==> decls[i] == VarType::Int)
}

/// Whether two states share one key set: same length, same tracked slots.
/// Joining states with mismatched key sets is an invariant violation by the
/// front end and is not accepted.
pub open spec fn compat(s1: Seq<Option<SignAnalysis>>, s2: Seq<Option<SignAnalysis>>) -> bool {
    &&& s1.len() == s2.len()
    &&& forall|i: int| 0 <= i < s1.len() ==> ((#[trigger] s1[i]) is Some <==> s2[i] is Some)
}

/// The pointwise lattice order on states with one key set.
pub open spec fn state_le(s1: Seq<Option<SignAnalysis>>, s2: Seq<Option<SignAnalysis>>) -> bool {
    &&& compat(s1, s2)
    &&& forall|i: int| 0 <= i < s1.len() && (#[trigger] s1[i]) is Some ==> le(s1[i]->0, s2[i]->0)
}

/// The state every tracked variable maps to `v` in, per the declarations.
pub open spec fn filled(decls: Seq<VarType>, v: SignAnalysis) -> Seq<Option<SignAnalysis>> {
    Seq::new(
        decls.len(),
        |i: int| if decls[i] == VarType::Int {
            Some(v)
        } else {
            None
        },
    )
}

/// The pointwise join of two states with one key set.
pub open spec fn state_join(s1: Seq<Option<SignAnalysis>>, s2: Seq<Option<SignAnalysis>>) -> Seq<
    Option<SignAnalysis>,
> {
    Seq::new(
        s1.len(),
        |i: int| if s1[i] is Some && s2[i] is Some {
            Some(spec_join(s1[i]->0, s2[i]->0))
        } else {
            s1[i]
        },
    )
}

/// The value an operand evaluates to in a state: a tracked variable yields its
/// current value, an untracked or out-of-range reference yields `Top`, and a
/// constant yields its abstraction.
pub open spec fn spec_eval_operand(s: Seq<Option<SignAnalysis>>, op: Operand) -> SignAnalysis {
    match op {
        Operand::Var(v) => if v < s.len() && s[v as int] is Some {
            s[v as int]->0
        } else {
            SignAnalysis::Top
        },
        Operand::Const(c) => spec_alpha(c),
    }
}

/// The variable an operand refers to, if any.
pub open spec fn spec_operand_var(op: Operand) -> Option<usize> {
    match op {
        Operand::Var(v) => Some(v),
        Operand::Const(_) => None,
    }
}

/// Whether an operand refers to a variable the state tracks.
pub open spec fn spec_operand_tracked(s: Seq<Option<SignAnalysis>>, op: Operand) -> bool {
    match op {
        Operand::Var(v) => v < s.len() && s[v as int] is Some,
        Operand::Const(_) => false,
    }
}

/// The abstract value an assigned right-hand side takes in a state: a copy
/// evaluates its operand, a binary or unary expression applies the domain's
/// transfer function, and any other shape is `Top`.
pub open spec fn spec_rvalue_value(s: Seq<Option<SignAnalysis>>, rv: Rvalue) -> SignAnalysis {
    match rv {
        Rvalue::Use(op) => spec_eval_operand(s, op),
        Rvalue::BinaryOp(op, o1, o2) => spec_flow_binop(
            op,
            spec_eval_operand(s, o1),
            spec_eval_operand(s, o2),
        ),
        Rvalue::UnaryOp(op, o1) => spec_flow_unop(op, spec_eval_operand(s, o1)),
        Rvalue::Other => SignAnalysis::Top,
    }
}

/// The state after the assignment `target := rv`: a no-op for an untracked
/// target, otherwise only the target's slot changes.
pub open spec fn spec_flow_assign(s: Seq<Option<SignAnalysis>>, target: usize, rv: Rvalue) -> Seq<
    Option<SignAnalysis>,
> {
    if target < s.len() && s[target as int] is Some {
        s.update(target as int, Some(spec_rvalue_value(s, rv)))
    } else {
        s
    }
}

/// The equivalence map after the assignment `target := rv`: a direct copy of
/// another variable into a tracked target records the pair in both directions;
/// every other assignment leaves the map alone.
pub open spec fn spec_equiv_after_assign(
    e: Seq<(usize, usize)>,
    s: Seq<Option<SignAnalysis>>,
    target: usize,
    rv: Rvalue,
) -> Seq<(usize, usize)> {
    if target < s.len() && s[target as int] is Some {
        match rv {
            Rvalue::Use(op) => match spec_operand_var(op) {
                Some(v) => e.push((target, v)).push((v, target)),
                None => e,
            },
            _ => e,
        }
    } else {
        e
    }
}

/// The state after writing a refined value to variable `v` and to every
/// variable the equivalence map records as its direct alias, skipping
/// untracked slots.
pub open spec fn spec_refine_var(
    s: Seq<Option<SignAnalysis>>,
    e: Seq<(usize, usize)>,
    v: usize,
    val: SignAnalysis,
) -> Seq<Option<SignAnalysis>> {
    Seq::new(
        s.len(),
        |u: int| if (u == v || linked(e, v, u as usize)) && s[u] is Some {
            Some(val)
        } else {
            s[u]
        },
    )
}

/// Whether a branch's switching expression refines anything: it must be a
/// binary comparison with at least one tracked variable operand.
pub open spec fn spec_branch_applies(s: Seq<Option<SignAnalysis>>, rv: Rvalue) -> bool {
    match rv {
        Rvalue::BinaryOp(_, o1, o2) => spec_operand_tracked(s, o1) || spec_operand_tracked(s, o2),
        _ => false,
    }
}

/// One side of a branch transfer: the refined pair for the comparison's truth
/// value is written to each variable operand and its recorded aliases, the
/// first operand's refinement first. A branch that refines nothing returns the
/// state unchanged.
pub open spec fn spec_branch_side(
    s: Seq<Option<SignAnalysis>>,
    e: Seq<(usize, usize)>,
    rv: Rvalue,
    true_side: bool,
) -> Seq<Option<SignAnalysis>> {
    if spec_branch_applies(s, rv) {
        match rv {
            Rvalue::BinaryOp(op, o1, o2) => {
                let a = spec_eval_operand(s, o1);
                let b = spec_eval_operand(s, o2);
                let refined = if true_side {
                    spec_flow_cond_true(op, a, b)
                } else {
                    spec_flow_cond_false(op, a, b)
                };
                let s1 = match spec_operand_var(o1) {
                    Some(v1) => spec_refine_var(s, e, v1, refined.0),
                    None => s,
                };
                match spec_operand_var(o2) {
                    Some(v2) => spec_refine_var(s1, e, v2, refined.1),
                    None => s1,
                }
            },
            _ => s,
        }
    } else {
        s
    }
}

/// The state after a call writes its untracked result into `dest`: the
/// destination goes to `Top` if tracked; calls are never modeled further.
pub open spec fn spec_flow_call(s: Seq<Option<SignAnalysis>>, dest: usize) -> Seq<
    Option<SignAnalysis>,
> {
    if dest < s.len() && s[dest as int] is Some {
        s.update(dest as int, Some(SignAnalysis::Top))
    } else {
        s
    }
}

/// States built over one declaration table share one key set.
pub proof fn lemma_tracks_compat(
    decls: Seq<VarType>,
    s1: Seq<Option<SignAnalysis>>,
    s2: Seq<Option<SignAnalysis>>,
)
    requires
        tracks(decls, s1),
        tracks(decls, s2),
    ensures
        compat(s1, s2),
{
}

/// The pointwise order on states is reflexive.
pub proof fn lemma_state_le_refl(s: Seq<Option<SignAnalysis>>)
    ensures
        state_le(s, s),
{
}

/// The pointwise order on states is transitive.
pub proof fn lemma_state_le_trans(
    s1: Seq<Option<SignAnalysis>>,
    s2: Seq<Option<SignAnalysis>>,
    s3: Seq<Option<SignAnalysis>>,
)
    requires
        state_le(s1, s2),
        state_le(s2, s3),
    ensures
        state_le(s1, s3),
{
    assert forall|i: int| 0 <= i < s1.len() && (#[trigger] s1[i]) is Some implies le(
        s1[i]->0,
        s3[i]->0,
    ) by {
        crate::lattice::lemma_le_transitive(s1[i]->0, s2[i]->0, s3[i]->0);
    }
}

/// Pointwise join is an upper bound of both states, and keeps their key set.
pub proof fn lemma_state_join_le(s1: Seq<Option<SignAnalysis>>, s2: Seq<Option<SignAnalysis>>)
    requires
        compat(s1, s2),
    ensures
        state_le(s1, state_join(s1, s2)),
        state_le(s2, state_join(s1, s2)),
        compat(s1, state_join(s1, s2)),
{
    let j = state_join(s1, s2);
    assert forall|i: int| 0 <= i < s1.len() implies ((#[trigger] j[i]) is Some <==> s1[i] is Some)
        && (s1[i] is Some ==> le(s1[i]->0, j[i]->0) && le(s2[i]->0, j[i]->0)) by {
        if s1[i] is Some {
            crate::lattice::lemma_join_monotone(s1[i]->0, s2[i]->0);
        }
    }
}

/// Pointwise join of states over one declaration table stays over it.
pub proof fn lemma_state_join_tracks(
    decls: Seq<VarType>,
    s1: Seq<Option<SignAnalysis>>,
    s2: Seq<Option<SignAnalysis>>,
)
    requires
        tracks(decls, s1),
        tracks(decls, s2),
    ensures
        tracks(decls, state_join(s1, s2)),
{
}

/// The assignment transfer keeps the key set.
pub proof fn lemma_flow_assign_tracks(
    decls: Seq<VarType>,
    s: Seq<Option<SignAnalysis>>,
    target: usize,
    rv: Rvalue,
)
    requires
        tracks(decls, s),
    ensures
        tracks(decls, spec_flow_assign(s, target, rv)),
{
}

/// Writing a refinement keeps the key set.
pub proof fn lemma_refine_var_tracks(
    decls: Seq<VarType>,
    s: Seq<Option<SignAnalysis>>,
    e: Seq<(usize, usize)>,
    v: usize,
    val: SignAnalysis,
)
    requires
        tracks(decls, s),
    ensures
        tracks(decls, spec_refine_var(s, e, v, val)),
{
}

/// Each side of a branch transfer keeps the key set.
pub proof fn lemma_branch_side_tracks(
    decls: Seq<VarType>,
    s: Seq<Option<SignAnalysis>>,
    e: Seq<(usize, usize)>,
    rv: Rvalue,
    true_side: bool,
)
    requires
        tracks(decls, s),
    ensures
        tracks(decls, spec_branch_side(s, e, rv, true_side)),
{
    if spec_branch_applies(s, rv) {
        match rv {
            Rvalue::BinaryOp(op, o1, o2) => {
                let a = spec_eval_operand(s, o1);
                let b = spec_eval_operand(s, o2);
                let refined = if true_side {
                    spec_flow_cond_true(op, a, b)
                } else {
                    spec_flow_cond_false(op, a, b)
                };
                let s1 = match spec_operand_var(o1) {
                    Some(v1) => spec_refine_var(s, e, v1, refined.0),
                    None => s,
                };
                match spec_operand_var(o1) {
                    Some(v1) => lemma_refine_var_tracks(decls, s, e, v1, refined.0),
                    None => (),
                }
                match spec_operand_var(o2) {
                    Some(v2) => lemma_refine_var_tracks(decls, s1, e, v2, refined.1),
                    None => (),
                }
            },
            _ => (),
        }
    }
}

/// The call transfer keeps the key set.
pub proof fn lemma_flow_call_tracks(
    decls: Seq<VarType>,
    s: Seq<Option<SignAnalysis>>,
    dest: usize,
)
    requires
        tracks(decls, s),
    ensures
        tracks(decls, spec_flow_call(s, dest)),
{
}

impl AbsState {
    /// How many variable slots the state holds.
    pub fn len(&self) -> (r: usize)
        ensures
            r == self@.len(),
    {
        self.values.len()
    }

    /// The slot of variable `v`: its abstract value if tracked, `None` if
    /// untracked or out of range.
    pub fn get(&self, v: usize) -> (r: Option<SignAnalysis>)
        ensures
            r == if v < self@.len() {
                self@[v as int]
            } else {
                None::<SignAnalysis>
            },
    {
        if v < self.values.len() {
            self.values[v]
        } else {
            None
        }
    }

    /// An exact copy of this state.
    pub fn clone_state(&self) -> (r: AbsState)
        ensures
            r@ == self@,
    {
        let mut values: Vec<Option<SignAnalysis>> = Vec::new();
        let n = self.values.len();
        let mut i: usize = 0;
        while i < n
            invariant
                n == self@.len(),
                i <= n,
                values@ == self@.take(i as int),
            decreases n - i,
        {
            values.push(self.values[i]);
            assert(values@ =~= self@.take(i + 1));
            i = i + 1;
        }
        assert(values@ =~= self@);
        AbsState { values }
    }

    /// The state mapping every tracked variable to the lattice's bottom.
    pub fn bot(decls: &Vec<VarType>) -> (r: AbsState)
        ensures
            r@ == filled(decls@, SignAnalysis::Bottom),
    {
        Self::fill(decls, SignAnalysis::Bottom)
    }

    /// The state mapping every tracked variable to the lattice's top.
    pub fn top(decls: &Vec<VarType>) -> (r: AbsState)
        ensures
            r@ == filled(decls@, SignAnalysis::Top),
    {
        Self::fill(decls, SignAnalysis::Top)
    }

    fn fill(decls: &Vec<VarType>, v: SignAnalysis) -> (r: AbsState)
        ensures
            r@ == filled(decls@, v),
    {
        let mut values: Vec<Option<SignAnalysis>> = Vec::new();
        let n = decls.len();
        let mut i: usize = 0;
        while i < n
            invariant
                n == decls@.len(),
                i <= n,
                values@ == filled(decls@, v).take(i as int),
            decreases n - i,
        {
            let slot = if SignAnalysis::applies(&decls[i]) {
                Some(v)
            } else {
                None
            };
            values.push(slot);
            assert(values@ =~= filled(decls@, v).take(i + 1));
            i = i + 1;
        }
        assert(values@ =~= filled(decls@, v));
        AbsState { values }
    }

    /// The pointwise join of two states. The states must share one key set;
    /// a join over mismatched key sets signals a structurally invalid graph
    /// and is not accepted.
    pub fn join(op1: &AbsState, op2: &AbsState) -> (r: AbsState)
        requires
            compat(op1@, op2@),
        ensures
            r@ == state_join(op1@, op2@),
    {
        let mut values: Vec<Option<SignAnalysis>> = Vec::new();
        let n = op1.values.len();
        let mut i: usize = 0;
        while i < n
            invariant
                compat(op1@, op2@),
                n == op1@.len(),
                i <= n,
                values@ == state_join(op1@, op2@).take(i as int),
            decreases n - i,
        {
            let slot = match (op1.values[i], op2.values[i]) {
                (Some(a), Some(b)) => Some(SignAnalysis::join(&a, &b)),
                _ => op1.values[i],
            };
            values.push(slot);
            assert(values@ =~= state_join(op1@, op2@).take(i + 1));
            i = i + 1;
        }
        assert(values@ =~= state_join(op1@, op2@));
        AbsState { values }
    }

    /// Whether two states hold exactly the same slots.
    pub fn state_eq(&self, other: &AbsState) -> (r: bool)
        ensures
            r <==> self@ =~= other@,
    {
        if self.values.len() != other.values.len() {
            return false;
        }
        let n = self.values.len();
        let mut i: usize = 0;
        while i < n
            invariant
                n == self@.len(),
                n == other@.len(),
                i <= n,
                forall|k: int| 0 <= k < i ==> self@[k] == other@[k],
            decreases n - i,
        {
            let same = match (self.values[i], other.values[i]) {
                (Some(a), Some(b)) => a == b,
                (None, None) => true,
                _ => false,
            };
            if !same {
                return false;
            }
            i = i + 1;
        }
        true
    }

    fn eval_operand(&self, op: &Operand) -> (r: SignAnalysis)
        ensures
            r == spec_eval_operand(self@, *op),
    {
        match op {
            Operand::Var(v) => {
                if *v < self.values.len() {
                    match self.values[*v] {
                        Some(x) => x,
                        None => SignAnalysis::Top,
                    }
                } else {
                    SignAnalysis::Top
                }
            },
            Operand::Const(c) => SignAnalysis::alpha(*c),
        }
    }

    fn operand_var(op: &Operand) -> (r: Option<usize>)
        ensures
            r == spec_operand_var(*op),
    {
        match op {
            Operand::Var(v) => Some(*v),
            Operand::Const(_) => None,
        }
    }

    fn operand_tracked(&self, op: &Operand) -> (r: bool)
        ensures
            r == spec_operand_tracked(self@, *op),
    {
        match op {
            Operand::Var(v) => *v < self.values.len() && self.values[*v].is_some(),
            Operand::Const(_) => false,
        }
    }

    /// The per-statement transfer for the assignment `local := rvalue`. A
    /// direct copy of another variable additionally records the pair in the
    /// equivalence map, enabling later alias-based refinement; an assignment
    /// to an untracked target changes nothing.
    pub fn flow_assign(&self, local: usize, rvalue: &Rvalue, equiv: &mut EquivMap) -> (r: AbsState)
        ensures
            r@ == spec_flow_assign(self@, local, *rvalue),
            final(equiv)@ == spec_equiv_after_assign(old(equiv)@, self@, local, *rvalue),
    {
        if local >= self.values.len() || self.values[local].is_none() {
            return self.clone_state();
        }
        let val = match rvalue {
            Rvalue::Use(op) => {
                match Self::operand_var(op) {
                    Some(v) => {
                        equiv.pairs.push((local, v));
                        equiv.pairs.push((v, local));
                    },
                    None => {},
                }
                self.eval_operand(op)
            },
            Rvalue::BinaryOp(op, o1, o2) => {
                let a = self.eval_operand(o1);
                let b = self.eval_operand(o2);
                SignAnalysis::flow_binop(op, &a, &b)
            },
            Rvalue::UnaryOp(op, o1) => {
                let a = self.eval_operand(o1);
                SignAnalysis::flow_unop(op, &a)
            },
            Rvalue::Other => SignAnalysis::top(),
        };
        let mut r = self.clone_state();
        r.values.set(local, Some(val));
        r
    }

    /// The state after writing `val` to variable `v` and to each of its
    /// recorded aliases, skipping untracked slots.
    fn refine_var(&self, equiv: &EquivMap, v: usize, val: SignAnalysis) -> (r: AbsState)
        ensures
            r@ == spec_refine_var(self@, equiv@, v, val),
    {
        let mut r = self.clone_state();
        if v < r.values.len() && r.values[v].is_some() {
            r.values.set(v, Some(val));
        }
        let m = equiv.pairs.len();
        let mut j: usize = 0;
        while j < m
            invariant
                m == equiv@.len(),
                j <= m,
                r@.len() == self@.len(),
                forall|u: int|
                    0 <= u < self@.len() ==> #[trigger] r@[u] == (if (u == v || linked(
                        equiv@.take(j as int),
                        v,
                        u as usize,
                    )) && self@[u] is Some {
                        Some(val)
                    } else {
                        self@[u]
                    }),
            decreases m - j,
        {
            let (a, b) = equiv.pairs[j];
            if a == v && b < r.values.len() && r.values[b].is_some() {
                r.values.set(b, Some(val));
            }
            proof {
                let prefix = equiv@.take(j as int);
                let ext = equiv@.take(j + 1);
                assert(ext =~= prefix.push((a, b)));
                assert forall|u: usize| linked(ext, v, u) implies (linked(prefix, v, u) || (a == v
                    && b == u)) by {
                    let i = choose|i: int| 0 <= i < ext.len() && ext[i] == (v, u);
                    if i < j {
                        assert(prefix[i] == (v, u));
                    }
                }
                assert forall|u: usize| linked(prefix, v, u) implies linked(ext, v, u) by {
                    let i = choose|i: int| 0 <= i < prefix.len() && prefix[i] == (v, u);
                    assert(ext[i] == (v, u));
                }
                if a == v {
                    assert(ext[j as int] == (v, b));
                    assert(linked(ext, v, b));
                }
            }
            j = j + 1;
        }
        assert(equiv@.take(m as int) =~= equiv@);
        assert(r@ =~= spec_refine_var(self@, equiv@, v, val));
        r
    }

    /// The per-branch transfer: if the switching expression is a binary
    /// comparison with at least one tracked operand, the refined operand
    /// values for the false and the true outcome are written to the operand
    /// variables and their recorded aliases, producing two independent state
    /// copies `(false_state, true_state)`; otherwise both copies equal the
    /// input state.
    pub fn flow_branch(&self, rvalue: &Rvalue, equiv: &EquivMap) -> (r: (AbsState, AbsState))
        ensures
            r.0@ == spec_branch_side(self@, equiv@, *rvalue, false),
            r.1@ == spec_branch_side(self@, equiv@, *rvalue, true),
    {
        match rvalue {
            Rvalue::BinaryOp(op, o1, o2) => {
                if self.operand_tracked(o1) || self.operand_tracked(o2) {
                    let a = self.eval_operand(o1);
                    let b = self.eval_operand(o2);
                    let refined_false = SignAnalysis::flow_cond_false(op, &a, &b);
                    let state_false = self.apply_refinement(o1, o2, refined_false, equiv);
                    let refined_true = SignAnalysis::flow_cond_true(op, &a, &b);
                    let state_true = self.apply_refinement(o1, o2, refined_true, equiv);
                    (state_false, state_true)
                } else {
                    (self.clone_state(), self.clone_state())
                }
            },
            _ => (self.clone_state(), self.clone_state()),
        }
    }

    fn apply_refinement(
        &self,
        o1: &Operand,
        o2: &Operand,
        refined: (SignAnalysis, SignAnalysis),
        equiv: &EquivMap,
    ) -> (r: AbsState)
        ensures
            r@ == ({
                let s1 = match spec_operand_var(*o1) {
                    Some(v1) => spec_refine_var(self@, equiv@, v1, refined.0),
                    None => self@,
                };
                match spec_operand_var(*o2) {
                    Some(v2) => spec_refine_var(s1, equiv@, v2, refined.1),
                    None => s1,
                }
            }),
    {
        let first = match Self::operand_var(o1) {
            Some(v1) => self.refine_var(equiv, v1, refined.0),
            None => self.clone_state(),
        };
        match Self::operand_var(o2) {
            Some(v2) => first.refine_var(equiv, v2, refined.1),
            None => first,
        }
    }

    /// The transfer for a call terminator: the destination variable's entry
    /// goes to `Top` if tracked. Calls are never modeled beyond this —
    /// conservative and sound.
    pub fn flow_function_call(&self, destination: usize) -> (r: AbsState)
        ensures
            r@ == spec_flow_call(self@, destination),
    {
        let mut r = self.clone_state();
        if destination < r.values.len() && r.values[destination].is_some() {
            r.values.set(destination, Some(SignAnalysis::top()));
        }
        r
    }
}

} // verus!
