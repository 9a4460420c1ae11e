//! The control-flow-graph representation the engine analyzes.
//!
//! A function graph is an ordered set of basic blocks plus a distinguished
//! entry block. Each basic block is an ordered sequence of assignment
//! statements followed by exactly one terminator. The graph is produced by a
//! front end and only read by the engine; anything the front end cannot
//! express in these shapes is represented by the `Other` variants and treated
//! conservatively.

use vstd::prelude::*;

verus! {

/// The declared type of a variable. Only integer-typed variables are tracked
/// by the sign domains; every other type is ignored by the analysis.
#[derive(Clone, Copy, Debug, PartialEq, Eq, Structural)]
pub enum VarType {
    Int,
    Bool,
    Other,
}

/// A literal constant. Integer constants are abstracted by their sign; any
/// other constant shape is unrecognized and abstracts to Top.
#[derive(Clone, Copy, Debug, PartialEq, Eq, Structural)]
pub enum Const {
    Int(i64),
    Other,
}

/// A binary operator. Operators without a dedicated transfer rule fall under
/// `Other` and transfer to Top.
#[derive(Clone, Copy, Debug, PartialEq, Eq, Structural)]
pub enum BinOp {
    Add,
    Sub,
    Mul,
    Div,
    Rem,
    Eq,
    Ne,
    Lt,
    Le,
    Ge,
    Gt,
    Other,
}

/// A unary operator.
#[derive(Clone, Copy, Debug, PartialEq, Eq, Structural)]
pub enum UnOp {
    Neg,
    Not,
}

/// Either a reference to a variable's current abstract value or a literal
/// constant.
#[derive(Clone, Copy, Debug, PartialEq, Eq, Structural)]
pub enum Operand {
    Var(usize),
    Const(Const),
}

/// The right-hand side of an assignment. Shapes beyond a plain copy, a binary
/// operation, or a unary operation are `Other` and transfer to Top.
#[derive(Clone, Copy, Debug, PartialEq, Eq, Structural)]
pub enum Rvalue {
    Use(Operand),
    BinaryOp(BinOp, Operand, Operand),
    UnaryOp(UnOp, Operand),
    Other,
}

/// An assignment statement: `target := rvalue`.
#[derive(Clone, Copy, Debug, PartialEq, Eq, Structural)]
pub struct Statement {
    pub target: usize,
    pub rvalue: Rvalue,
}

/// The control-transfer instruction ending a basic block.
///
/// A `Branch` switches on a boolean variable `discr`; its successor order is
/// the fixed convention `[false_target, true_target]`. A `Call` may write an
/// opaque result into `dest` and then continues at `target`. `Return` and
/// `Other` have no successors.
#[derive(Clone, Copy, Debug, PartialEq, Eq, Structural)]
pub enum Terminator {
    Goto { target: usize },
    Branch { discr: usize, false_target: usize, true_target: usize },
    Call { dest: Option<usize>, target: usize },
    Return,
    Other,
}

/// A basic block: assignment statements followed by one terminator.
#[derive(Clone, Debug)]
pub struct Block {
    pub statements: Vec<Statement>,
    pub terminator: Terminator,
}

/// A function's control-flow graph together with its variable declarations.
#[derive(Clone, Debug)]
pub struct FunctionGraph {
    pub blocks: Vec<Block>,
    pub decls: Vec<VarType>,
    pub entry: usize,
}

impl Terminator {
    /// The successor blocks of this terminator, in the fixed order a branch
    /// uses: `[false_target, true_target]`.
    pub open spec fn spec_successors(self) -> Seq<usize> {
        match self {
            Terminator::Goto { target } => seq![target],
            Terminator::Branch { false_target, true_target, .. } => seq![
                false_target,
                true_target,
            ],
            Terminator::Call { target, .. } => seq![target],
            Terminator::Return => seq![],
            Terminator::Other => seq![],
        }
    }

    /// Collects the successor blocks of this terminator.
    pub fn successors(&self) -> (r: Vec<usize>)
        ensures
            r@ == self.spec_successors(),
    {
        match self {
            Terminator::Goto { target } => {
                let mut v: Vec<usize> = Vec::new();
                v.push(*target);
                assert(v@ =~= self.spec_successors());
                v
            },
            Terminator::Branch { false_target, true_target, .. } => {
                let mut v: Vec<usize> = Vec::new();
                v.push(*false_target);
                v.push(*true_target);
                assert(v@ =~= self.spec_successors());
                v
            },
            Terminator::Call { target, .. } => {
                let mut v: Vec<usize> = Vec::new();
                v.push(*target);
                assert(v@ =~= self.spec_successors());
                v
            },
            Terminator::Return => {
                let v: Vec<usize> = Vec::new();
                assert(v@ =~= self.spec_successors());
                v
            },
            Terminator::Other => {
                let v: Vec<usize> = Vec::new();
                assert(v@ =~= self.spec_successors());
                v
            },
        }
    }
}

impl Block {
    /// Builds a block from its statements and terminator.
    pub fn new(statements: Vec<Statement>, terminator: Terminator) -> (r: Block)
        ensures
            r.statements == statements,
            r.terminator == terminator,
    {
        Block { statements, terminator }
    }
}

/// Whether every successor named by `t` is a valid block index of a graph
/// with `n` blocks.
pub open spec fn successors_in_range(t: Terminator, n: int) -> bool {
    forall|i: int|
        0 <= i < t.spec_successors().len() ==> (#[trigger] t.spec_successors()[i]) < n
}

/// Whether a branch block is well formed: it holds at least one statement,
/// its final statement assigns the branch's boolean discriminant, and no
/// earlier statement assigns that discriminant. A front end that produces a
/// branch block violating this has broken its contract; the engine does not
/// accept such a graph.
pub open spec fn branch_block_wf(b: Block) -> bool {
    match b.terminator {
        Terminator::Branch { discr, false_target, true_target } => {
            &&& b.statements@.len() >= 1
            &&& b.statements@.last().target == discr
            &&& forall|i: int|
                0 <= i < b.statements@.len() - 1 ==> (#[trigger] b.statements@[i]).target != discr
        },
        _ => true,
    }
}

/// Structural well-formedness of a function graph: the entry block exists,
/// every successor index is in range, and every branch block is well formed.
pub open spec fn graph_wf(g: FunctionGraph) -> bool {
    &&& g.entry < g.blocks@.len()
    &&& forall|b: int|
        0 <= b < g.blocks@.len() ==> successors_in_range(
            (#[trigger] g.blocks@[b]).terminator,
            g.blocks@.len() as int,
        )
    &&& forall|b: int| 0 <= b < g.blocks@.len() ==> branch_block_wf(#[trigger] g.blocks@[b])
}

} // verus!
