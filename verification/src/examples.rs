//! Ready-made function graphs, each the control-flow graph a front end would
//! produce for a small integer-indexing function. They feed the scenario
//! tests of the engine: an unguarded index, an index guarded by an assertion,
//! nested non-positivity guards, and loops that modify the index. Each
//! constructor's contract pins the exact graph it returns, block by block.

use crate::cfg::{
    branch_block_wf, graph_wf, successors_in_range, BinOp, Block, Const, FunctionGraph, Operand,
    Rvalue, Statement, Terminator, VarType,
};
use vstd::prelude::*;

verus! {

/// A function that indexes an array at `x` with no guard at all. Variable 0
/// is `x`, variable 1 the array. Block 1 is the use site; nothing constrains
/// `x` on the way there.
pub fn test_fn() -> (g: FunctionGraph)
    ensures
        graph_wf(g),
        g.entry == 0,
        g.decls@ =~= seq![VarType::Int, VarType::Other],
        g.blocks@.len() == 2,
        g.blocks@[0].statements@ =~= Seq::<Statement>::empty(),
        g.blocks@[0].terminator == (Terminator::Goto { target: 1usize }),
        g.blocks@[1].statements@ =~= Seq::<Statement>::empty(),
        g.blocks@[1].terminator == Terminator::Return,
{
    let mut decls: Vec<VarType> = Vec::new();
    decls.push(VarType::Int);
    decls.push(VarType::Other);
    let s0: Vec<Statement> = Vec::new();
    let s1: Vec<Statement> = Vec::new();
    let mut blocks: Vec<Block> = Vec::new();
    blocks.push(Block::new(s0, Terminator::Goto { target: 1 }));
    blocks.push(Block::new(s1, Terminator::Return));
    let g = FunctionGraph { blocks, decls, entry: 0 };
    proof {
        assert(g.decls@ =~= seq![VarType::Int, VarType::Other]);
        assert(g.blocks@[0].statements@ =~= Seq::<Statement>::empty());
        assert(g.blocks@[1].statements@ =~= Seq::<Statement>::empty());
        assert forall|b: int|
            0 <= b < g.blocks@.len() implies successors_in_range(
            (#[trigger] g.blocks@[b]).terminator,
            g.blocks@.len() as int,
        ) && branch_block_wf(g.blocks@[b]) by {
            if b == 0 {
                assert(g.blocks@[0].terminator.spec_successors() =~= seq![1usize]);
            } else {
                assert(g.blocks@[1].terminator.spec_successors() =~= Seq::<usize>::empty());
            }
        }
    }
    g
}

/// A function that asserts `x < 0` and then indexes an array at `x`.
/// Variable 0 is `x`, variable 1 the boolean guard. Block 1 is the use site
/// behind the assertion's true edge; block 2 is the assertion-failure block.
pub fn test_fn2() -> (g: FunctionGraph)
    ensures
        graph_wf(g),
        g.entry == 0,
        g.decls@ =~= seq![VarType::Int, VarType::Bool],
        g.blocks@.len() == 3,
        g.blocks@[0].statements@ =~= seq![
            (Statement {
                target: 1usize,
                rvalue: Rvalue::BinaryOp(
                    BinOp::Lt,
                    Operand::Var(0usize),
                    Operand::Const(Const::Int(0i64)),
                ),
            }),
        ],
        g.blocks@[0].terminator == (Terminator::Branch {
            discr: 1usize,
            false_target: 2usize,
            true_target: 1usize,
        }),
        g.blocks@[1].statements@ =~= Seq::<Statement>::empty(),
        g.blocks@[1].terminator == Terminator::Return,
        g.blocks@[2].statements@ =~= Seq::<Statement>::empty(),
        g.blocks@[2].terminator == Terminator::Other,
{
    guarded_use(BinOp::Lt)
}

/// A function that asserts `x >= 0` and then indexes an array at `x`; the
/// same shape as [`test_fn2`] with the comparison flipped.
pub fn test_fn3() -> (g: FunctionGraph)
    ensures
        graph_wf(g),
        g.entry == 0,
        g.decls@ =~= seq![VarType::Int, VarType::Bool],
        g.blocks@.len() == 3,
        g.blocks@[0].statements@ =~= seq![
            (Statement {
                target: 1usize,
                rvalue: Rvalue::BinaryOp(
                    BinOp::Ge,
                    Operand::Var(0usize),
                    Operand::Const(Const::Int(0i64)),
                ),
            }),
        ],
        g.blocks@[0].terminator == (Terminator::Branch {
            discr: 1usize,
            false_target: 2usize,
            true_target: 1usize,
        }),
        g.blocks@[1].statements@ =~= Seq::<Statement>::empty(),
        g.blocks@[1].terminator == Terminator::Return,
        g.blocks@[2].statements@ =~= Seq::<Statement>::empty(),
        g.blocks@[2].terminator == Terminator::Other,
{
    guarded_use(BinOp::Ge)
}

/// The common shape of an assertion-guarded use: block 0 computes
/// `guard := x cmp 0` and branches on it, the false edge leads to the
/// assertion-failure block 2, the true edge to the use site, block 1.
fn guarded_use(cmp: BinOp) -> (g: FunctionGraph)
    ensures
        graph_wf(g),
        g.entry == 0,
        g.decls@ =~= seq![VarType::Int, VarType::Bool],
        g.blocks@.len() == 3,
        g.blocks@[0].statements@ =~= seq![
            (Statement {
                target: 1usize,
                rvalue: Rvalue::BinaryOp(
                    cmp,
                    Operand::Var(0usize),
                    Operand::Const(Const::Int(0i64)),
                ),
            }),
        ],
        g.blocks@[0].terminator == (Terminator::Branch {
            discr: 1usize,
            false_target: 2usize,
            true_target: 1usize,
        }),
        g.blocks@[1].statements@ =~= Seq::<Statement>::empty(),
        g.blocks@[1].terminator == Terminator::Return,
        g.blocks@[2].statements@ =~= Seq::<Statement>::empty(),
        g.blocks@[2].terminator == Terminator::Other,
{
    let mut decls: Vec<VarType> = Vec::new();
    decls.push(VarType::Int);
    decls.push(VarType::Bool);
    let mut s0: Vec<Statement> = Vec::new();
    s0.push(
        Statement {
            target: 1,
            rvalue: Rvalue::BinaryOp(cmp, Operand::Var(0), Operand::Const(Const::Int(0))),
        },
    );
    let s1: Vec<Statement> = Vec::new();
    let s2: Vec<Statement> = Vec::new();
    let mut blocks: Vec<Block> = Vec::new();
    blocks.push(
        Block::new(s0, Terminator::Branch { discr: 1, false_target: 2, true_target: 1 }),
    );
    blocks.push(Block::new(s1, Terminator::Return));
    blocks.push(Block::new(s2, Terminator::Other));
    let g = FunctionGraph { blocks, decls, entry: 0 };
    proof {
        assert(g.decls@ =~= seq![VarType::Int, VarType::Bool]);
        assert(g.blocks@[0].statements@ =~= seq![
            (Statement {
                target: 1usize,
                rvalue: Rvalue::BinaryOp(
                    cmp,
                    Operand::Var(0usize),
                    Operand::Const(Const::Int(0i64)),
                ),
            }),
        ]);
        assert(g.blocks@[1].statements@ =~= Seq::<Statement>::empty());
        assert(g.blocks@[2].statements@ =~= Seq::<Statement>::empty());
        assert forall|b: int|
            0 <= b < g.blocks@.len() implies successors_in_range(
            (#[trigger] g.blocks@[b]).terminator,
            g.blocks@.len() as int,
        ) && branch_block_wf(g.blocks@[b]) by {
            if b == 0 {
                assert(g.blocks@[0].terminator.spec_successors() =~= seq![2usize, 1usize]);
                assert(g.blocks@[0].statements@.len() == 1);
                assert(g.blocks@[0].statements@.last().target == 1);
            } else if b == 1 {
                assert(g.blocks@[1].terminator.spec_successors() =~= Seq::<usize>::empty());
            } else {
                assert(g.blocks@[2].terminator.spec_successors() =~= Seq::<usize>::empty());
            }
        }
    }
    g
}

/// Nested guards `if x <= 0 { if y <= 0 { idx = x * y } }`. Variables:
/// 0 is `x`, 1 is `y`, 2 and 3 the two boolean guards, 4 is `idx`. Block 2
/// is the innermost block, reached only with both guards true; block 3 is
/// the common exit.
pub fn test_fn5() -> (g: FunctionGraph)
    ensures
        graph_wf(g),
        g.entry == 0,
        g.decls@ =~= seq![VarType::Int, VarType::Int, VarType::Bool, VarType::Bool, VarType::Int],
        g.blocks@.len() == 4,
        g.blocks@[0].statements@ =~= seq![
            (Statement {
                target: 2usize,
                rvalue: Rvalue::BinaryOp(
                    BinOp::Le,
                    Operand::Var(0usize),
                    Operand::Const(Const::Int(0i64)),
                ),
            }),
        ],
        g.blocks@[0].terminator == (Terminator::Branch {
            discr: 2usize,
            false_target: 3usize,
            true_target: 1usize,
        }),
        g.blocks@[1].statements@ =~= seq![
            (Statement {
                target: 3usize,
                rvalue: Rvalue::BinaryOp(
                    BinOp::Le,
                    Operand::Var(1usize),
                    Operand::Const(Const::Int(0i64)),
                ),
            }),
        ],
        g.blocks@[1].terminator == (Terminator::Branch {
            discr: 3usize,
            false_target: 3usize,
            true_target: 2usize,
        }),
        g.blocks@[2].statements@ =~= seq![
            (Statement {
                target: 4usize,
                rvalue: Rvalue::BinaryOp(BinOp::Mul, Operand::Var(0usize), Operand::Var(1usize)),
            }),
        ],
        g.blocks@[2].terminator == (Terminator::Goto { target: 3usize }),
        g.blocks@[3].statements@ =~= Seq::<Statement>::empty(),
        g.blocks@[3].terminator == Terminator::Return,
{
    let mut decls: Vec<VarType> = Vec::new();
    decls.push(VarType::Int);
    decls.push(VarType::Int);
    decls.push(VarType::Bool);
    decls.push(VarType::Bool);
    decls.push(VarType::Int);
    let mut s0: Vec<Statement> = Vec::new();
    s0.push(
        Statement {
            target: 2,
            rvalue: Rvalue::BinaryOp(BinOp::Le, Operand::Var(0), Operand::Const(Const::Int(0))),
        },
    );
    let mut s1: Vec<Statement> = Vec::new();
    s1.push(
        Statement {
            target: 3,
            rvalue: Rvalue::BinaryOp(BinOp::Le, Operand::Var(1), Operand::Const(Const::Int(0))),
        },
    );
    let mut s2: Vec<Statement> = Vec::new();
    s2.push(
        Statement {
            target: 4,
            rvalue: Rvalue::BinaryOp(BinOp::Mul, Operand::Var(0), Operand::Var(1)),
        },
    );
    let s3: Vec<Statement> = Vec::new();
    let mut blocks: Vec<Block> = Vec::new();
    blocks.push(
        Block::new(s0, Terminator::Branch { discr: 2, false_target: 3, true_target: 1 }),
    );
    blocks.push(
        Block::new(s1, Terminator::Branch { discr: 3, false_target: 3, true_target: 2 }),
    );
    blocks.push(Block::new(s2, Terminator::Goto { target: 3 }));
    blocks.push(Block::new(s3, Terminator::Return));
    let g = FunctionGraph { blocks, decls, entry: 0 };
    proof {
        assert(g.decls@ =~= seq![
            VarType::Int,
            VarType::Int,
            VarType::Bool,
            VarType::Bool,
            VarType::Int,
        ]);
        assert(g.blocks@[0].statements@ =~= seq![
            (Statement {
                target: 2usize,
                rvalue: Rvalue::BinaryOp(
                    BinOp::Le,
                    Operand::Var(0usize),
                    Operand::Const(Const::Int(0i64)),
                ),
            }),
        ]);
        assert(g.blocks@[1].statements@ =~= seq![
            (Statement {
                target: 3usize,
                rvalue: Rvalue::BinaryOp(
                    BinOp::Le,
                    Operand::Var(1usize),
                    Operand::Const(Const::Int(0i64)),
                ),
            }),
        ]);
        assert(g.blocks@[2].statements@ =~= seq![
            (Statement {
                target: 4usize,
                rvalue: Rvalue::BinaryOp(BinOp::Mul, Operand::Var(0usize), Operand::Var(1usize)),
            }),
        ]);
        assert(g.blocks@[3].statements@ =~= Seq::<Statement>::empty());
        assert forall|b: int|
            0 <= b < g.blocks@.len() implies successors_in_range(
            (#[trigger] g.blocks@[b]).terminator,
            g.blocks@.len() as int,
        ) && branch_block_wf(g.blocks@[b]) by {
            if b == 0 {
                assert(g.blocks@[0].terminator.spec_successors() =~= seq![3usize, 1usize]);
                assert(g.blocks@[0].statements@.len() == 1);
                assert(g.blocks@[0].statements@.last().target == 2);
            } else if b == 1 {
                assert(g.blocks@[1].terminator.spec_successors() =~= seq![3usize, 2usize]);
                assert(g.blocks@[1].statements@.len() == 1);
                assert(g.blocks@[1].statements@.last().target == 3);
            } else if b == 2 {
                assert(g.blocks@[2].terminator.spec_successors() =~= seq![3usize]);
            } else {
                assert(g.blocks@[3].terminator.spec_successors() =~= Seq::<usize>::empty());
            }
        }
    }
    g
}

/// A loop that raises `x` until it is non-negative:
/// `while x < 0 { x += 4 }` followed by an index at `x`. Variables: 0 is
/// `x`, 1 the loop guard. Block 1 is the loop head, block 2 the loop body,
/// block 3 the use site after the loop.
pub fn test_fn6() -> (g: FunctionGraph)
    ensures
        graph_wf(g),
        g.entry == 0,
        g.decls@ =~= seq![VarType::Int, VarType::Bool],
        g.blocks@.len() == 4,
        g.blocks@[0].statements@ =~= Seq::<Statement>::empty(),
        g.blocks@[0].terminator == (Terminator::Goto { target: 1usize }),
        g.blocks@[1].statements@ =~= seq![
            (Statement {
                target: 1usize,
                rvalue: Rvalue::BinaryOp(
                    BinOp::Lt,
                    Operand::Var(0usize),
                    Operand::Const(Const::Int(0i64)),
                ),
            }),
        ],
        g.blocks@[1].terminator == (Terminator::Branch {
            discr: 1usize,
            false_target: 3usize,
            true_target: 2usize,
        }),
        g.blocks@[2].statements@ =~= seq![
            (Statement {
                target: 0usize,
                rvalue: Rvalue::BinaryOp(
                    BinOp::Add,
                    Operand::Var(0usize),
                    Operand::Const(Const::Int(4i64)),
                ),
            }),
        ],
        g.blocks@[2].terminator == (Terminator::Goto { target: 1usize }),
        g.blocks@[3].statements@ =~= Seq::<Statement>::empty(),
        g.blocks@[3].terminator == Terminator::Return,
{
    let mut decls: Vec<VarType> = Vec::new();
    decls.push(VarType::Int);
    decls.push(VarType::Bool);
    let s0: Vec<Statement> = Vec::new();
    let mut s1: Vec<Statement> = Vec::new();
    s1.push(
        Statement {
            target: 1,
            rvalue: Rvalue::BinaryOp(BinOp::Lt, Operand::Var(0), Operand::Const(Const::Int(0))),
        },
    );
    let mut s2: Vec<Statement> = Vec::new();
    s2.push(
        Statement {
            target: 0,
            rvalue: Rvalue::BinaryOp(BinOp::Add, Operand::Var(0), Operand::Const(Const::Int(4))),
        },
    );
    let s3: Vec<Statement> = Vec::new();
    let mut blocks: Vec<Block> = Vec::new();
    blocks.push(Block::new(s0, Terminator::Goto { target: 1 }));
    blocks.push(
        Block::new(s1, Terminator::Branch { discr: 1, false_target: 3, true_target: 2 }),
    );
    blocks.push(Block::new(s2, Terminator::Goto { target: 1 }));
    blocks.push(Block::new(s3, Terminator::Return));
    let g = FunctionGraph { blocks, decls, entry: 0 };
    proof {
        assert(g.decls@ =~= seq![VarType::Int, VarType::Bool]);
        assert(g.blocks@[0].statements@ =~= Seq::<Statement>::empty());
        assert(g.blocks@[1].statements@ =~= seq![
            (Statement {
                target: 1usize,
                rvalue: Rvalue::BinaryOp(
                    BinOp::Lt,
                    Operand::Var(0usize),
                    Operand::Const(Const::Int(0i64)),
                ),
            }),
        ]);
        assert(g.blocks@[2].statements@ =~= seq![
            (Statement {
                target: 0usize,
                rvalue: Rvalue::BinaryOp(
                    BinOp::Add,
                    Operand::Var(0usize),
                    Operand::Const(Const::Int(4i64)),
                ),
            }),
        ]);
        assert(g.blocks@[3].statements@ =~= Seq::<Statement>::empty());
        assert forall|b: int|
            0 <= b < g.blocks@.len() implies successors_in_range(
            (#[trigger] g.blocks@[b]).terminator,
            g.blocks@.len() as int,
        ) && branch_block_wf(g.blocks@[b]) by {
            if b == 0 {
                assert(g.blocks@[0].terminator.spec_successors() =~= seq![1usize]);
            } else if b == 1 {
                assert(g.blocks@[1].terminator.spec_successors() =~= seq![3usize, 2usize]);
                assert(g.blocks@[1].statements@.len() == 1);
                assert(g.blocks@[1].statements@.last().target == 1);
            } else if b == 2 {
                assert(g.blocks@[2].terminator.spec_successors() =~= seq![1usize]);
            } else {
                assert(g.blocks@[3].terminator.spec_successors() =~= Seq::<usize>::empty());
            }
        }
    }
    g
}

/// A loop whose body shifts values between variables:
/// `z = 2; y = 2; while x < 0 { x += 1; y = z; z -= 1 }` followed by an
/// index at `y`. Variables: 0 is `x`, 1 is `y`, 2 is `z`, 3 the loop guard.
/// Block 1 is the loop head, block 2 the loop body, block 3 the use site.
pub fn test_fn7() -> (g: FunctionGraph)
    ensures
        graph_wf(g),
        g.entry == 0,
        g.decls@ =~= seq![VarType::Int, VarType::Int, VarType::Int, VarType::Bool],
        g.blocks@.len() == 4,
        g.blocks@[0].statements@ =~= seq![
            (Statement { target: 2usize, rvalue: Rvalue::Use(Operand::Const(Const::Int(2i64))) }),
            (Statement { target: 1usize, rvalue: Rvalue::Use(Operand::Const(Const::Int(2i64))) }),
        ],
        g.blocks@[0].terminator == (Terminator::Goto { target: 1usize }),
        g.blocks@[1].statements@ =~= seq![
            (Statement {
                target: 3usize,
                rvalue: Rvalue::BinaryOp(
                    BinOp::Lt,
                    Operand::Var(0usize),
                    Operand::Const(Const::Int(0i64)),
                ),
            }),
        ],
        g.blocks@[1].terminator == (Terminator::Branch {
            discr: 3usize,
            false_target: 3usize,
            true_target: 2usize,
        }),
        g.blocks@[2].statements@ =~= seq![
            (Statement {
                target: 0usize,
                rvalue: Rvalue::BinaryOp(
                    BinOp::Add,
                    Operand::Var(0usize),
                    Operand::Const(Const::Int(1i64)),
                ),
            }),
            (Statement { target: 1usize, rvalue: Rvalue::Use(Operand::Var(2usize)) }),
            (Statement {
                target: 2usize,
                rvalue: Rvalue::BinaryOp(
                    BinOp::Sub,
                    Operand::Var(2usize),
                    Operand::Const(Const::Int(1i64)),
                ),
            }),
        ],
        g.blocks@[2].terminator == (Terminator::Goto { target: 1usize }),
        g.blocks@[3].statements@ =~= Seq::<Statement>::empty(),
        g.blocks@[3].terminator == Terminator::Return,
{
    let mut decls: Vec<VarType> = Vec::new();
    decls.push(VarType::Int);
    decls.push(VarType::Int);
    decls.push(VarType::Int);
    decls.push(VarType::Bool);
    let mut s0: Vec<Statement> = Vec::new();
    s0.push(Statement { target: 2, rvalue: Rvalue::Use(Operand::Const(Const::Int(2))) });
    s0.push(Statement { target: 1, rvalue: Rvalue::Use(Operand::Const(Const::Int(2))) });
    let mut s1: Vec<Statement> = Vec::new();
    s1.push(
        Statement {
            target: 3,
            rvalue: Rvalue::BinaryOp(BinOp::Lt, Operand::Var(0), Operand::Const(Const::Int(0))),
        },
    );
    let mut s2: Vec<Statement> = Vec::new();
    s2.push(
        Statement {
            target: 0,
            rvalue: Rvalue::BinaryOp(BinOp::Add, Operand::Var(0), Operand::Const(Const::Int(1))),
        },
    );
    s2.push(Statement { target: 1, rvalue: Rvalue::Use(Operand::Var(2)) });
    s2.push(
        Statement {
            target: 2,
            rvalue: Rvalue::BinaryOp(BinOp::Sub, Operand::Var(2), Operand::Const(Const::Int(1))),
        },
    );
    let s3: Vec<Statement> = Vec::new();
    let mut blocks: Vec<Block> = Vec::new();
    blocks.push(Block::new(s0, Terminator::Goto { target: 1 }));
    blocks.push(
        Block::new(s1, Terminator::Branch { discr: 3, false_target: 3, true_target: 2 }),
    );
    blocks.push(Block::new(s2, Terminator::Goto { target: 1 }));
    blocks.push(Block::new(s3, Terminator::Return));
    let g = FunctionGraph { blocks, decls, entry: 0 };
    proof {
        assert(g.decls@ =~= seq![VarType::Int, VarType::Int, VarType::Int, VarType::Bool]);
        assert(g.blocks@[0].statements@ =~= seq![
            (Statement { target: 2usize, rvalue: Rvalue::Use(Operand::Const(Const::Int(2i64))) }),
            (Statement { target: 1usize, rvalue: Rvalue::Use(Operand::Const(Const::Int(2i64))) }),
        ]);
        assert(g.blocks@[1].statements@ =~= seq![
            (Statement {
                target: 3usize,
                rvalue: Rvalue::BinaryOp(
                    BinOp::Lt,
                    Operand::Var(0usize),
                    Operand::Const(Const::Int(0i64)),
                ),
            }),
        ]);
        assert(g.blocks@[2].statements@ =~= seq![
            (Statement {
                target: 0usize,
                rvalue: Rvalue::BinaryOp(
                    BinOp::Add,
                    Operand::Var(0usize),
                    Operand::Const(Const::Int(1i64)),
                ),
            }),
            (Statement { target: 1usize, rvalue: Rvalue::Use(Operand::Var(2usize)) }),
            (Statement {
                target: 2usize,
                rvalue: Rvalue::BinaryOp(
                    BinOp::Sub,
                    Operand::Var(2usize),
                    Operand::Const(Const::Int(1i64)),
                ),
            }),
        ]);
        assert(g.blocks@[3].statements@ =~= Seq::<Statement>::empty());
        assert forall|b: int|
            0 <= b < g.blocks@.len() implies successors_in_range(
            (#[trigger] g.blocks@[b]).terminator,
            g.blocks@.len() as int,
        ) && branch_block_wf(g.blocks@[b]) by {
            if b == 0 {
                assert(g.blocks@[0].terminator.spec_successors() =~= seq![1usize]);
            } else if b == 1 {
                assert(g.blocks@[1].terminator.spec_successors() =~= seq![3usize, 2usize]);
                assert(g.blocks@[1].statements@.len() == 1);
                assert(g.blocks@[1].statements@.last().target == 3);
            } else if b == 2 {
                assert(g.blocks@[2].terminator.spec_successors() =~= seq![1usize]);
                assert(g.blocks@[2].statements@.len() == 3);
                assert(g.blocks@[2].statements@[0].target == 0);
                assert(g.blocks@[2].statements@[1].target == 1);
                assert(g.blocks@[2].statements@[2].target == 2);
            } else {
                assert(g.blocks@[3].terminator.spec_successors() =~= Seq::<usize>::empty());
            }
        }
    }
    g
}

/// A direct copy followed by a guard on the copy: `y = x; if y < 0 { .. }`.
/// Variables: 0 is `x`, 1 is `y`, 2 the boolean guard. Block 1 is the true
/// branch; the copy links `x` and `y` in the equivalence map, so the branch
/// refinement reaches both.
pub fn alias_example() -> (g: FunctionGraph)
    ensures
        graph_wf(g),
        g.entry == 0,
        g.decls@ =~= seq![VarType::Int, VarType::Int, VarType::Bool],
        g.blocks@.len() == 3,
        g.blocks@[0].statements@ =~= seq![
            (Statement { target: 1usize, rvalue: Rvalue::Use(Operand::Var(0usize)) }),
            (Statement {
                target: 2usize,
                rvalue: Rvalue::BinaryOp(
                    BinOp::Lt,
                    Operand::Var(1usize),
                    Operand::Const(Const::Int(0i64)),
                ),
            }),
        ],
        g.blocks@[0].terminator == (Terminator::Branch {
            discr: 2usize,
            false_target: 2usize,
            true_target: 1usize,
        }),
        g.blocks@[1].statements@ =~= Seq::<Statement>::empty(),
        g.blocks@[1].terminator == Terminator::Return,
        g.blocks@[2].statements@ =~= Seq::<Statement>::empty(),
        g.blocks@[2].terminator == Terminator::Return,
{
    let mut decls: Vec<VarType> = Vec::new();
    decls.push(VarType::Int);
    decls.push(VarType::Int);
    decls.push(VarType::Bool);
    let mut s0: Vec<Statement> = Vec::new();
    s0.push(Statement { target: 1, rvalue: Rvalue::Use(Operand::Var(0)) });
    s0.push(
        Statement {
            target: 2,
            rvalue: Rvalue::BinaryOp(BinOp::Lt, Operand::Var(1), Operand::Const(Const::Int(0))),
        },
    );
    let s1: Vec<Statement> = Vec::new();
    let s2: Vec<Statement> = Vec::new();
    let mut blocks: Vec<Block> = Vec::new();
    blocks.push(
        Block::new(s0, Terminator::Branch { discr: 2, false_target: 2, true_target: 1 }),
    );
    blocks.push(Block::new(s1, Terminator::Return));
    blocks.push(Block::new(s2, Terminator::Return));
    let g = FunctionGraph { blocks, decls, entry: 0 };
    proof {
        assert(g.decls@ =~= seq![VarType::Int, VarType::Int, VarType::Bool]);
        assert(g.blocks@[0].statements@ =~= seq![
            (Statement { target: 1usize, rvalue: Rvalue::Use(Operand::Var(0usize)) }),
            (Statement {
                target: 2usize,
                rvalue: Rvalue::BinaryOp(
                    BinOp::Lt,
                    Operand::Var(1usize),
                    Operand::Const(Const::Int(0i64)),
                ),
            }),
        ]);
        assert(g.blocks@[1].statements@ =~= Seq::<Statement>::empty());
        assert(g.blocks@[2].statements@ =~= Seq::<Statement>::empty());
        assert forall|b: int|
            0 <= b < g.blocks@.len() implies successors_in_range(
            (#[trigger] g.blocks@[b]).terminator,
            g.blocks@.len() as int,
        ) && branch_block_wf(g.blocks@[b]) by {
            if b == 0 {
                assert(g.blocks@[0].terminator.spec_successors() =~= seq![2usize, 1usize]);
                assert(g.blocks@[0].statements@.len() == 2);
                assert(g.blocks@[0].statements@.last().target == 2);
                assert(g.blocks@[0].statements@[0].target == 1);
            } else if b == 1 {
                assert(g.blocks@[1].terminator.spec_successors() =~= Seq::<usize>::empty());
            } else {
                assert(g.blocks@[2].terminator.spec_successors() =~= Seq::<usize>::empty());
            }
        }
    }
    g
}

} // verus!
