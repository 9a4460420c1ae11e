use sign_analysis::cfg::{BinOp, Const, Operand, Rvalue, VarType};
use sign_analysis::lattice::SignAnalysis;
use sign_analysis::state::{AbsState, EquivMap};

fn int_int_bool() -> Vec<VarType> {
    vec![VarType::Int, VarType::Int, VarType::Bool]
}

#[test]
fn bottom_and_top_states_track_integers_only() {
    let decls = int_int_bool();
    let bot = AbsState::bot(&decls);
    assert_eq!(bot.len(), 3);
    assert_eq!(bot.get(0), Some(SignAnalysis::Bottom));
    assert_eq!(bot.get(1), Some(SignAnalysis::Bottom));
    assert_eq!(bot.get(2), None);
    assert_eq!(bot.get(9), None);
    let top = AbsState::top(&decls);
    assert_eq!(top.get(0), Some(SignAnalysis::Top));
    assert_eq!(top.get(2), None);
}

#[test]
fn state_join_is_pointwise() {
    let decls = int_int_bool();
    let mut equiv = EquivMap::new();
    let top = AbsState::top(&decls);
    let a = top
        .flow_assign(0, &Rvalue::Use(Operand::Const(Const::Int(3))), &mut equiv)
        .flow_assign(1, &Rvalue::Use(Operand::Const(Const::Int(0))), &mut equiv);
    let b = top
        .flow_assign(0, &Rvalue::Use(Operand::Const(Const::Int(5))), &mut equiv)
        .flow_assign(1, &Rvalue::Use(Operand::Const(Const::Int(-1))), &mut equiv);
    let j = AbsState::join(&a, &b);
    assert_eq!(j.get(0), Some(SignAnalysis::Greater));
    assert_eq!(j.get(1), Some(SignAnalysis::LowerEqual));
    assert_eq!(j.get(2), None);
}

#[test]
fn assign_constant_and_expression() {
    let decls = int_int_bool();
    let mut equiv = EquivMap::new();
    let s = AbsState::top(&decls);
    let s = s.flow_assign(0, &Rvalue::Use(Operand::Const(Const::Int(-7))), &mut equiv);
    assert_eq!(s.get(0), Some(SignAnalysis::Lower));
    let s = s.flow_assign(
        1,
        &Rvalue::BinaryOp(BinOp::Mul, Operand::Var(0), Operand::Var(0)),
        &mut equiv,
    );
    assert_eq!(s.get(1), Some(SignAnalysis::Greater));
    // no pairs were recorded: neither assignment was a direct variable copy
    assert_eq!(equiv.pairs.len(), 0);
}

#[test]
fn assign_to_untracked_target_changes_nothing() {
    let decls = int_int_bool();
    let mut equiv = EquivMap::new();
    let s = AbsState::top(&decls);
    let s2 = s.flow_assign(2, &Rvalue::Use(Operand::Const(Const::Int(1))), &mut equiv);
    assert_eq!(s2.get(0), Some(SignAnalysis::Top));
    assert_eq!(s2.get(2), None);
    assert_eq!(equiv.pairs.len(), 0);
    let s3 = s.flow_assign(17, &Rvalue::Use(Operand::Const(Const::Int(1))), &mut equiv);
    assert_eq!(s3.get(0), Some(SignAnalysis::Top));
}

#[test]
fn untracked_operand_reads_as_top() {
    let decls = int_int_bool();
    let mut equiv = EquivMap::new();
    let s = AbsState::top(&decls)
        .flow_assign(1, &Rvalue::Use(Operand::Const(Const::Int(2))), &mut equiv);
    // variable 2 is boolean-typed, so reading it yields Top
    let s2 = s.flow_assign(
        0,
        &Rvalue::BinaryOp(BinOp::Add, Operand::Var(2), Operand::Var(1)),
        &mut equiv,
    );
    assert_eq!(s2.get(0), Some(SignAnalysis::Top));
}

#[test]
fn unrecognized_rvalue_is_top() {
    let decls = int_int_bool();
    let mut equiv = EquivMap::new();
    let s = AbsState::bot(&decls).flow_assign(0, &Rvalue::Other, &mut equiv);
    assert_eq!(s.get(0), Some(SignAnalysis::Top));
}

#[test]
fn direct_copy_records_equivalence_both_ways() {
    let decls = int_int_bool();
    let mut equiv = EquivMap::new();
    let s = AbsState::top(&decls);
    let s = s.flow_assign(1, &Rvalue::Use(Operand::Var(0)), &mut equiv);
    assert_eq!(s.get(1), Some(SignAnalysis::Top));
    assert_eq!(equiv.pairs.len(), 2);
    assert_eq!(equiv.pairs[0], (1, 0));
    assert_eq!(equiv.pairs[1], (0, 1));
}

#[test]
fn branch_refines_operand_and_aliases() {
    // y = x; if y < 0 { .. } — inside the true branch both y and x are Lower
    let decls = int_int_bool();
    let mut equiv = EquivMap::new();
    let s = AbsState::top(&decls).flow_assign(1, &Rvalue::Use(Operand::Var(0)), &mut equiv);
    let (false_state, true_state) = s.flow_branch(
        &Rvalue::BinaryOp(BinOp::Lt, Operand::Var(1), Operand::Const(Const::Int(0))),
        &equiv,
    );
    assert_eq!(true_state.get(1), Some(SignAnalysis::Lower));
    assert_eq!(true_state.get(0), Some(SignAnalysis::Lower));
    assert_eq!(false_state.get(1), Some(SignAnalysis::GreaterEqual));
    assert_eq!(false_state.get(0), Some(SignAnalysis::GreaterEqual));
}

#[test]
fn branch_without_tracked_operand_passes_through() {
    let decls = int_int_bool();
    let equiv = EquivMap::new();
    let s = AbsState::top(&decls);
    let (false_state, true_state) = s.flow_branch(
        &Rvalue::BinaryOp(
            BinOp::Lt,
            Operand::Const(Const::Int(1)),
            Operand::Const(Const::Int(2)),
        ),
        &equiv,
    );
    assert_eq!(false_state.get(0), Some(SignAnalysis::Top));
    assert_eq!(true_state.get(0), Some(SignAnalysis::Top));
    let (f2, t2) = s.flow_branch(&Rvalue::Other, &equiv);
    assert_eq!(f2.get(0), Some(SignAnalysis::Top));
    assert_eq!(t2.get(0), Some(SignAnalysis::Top));
}

#[test]
fn call_transfer_sets_destination_to_top() {
    let decls = int_int_bool();
    let mut equiv = EquivMap::new();
    let s = AbsState::top(&decls)
        .flow_assign(0, &Rvalue::Use(Operand::Const(Const::Int(-3))), &mut equiv);
    assert_eq!(s.get(0), Some(SignAnalysis::Lower));
    let after = s.flow_function_call(0);
    assert_eq!(after.get(0), Some(SignAnalysis::Top));
    // an untracked destination changes nothing
    let same = s.flow_function_call(2);
    assert_eq!(same.get(0), Some(SignAnalysis::Lower));
}

#[test]
fn state_equality_compares_slots() {
    let decls = int_int_bool();
    let mut equiv = EquivMap::new();
    let top = AbsState::top(&decls);
    let other = AbsState::top(&decls);
    assert!(top.state_eq(&other));
    let changed = top.flow_assign(0, &Rvalue::Use(Operand::Const(Const::Int(1))), &mut equiv);
    assert!(!top.state_eq(&changed));
    assert!(changed.state_eq(&changed.clone_state()));
}
