use sign_analysis::cfg::{BinOp, Operand, Rvalue};
use sign_analysis::driver::{analyze, states_before, Analysis};
use sign_analysis::examples::{
    alias_example, test_fn, test_fn2, test_fn3, test_fn5, test_fn6, test_fn7,
};
use sign_analysis::lattice::SignAnalysis;
use sign_analysis::order::reverse_post_order;
use sign_analysis::state::{AbsState, EquivMap};

#[test]
fn unguarded_index_is_possibly_unsafe() {
    // no guard at all: at the use site x may hold any sign, so a consumer
    // reports a possible, not definite, error
    let g = test_fn();
    let result = analyze(g);
    assert_eq!(result[1].get(0), Some(SignAnalysis::Top));
}

#[test]
fn assert_negative_makes_index_definitely_unsafe() {
    // assert!(x < 0) then index at x: at the use site x is exactly Lower,
    // so a consumer reports a definite error
    let g = test_fn2();
    let result = analyze(g);
    assert_eq!(result[1].get(0), Some(SignAnalysis::Lower));
    // on the assertion-failure edge the opposite holds
    assert_eq!(result[2].get(0), Some(SignAnalysis::GreaterEqual));
}

#[test]
fn assert_non_negative_makes_index_safe() {
    let g = test_fn3();
    let result = analyze(g);
    assert_eq!(result[1].get(0), Some(SignAnalysis::GreaterEqual));
}

#[test]
fn nested_guards_make_product_non_negative() {
    // if x <= 0 { if y <= 0 { idx = x * y } }: in the innermost block both
    // guards have fired, so x and y are LowerEqual, and the product of two
    // non-positive values is GreaterEqual — a consumer must not flag idx
    let g = test_fn5();
    let result = analyze(g);
    assert_eq!(result[2].get(0), Some(SignAnalysis::LowerEqual));
    assert_eq!(result[2].get(1), Some(SignAnalysis::LowerEqual));
    let mut equiv = EquivMap::new();
    let after_product = result[2].flow_assign(
        4,
        &Rvalue::BinaryOp(BinOp::Mul, Operand::Var(0), Operand::Var(1)),
        &mut equiv,
    );
    assert_eq!(after_product.get(4), Some(SignAnalysis::GreaterEqual));
}

#[test]
fn loop_that_raises_x_terminates_and_bounds_it() {
    // while x < 0 { x += 4 }: the graph has a back edge, the worklist still
    // empties, and after the loop x is GreaterEqual
    let g = test_fn6();
    let result = analyze(g);
    assert_eq!(result[3].get(0), Some(SignAnalysis::GreaterEqual));
    // at the loop head nothing is known about x
    assert_eq!(result[1].get(0), Some(SignAnalysis::Top));
}

#[test]
fn loop_that_shifts_values_loses_track_of_y() {
    // while x < 0 { x += 1; y = z; z -= 1 }: y takes z's value, which decays
    // to Top around the loop, so indexing at y stays possibly unsafe
    let g = test_fn7();
    let result = analyze(g);
    assert_eq!(result[3].get(0), Some(SignAnalysis::GreaterEqual));
    assert_eq!(result[3].get(1), Some(SignAnalysis::Top));
    assert_eq!(result[3].get(2), Some(SignAnalysis::Top));
}

#[test]
fn alias_refinement_reaches_the_copied_variable() {
    // y = x; if y < 0 { .. }: the direct copy links y and x, so the branch
    // refinement on y reaches x too
    let g = alias_example();
    let result = analyze(g);
    assert_eq!(result[1].get(0), Some(SignAnalysis::Lower));
    assert_eq!(result[1].get(1), Some(SignAnalysis::Lower));
    assert_eq!(result[2].get(0), Some(SignAnalysis::GreaterEqual));
    assert_eq!(result[2].get(1), Some(SignAnalysis::GreaterEqual));
}

#[test]
fn entry_state_stays_top() {
    let g = test_fn6();
    let result = analyze(g);
    assert_eq!(result[0].get(0), Some(SignAnalysis::Top));
    assert_eq!(result[0].get(1), None);
}

#[test]
fn driver_empties_its_worklist() {
    let mut a = Analysis::new(test_fn7());
    a.run();
    assert_eq!(a.worklist.len(), 0);
    assert_eq!(a.input.len(), 4);
    assert_eq!(a.input[3].get(1), Some(SignAnalysis::Top));
}

#[test]
fn replay_shows_the_state_before_each_statement() {
    // block 0 of test_fn7 assigns z = 2 and then y = 2; the replayed states
    // hold what a diagnostic consumer would see before each statement
    let g = test_fn7();
    let entry = AbsState::top(&g.decls);
    let pre_states = states_before(&g, 0, &entry);
    assert_eq!(pre_states.len(), 2);
    assert_eq!(pre_states[0].get(1), Some(SignAnalysis::Top));
    assert_eq!(pre_states[0].get(2), Some(SignAnalysis::Top));
    assert_eq!(pre_states[1].get(2), Some(SignAnalysis::Greater));
    assert_eq!(pre_states[1].get(1), Some(SignAnalysis::Top));
}

#[test]
fn post_order_numbers_successors_before_their_parents() {
    // in the loop graph of test_fn6 the exit gets the lowest index and the
    // entry the highest, so the driver prefers forward progress
    let g = test_fn6();
    let mut order: Vec<usize> = vec![0; 4];
    let mut visited: Vec<bool> = vec![false; 4];
    let mut idx: usize = 0;
    reverse_post_order(&g.blocks, g.entry, &mut order, &mut visited, &mut idx);
    assert_eq!(idx, 4);
    assert_eq!(order, vec![3, 2, 1, 0]);
    assert_eq!(visited, vec![true, true, true, true]);
}
