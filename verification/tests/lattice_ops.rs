use sign_analysis::cfg::{BinOp, Const, UnOp, VarType};
use sign_analysis::lattice::SignAnalysis as S7;
use sign_analysis::lattice2::SignAnalysis as S5;

fn all7() -> [S7; 7] {
    [
        S7::Top,
        S7::Bottom,
        S7::Lower,
        S7::LowerEqual,
        S7::Zero,
        S7::Greater,
        S7::GreaterEqual,
    ]
}

fn all5() -> [S5; 5] {
    [S5::Top, S5::Bottom, S5::Lower, S5::Zero, S5::Greater]
}

#[test]
fn applies_selects_integers() {
    assert!(S7::applies(&VarType::Int));
    assert!(!S7::applies(&VarType::Bool));
    assert!(!S7::applies(&VarType::Other));
    assert!(S5::applies(&VarType::Int));
    assert!(!S5::applies(&VarType::Bool));
}

#[test]
fn bottom_and_top_elements() {
    assert_eq!(S7::bot(), S7::Bottom);
    assert_eq!(S7::top(), S7::Top);
    assert_eq!(S5::bot(), S5::Bottom);
    assert_eq!(S5::top(), S5::Top);
}

#[test]
fn abstract_constant_signs() {
    assert_eq!(S7::alpha(Const::Int(-5)), S7::Lower);
    assert_eq!(S7::alpha(Const::Int(0)), S7::Zero);
    assert_eq!(S7::alpha(Const::Int(7)), S7::Greater);
    assert_eq!(S7::alpha(Const::Other), S7::Top);
    assert_eq!(S5::alpha(Const::Int(-5)), S5::Lower);
    assert_eq!(S5::alpha(Const::Int(0)), S5::Zero);
    assert_eq!(S5::alpha(Const::Int(7)), S5::Greater);
    assert_eq!(S5::alpha(Const::Other), S5::Top);
}

#[test]
fn join_is_commutative_both_domains() {
    for &a in all7().iter() {
        for &b in all7().iter() {
            assert_eq!(S7::join(&a, &b), S7::join(&b, &a));
        }
    }
    for &a in all5().iter() {
        for &b in all5().iter() {
            assert_eq!(S5::join(&a, &b), S5::join(&b, &a));
        }
    }
}

#[test]
fn join_is_associative_both_domains() {
    for &a in all7().iter() {
        for &b in all7().iter() {
            for &c in all7().iter() {
                assert_eq!(
                    S7::join(&S7::join(&a, &b), &c),
                    S7::join(&a, &S7::join(&b, &c))
                );
            }
        }
    }
    for &a in all5().iter() {
        for &b in all5().iter() {
            for &c in all5().iter() {
                assert_eq!(
                    S5::join(&S5::join(&a, &b), &c),
                    S5::join(&a, &S5::join(&b, &c))
                );
            }
        }
    }
}

#[test]
fn join_is_idempotent_both_domains() {
    for &a in all7().iter() {
        assert_eq!(S7::join(&a, &a), a);
    }
    for &a in all5().iter() {
        assert_eq!(S5::join(&a, &a), a);
    }
}

#[test]
fn join_is_monotone_both_domains() {
    // a lies at or below join(a, b): joining a into the join adds nothing.
    for &a in all7().iter() {
        for &b in all7().iter() {
            let j = S7::join(&a, &b);
            assert_eq!(S7::join(&a, &j), j);
            assert_eq!(S7::join(&b, &j), j);
        }
    }
    for &a in all5().iter() {
        for &b in all5().iter() {
            let j = S5::join(&a, &b);
            assert_eq!(S5::join(&a, &j), j);
            assert_eq!(S5::join(&b, &j), j);
        }
    }
}

#[test]
fn join_table_values() {
    assert_eq!(S7::join(&S7::Greater, &S7::GreaterEqual), S7::GreaterEqual);
    assert_eq!(S7::join(&S7::Zero, &S7::GreaterEqual), S7::GreaterEqual);
    assert_eq!(S7::join(&S7::Zero, &S7::Greater), S7::GreaterEqual);
    assert_eq!(S7::join(&S7::Lower, &S7::LowerEqual), S7::LowerEqual);
    assert_eq!(S7::join(&S7::Zero, &S7::Lower), S7::LowerEqual);
    assert_eq!(S7::join(&S7::Bottom, &S7::Lower), S7::Lower);
    assert_eq!(S7::join(&S7::Top, &S7::Zero), S7::Top);
    assert_eq!(S7::join(&S7::Greater, &S7::Lower), S7::Top);
    // the five-valued domain loses everything on distinct signs
    assert_eq!(S5::join(&S5::Zero, &S5::Greater), S5::Top);
    assert_eq!(S5::join(&S5::Bottom, &S5::Lower), S5::Lower);
}

#[test]
fn transfer_binary_values() {
    assert_eq!(
        S7::flow_binop(&BinOp::Add, &S7::Greater, &S7::Zero),
        S7::Greater
    );
    assert_eq!(
        S7::flow_binop(&BinOp::Mul, &S7::Lower, &S7::Lower),
        S7::Greater
    );
    assert_eq!(S7::flow_binop(&BinOp::Div, &S7::Zero, &S7::Lower), S7::Zero);
    assert_eq!(S7::flow_binop(&BinOp::Rem, &S7::Lower, &S7::Greater), S7::Lower);
    assert_eq!(
        S5::flow_binop(&BinOp::Add, &S5::Greater, &S5::Zero),
        S5::Greater
    );
    assert_eq!(
        S5::flow_binop(&BinOp::Mul, &S5::Lower, &S5::Lower),
        S5::Greater
    );
    assert_eq!(S5::flow_binop(&BinOp::Div, &S5::Zero, &S5::Lower), S5::Zero);
    assert_eq!(S5::flow_binop(&BinOp::Rem, &S5::Lower, &S5::Greater), S5::Lower);
}

#[test]
fn transfer_binary_widened_values() {
    assert_eq!(
        S7::flow_binop(&BinOp::Add, &S7::GreaterEqual, &S7::Greater),
        S7::Greater
    );
    assert_eq!(
        S7::flow_binop(&BinOp::Add, &S7::GreaterEqual, &S7::GreaterEqual),
        S7::GreaterEqual
    );
    assert_eq!(S7::flow_binop(&BinOp::Add, &S7::Zero, &S7::Zero), S7::Zero);
    assert_eq!(
        S7::flow_binop(&BinOp::Add, &S7::Greater, &S7::Lower),
        S7::Top
    );
    assert_eq!(
        S7::flow_binop(&BinOp::Sub, &S7::Greater, &S7::Lower),
        S7::Greater
    );
    assert_eq!(
        S7::flow_binop(&BinOp::Sub, &S7::LowerEqual, &S7::GreaterEqual),
        S7::LowerEqual
    );
    // the product of two non-positive operands is non-negative
    assert_eq!(
        S7::flow_binop(&BinOp::Mul, &S7::LowerEqual, &S7::LowerEqual),
        S7::GreaterEqual
    );
    assert_eq!(
        S7::flow_binop(&BinOp::Mul, &S7::GreaterEqual, &S7::Greater),
        S7::GreaterEqual
    );
    assert_eq!(S7::flow_binop(&BinOp::Mul, &S7::Zero, &S7::Top), S7::Zero);
    assert_eq!(S7::flow_binop(&BinOp::Div, &S7::Greater, &S7::Greater), S7::Top);
    // an operator without a transfer rule flows to Top
    assert_eq!(S7::flow_binop(&BinOp::Other, &S7::Zero, &S7::Zero), S7::Top);
}

#[test]
fn transfer_unary_values() {
    assert_eq!(S7::flow_unop(&UnOp::Neg, &S7::Zero), S7::Zero);
    assert_eq!(S7::flow_unop(&UnOp::Neg, &S7::Greater), S7::Lower);
    assert_eq!(S7::flow_unop(&UnOp::Neg, &S7::Lower), S7::Greater);
    assert_eq!(S7::flow_unop(&UnOp::Neg, &S7::GreaterEqual), S7::LowerEqual);
    assert_eq!(S7::flow_unop(&UnOp::Neg, &S7::LowerEqual), S7::GreaterEqual);
    assert_eq!(S7::flow_unop(&UnOp::Neg, &S7::Top), S7::Top);
    assert_eq!(S7::flow_unop(&UnOp::Not, &S7::Greater), S7::Top);
    assert_eq!(S5::flow_unop(&UnOp::Neg, &S5::Greater), S5::Lower);
}

#[test]
fn refine_on_true_and_false_values() {
    assert_eq!(
        S7::flow_cond_true(&BinOp::Lt, &S7::Top, &S7::Zero),
        (S7::Lower, S7::Zero)
    );
    assert_eq!(
        S7::flow_cond_false(&BinOp::Lt, &S7::Top, &S7::Zero),
        (S7::GreaterEqual, S7::Zero)
    );
    assert_eq!(
        S7::flow_cond_true(&BinOp::Le, &S7::Top, &S7::Zero),
        (S7::LowerEqual, S7::Zero)
    );
    assert_eq!(
        S7::flow_cond_true(&BinOp::Ge, &S7::Top, &S7::Zero),
        (S7::GreaterEqual, S7::Zero)
    );
    assert_eq!(
        S7::flow_cond_true(&BinOp::Gt, &S7::Top, &S7::Zero),
        (S7::Greater, S7::Zero)
    );
    assert_eq!(
        S7::flow_cond_true(&BinOp::Eq, &S7::Top, &S7::Greater),
        (S7::Greater, S7::Greater)
    );
    assert_eq!(
        S7::flow_cond_true(&BinOp::Eq, &S7::GreaterEqual, &S7::Zero),
        (S7::Zero, S7::Zero)
    );
    // an unmatched pattern passes through unchanged
    assert_eq!(
        S7::flow_cond_true(&BinOp::Lt, &S7::Greater, &S7::Zero),
        (S7::Greater, S7::Zero)
    );
    assert_eq!(
        S5::flow_cond_true(&BinOp::Lt, &S5::Top, &S5::Zero),
        (S5::Lower, S5::Zero)
    );
    assert_eq!(
        S5::flow_cond_false(&BinOp::Lt, &S5::Top, &S5::Zero),
        (S5::Top, S5::Zero)
    );
}

#[test]
fn refine_on_false_is_negated_refine_on_true() {
    for &a in all7().iter() {
        for &b in all7().iter() {
            assert_eq!(
                S7::flow_cond_false(&BinOp::Lt, &a, &b),
                S7::flow_cond_true(&BinOp::Ge, &a, &b)
            );
            assert_eq!(
                S7::flow_cond_false(&BinOp::Le, &a, &b),
                S7::flow_cond_true(&BinOp::Gt, &a, &b)
            );
            assert_eq!(
                S7::flow_cond_false(&BinOp::Ge, &a, &b),
                S7::flow_cond_true(&BinOp::Lt, &a, &b)
            );
            assert_eq!(
                S7::flow_cond_false(&BinOp::Gt, &a, &b),
                S7::flow_cond_true(&BinOp::Le, &a, &b)
            );
            assert_eq!(
                S7::flow_cond_false(&BinOp::Eq, &a, &b),
                S7::flow_cond_true(&BinOp::Ne, &a, &b)
            );
        }
    }
    for &a in all5().iter() {
        for &b in all5().iter() {
            assert_eq!(
                S5::flow_cond_false(&BinOp::Lt, &a, &b),
                S5::flow_cond_true(&BinOp::Ge, &a, &b)
            );
            assert_eq!(
                S5::flow_cond_false(&BinOp::Gt, &a, &b),
                S5::flow_cond_true(&BinOp::Le, &a, &b)
            );
        }
    }
}
