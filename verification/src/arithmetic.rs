//! The arithmetic-order rule: a division whose right-hand operand is itself
//! a multiplication risks integer-precision loss, because the truncating
//! division would feed the multiplication. The match is deliberately
//! narrow and syntactic — one binary node directly inside another — not a
//! data-flow analysis.

use vstd::prelude::*;
use crate::ast::{BinOpKind, Contract, ContractItem, Expr, Stmt, opt_name_view};
use crate::finding::{Finding, FindingModel, RuleKind};

verus! {

/// Whether an expression is a binary multiplication node.
pub open spec fn is_mul_binary(e: Expr) -> bool {
    e matches Expr::Binary(_, BinOpKind::Mul, _)
}

/// Whether an expression is a division whose right operand is a
/// multiplication.
pub open spec fn div_before_mul(e: Expr) -> bool {
    e matches Expr::Binary(_, BinOpKind::Div, right) && is_mul_binary(*right)
}

/// Whether a statement is an expression statement carrying the flagged
/// division pattern.
pub open spec fn stmt_has_div_before_mul(s: Stmt) -> bool {
    s matches Stmt::Expr(e) && div_before_mul(e)
}

/// The finding reported for one flagged division inside a function.
pub open spec fn arith_finding(
    contract_name: Seq<char>,
    function_name: Option<Seq<char>>,
) -> FindingModel {
    FindingModel {
        rule: RuleKind::UnsafeDivisionBeforeMultiplication,
        contract_name: contract_name,
        function_name: function_name,
        subject: None,
    }
}

/// The arithmetic findings of one statement sequence: one per statement
/// carrying the pattern, in statement order.
pub open spec fn arith_findings_in_stmts(
    contract_name: Seq<char>,
    function_name: Option<Seq<char>>,
    ss: Seq<Stmt>,
) -> Seq<FindingModel>
    decreases ss.len(),
{
    if ss.len() == 0 {
        Seq::empty()
    } else {
        let prefix = arith_findings_in_stmts(contract_name, function_name, ss.drop_last());
        if stmt_has_div_before_mul(ss.last()) {
            prefix.push(arith_finding(contract_name, function_name))
        } else {
            prefix
        }
    }
}

/// The arithmetic findings of one contract item: a function with a body
/// contributes its statements' findings, everything else contributes none.
pub open spec fn arith_findings_in_item(contract_name: Seq<char>, it: ContractItem) -> Seq<
    FindingModel,
> {
    match it {
        ContractItem::Function(f) => match f.body {
            Some(b) => arith_findings_in_stmts(contract_name, opt_name_view(f.name), b@),
            None => Seq::empty(),
        },
        _ => Seq::empty(),
    }
}

/// The arithmetic findings of a whole contract, in item order.
pub open spec fn arith_findings(contract_name: Seq<char>, items: Seq<ContractItem>) -> Seq<
    FindingModel,
>
    decreases items.len(),
{
    if items.len() == 0 {
        Seq::empty()
    } else {
        arith_findings(contract_name, items.drop_last())
            + arith_findings_in_item(contract_name, items.last())
    }
}

/// Whether an expression is a binary multiplication node.
pub fn check_for_multiplication(expr: &Expr) -> (r: bool)
    ensures
        r == is_mul_binary(*expr),
{
    matches!(expr, Expr::Binary(_, BinOpKind::Mul, _))
}

/// Whether an expression is a division whose right operand is a
/// multiplication.
pub fn contains_div_before_mul(expr: &Expr) -> (r: bool)
    ensures
        r == div_before_mul(*expr),
{
    match expr {
        Expr::Binary(_, BinOpKind::Div, right) => check_for_multiplication(right),
        _ => false,
    }
}

/// Whether a statement is an expression statement carrying the flagged
/// division pattern.
pub fn check_unsafe_arithmetic(stmt: &Stmt) -> (r: bool)
    ensures
        r == stmt_has_div_before_mul(*stmt),
{
    match stmt {
        Stmt::Expr(expr) => contains_div_before_mul(expr),
        _ => false,
    }
}

/// Emits one `UnsafeDivisionBeforeMultiplication` finding per flagged
/// statement in the contract's function bodies, in statement order.
pub fn detect_unsafe_arithmetic(c: &Contract) -> (r: Vec<Finding>)
    ensures
        r.deep_view() == arith_findings(c.name@, c.items@),
{
    let mut findings: Vec<Finding> = Vec::new();
    let mut i: usize = 0;
    proof {
        assert(c.items@.take(0) =~= Seq::<ContractItem>::empty());
        assert(findings.deep_view() =~= arith_findings(c.name@, c.items@.take(0)));
    }
    while i < c.items.len()
        invariant
            0 <= i <= c.items@.len(),
            findings.deep_view() == arith_findings(c.name@, c.items@.take(i as int)),
        decreases c.items@.len() - i,
    {
        let ghost pre = c.items@.take(i as int);
        let ghost post = c.items@.take(i as int + 1);
        proof {
            assert(post.drop_last() =~= pre);
            assert(post.last() == c.items@[i as int]);
        }
        match &c.items[i] {
            ContractItem::Function(f) => {
                if let Some(body) = &f.body {
                    let mut j: usize = 0;
                    proof {
                        assert(body@.take(0) =~= Seq::<Stmt>::empty());
                        assert(findings.deep_view() =~= arith_findings(c.name@, pre)
                            + arith_findings_in_stmts(c.name@, opt_name_view(f.name), body@.take(0)));
                    }
                    while j < body.len()
                        invariant
                            0 <= j <= body@.len(),
                            findings.deep_view() == arith_findings(c.name@, pre)
                                + arith_findings_in_stmts(
                                c.name@,
                                opt_name_view(f.name),
                                body@.take(j as int),
                            ),
                        decreases body@.len() - j,
                    {
                        let ghost spre = body@.take(j as int);
                        let ghost spost = body@.take(j as int + 1);
                        proof {
                            assert(spost.drop_last() =~= spre);
                            assert(spost.last() == body@[j as int]);
                        }
                        if check_unsafe_arithmetic(&body[j]) {
                            let f_name = match &f.name {
                                Some(n) => Some(n.clone()),
                                None => None,
                            };
                            let finding = Finding {
                                rule: RuleKind::UnsafeDivisionBeforeMultiplication,
                                contract_name: c.name.clone(),
                                function_name: f_name,
                                subject: None,
                            };
                            let ghost old_findings = findings.deep_view();
                            findings.push(finding);
                            proof {
                                assert(findings.deep_view() =~= old_findings.push(
                                    arith_finding(c.name@, opt_name_view(f.name)),
                                ));
                            }
                        }
                        proof {
                            assert(findings.deep_view() =~= arith_findings(c.name@, pre)
                                + arith_findings_in_stmts(c.name@, opt_name_view(f.name), spost));
                        }
                        j += 1;
                    }
                    proof {
                        assert(body@.take(body@.len() as int) =~= body@);
                        assert(findings.deep_view() =~= arith_findings(c.name@, pre)
                            + arith_findings_in_item(c.name@, post.last()));
                    }
                } else {
                    proof {
                        assert(findings.deep_view() =~= arith_findings(c.name@, pre)
                            + arith_findings_in_item(c.name@, post.last()));
                    }
                }
            }
            _ => {
                proof {
                    assert(findings.deep_view() =~= arith_findings(c.name@, pre)
                        + arith_findings_in_item(c.name@, post.last()));
                }
            }
        }
        i += 1;
    }
    proof {
        assert(c.items@.take(c.items@.len() as int) =~= c.items@);
    }
    findings
}

} // verus!
