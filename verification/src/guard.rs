//! The guarded-selfdestruct rule: a call to `selfdestruct` or `suicide` in
//! a function body is flagged unless some earlier statement of the same
//! body called `require`. The guard state flows strictly forward over the
//! top-level statement list, is never reset mid-body, and starts unset for
//! every function; scanning a body stops at its first unprotected call.

use vstd::prelude::*;
use crate::ast::{Contract, ContractItem, Expr, Stmt, opt_name_view};
use crate::finding::{Finding, FindingModel, RuleKind};

verus! {

/// Whether an expression is a call whose callee is the bare identifier
/// `name`.
pub open spec fn is_call_to(e: Expr, name: Seq<char>) -> bool {
    e matches Expr::Call(callee, _) && *callee matches Expr::Ident(id) && id@ == name
}

/// Whether a statement is an expression statement calling the guard
/// function `require`.
pub open spec fn is_guard_stmt(s: Stmt) -> bool {
    s matches Stmt::Expr(e) && is_call_to(e, "require"@)
}

/// Whether a statement is an expression statement calling a destructive
/// function (`selfdestruct` or `suicide`).
pub open spec fn is_destructive_stmt(s: Stmt) -> bool {
    s matches Stmt::Expr(e) && (is_call_to(e, "selfdestruct"@) || is_call_to(e, "suicide"@))
}

/// Whether the statement sequence reaches a destructive call before any
/// guard call, starting from the given guard state: a destructive statement
/// fires while the state is unset, and a guard statement sets the state for
/// the statements after it.
pub open spec fn unprotected_from(ss: Seq<Stmt>, protected: bool) -> bool
    decreases ss.len(),
{
    if ss.len() == 0 {
        false
    } else if is_destructive_stmt(ss.first()) && !protected {
        true
    } else {
        unprotected_from(ss.drop_first(), protected || is_guard_stmt(ss.first()))
    }
}

/// Whether a function body contains an unprotected destructive call: no
/// guard has been seen when the body starts.
pub open spec fn has_unprotected_destructive_call(ss: Seq<Stmt>) -> bool {
    unprotected_from(ss, false)
}

/// The finding reported for a function holding an unprotected destructive
/// call.
pub open spec fn guard_finding(
    contract_name: Seq<char>,
    function_name: Option<Seq<char>>,
) -> FindingModel {
    FindingModel {
        rule: RuleKind::UnprotectedDestructiveCall,
        contract_name: contract_name,
        function_name: function_name,
        subject: None,
    }
}

/// The guard findings of one contract item: one finding for a function
/// whose body holds an unprotected destructive call, none otherwise.
pub open spec fn guard_findings_in_item(contract_name: Seq<char>, it: ContractItem) -> Seq<
    FindingModel,
> {
    match it {
        ContractItem::Function(f) => match f.body {
            Some(b) => if has_unprotected_destructive_call(b@) {
                seq![guard_finding(contract_name, opt_name_view(f.name))]
            } else {
                Seq::empty()
            },
            None => Seq::empty(),
        },
        _ => Seq::empty(),
    }
}

/// The guard findings of a whole contract, in item order.
pub open spec fn guard_findings(contract_name: Seq<char>, items: Seq<ContractItem>) -> Seq<
    FindingModel,
>
    decreases items.len(),
{
    if items.len() == 0 {
        Seq::empty()
    } else {
        guard_findings(contract_name, items.drop_last())
            + guard_findings_in_item(contract_name, items.last())
    }
}

/// Whether a statement is an expression statement calling `require`.
pub fn stmt_is_guard(s: &Stmt) -> (r: bool)
    ensures
        r == is_guard_stmt(*s),
{
    match s {
        Stmt::Expr(Expr::Call(callee, _)) => match &**callee {
            Expr::Ident(id) => id.eq(&"require".to_owned()),
            _ => false,
        },
        _ => false,
    }
}

/// Whether a statement is an expression statement calling `selfdestruct`
/// or `suicide`.
pub fn stmt_is_destructive(s: &Stmt) -> (r: bool)
    ensures
        r == is_destructive_stmt(*s),
{
    match s {
        Stmt::Expr(Expr::Call(callee, _)) => match &**callee {
            Expr::Ident(id) => id.eq(&"selfdestruct".to_owned()) || id.eq(&"suicide".to_owned()),
            _ => false,
        },
        _ => false,
    }
}

/// Whether a function body reaches a destructive call that no earlier
/// `require` call protects. Scanning runs front to back: a `require` seen
/// on the way sets the protection flag for everything after it, and the
/// first destructive call met while the flag is unset decides the result.
pub fn contains_unprotected_selfdestruct(statements: &Vec<Stmt>) -> (r: bool)
    ensures
        r == has_unprotected_destructive_call(statements@),
{
    let mut protection_found = false;
    let mut i: usize = 0;
    proof {
        assert(statements@.skip(0) =~= statements@);
    }
    while i < statements.len()
        invariant
            0 <= i <= statements@.len(),
            has_unprotected_destructive_call(statements@) == unprotected_from(
                statements@.skip(i as int),
                protection_found,
            ),
        decreases statements@.len() - i,
    {
        let ghost rest = statements@.skip(i as int);
        proof {
            assert(rest.first() == statements@[i as int]);
            assert(rest.drop_first() =~= statements@.skip(i as int + 1));
        }
        let destructive = stmt_is_destructive(&statements[i]);
        if destructive && !protection_found {
            return true;
        }
        if stmt_is_guard(&statements[i]) {
            protection_found = true;
        }
        i += 1;
    }
    proof {
        assert(statements@.skip(statements@.len() as int) =~= Seq::<Stmt>::empty());
    }
    false
}

/// Emits one `UnprotectedDestructiveCall` finding per function whose body
/// holds a destructive call that no earlier `require` protects, in item
/// order.
pub fn detect_unprotected_selfdestruct(c: &Contract) -> (r: Vec<Finding>)
    ensures
        r.deep_view() == guard_findings(c.name@, c.items@),
{
    let mut findings: Vec<Finding> = Vec::new();
    let mut i: usize = 0;
    proof {
        assert(c.items@.take(0) =~= Seq::<ContractItem>::empty());
        assert(findings.deep_view() =~= guard_findings(c.name@, c.items@.take(0)));
    }
    while i < c.items.len()
        invariant
            0 <= i <= c.items@.len(),
            findings.deep_view() == guard_findings(c.name@, c.items@.take(i as int)),
        decreases c.items@.len() - i,
    {
        let ghost pre = c.items@.take(i as int);
        let ghost post = c.items@.take(i as int + 1);
        proof {
            assert(post.drop_last() =~= pre);
            assert(post.last() == c.items@[i as int]);
        }
        match &c.items[i] {
            ContractItem::Function(f) => {
                if let Some(body) = &f.body {
                    if contains_unprotected_selfdestruct(body) {
                        let f_name = match &f.name {
                            Some(n) => Some(n.clone()),
                            None => None,
                        };
                        let finding = Finding {
                            rule: RuleKind::UnprotectedDestructiveCall,
                            contract_name: c.name.clone(),
                            function_name: f_name,
                            subject: None,
                        };
                        let ghost old_findings = findings.deep_view();
                        findings.push(finding);
                        proof {
                            assert(findings.deep_view() =~= old_findings.push(
                                guard_finding(c.name@, opt_name_view(f.name)),
                            ));
                        }
                    }
                    proof {
                        assert(findings.deep_view() =~= guard_findings(c.name@, pre)
                            + guard_findings_in_item(c.name@, post.last()));
                    }
                } else {
                    proof {
                        assert(findings.deep_view() =~= guard_findings(c.name@, pre)
                            + guard_findings_in_item(c.name@, post.last()));
                    }
                }
            }
            _ => {
                proof {
                    assert(findings.deep_view() =~= guard_findings(c.name@, pre)
                        + guard_findings_in_item(c.name@, post.last()));
                }
            }
        }
        i += 1;
    }
    proof {
        assert(c.items@.take(c.items@.len() as int) =~= c.items@);
    }
    findings
}

} // verus!
