//! The per-file entry point: every detector runs over every contract of a
//! source unit, and the findings come back as one ordered sequence —
//! contracts in source order, and within a contract the unused-variable
//! findings, then the arithmetic findings, then the guard findings.

use vstd::prelude::*;
use crate::arithmetic::{arith_findings, detect_unsafe_arithmetic};
use crate::ast::{Contract, Item, SourceUnit};
use crate::finding::{Finding, FindingModel};
use crate::guard::{detect_unprotected_selfdestruct, guard_findings};
use crate::symbols::{
    collect_declared_variables, collect_used_variables_in_contract, declared_names, dedup,
    used_names,
};
use crate::unused::{detect_unused_variables, unused_findings};

verus! {

/// Every finding of one contract: the unused-variable findings, then the
/// arithmetic findings, then the guard findings.
pub open spec fn contract_findings(c: Contract) -> Seq<FindingModel> {
    unused_findings(c.name@, dedup(declared_names(c.items@)), used_names(c.items@))
        + arith_findings(c.name@, c.items@) + guard_findings(c.name@, c.items@)
}

/// The findings of one top-level item: a contract's findings, or none.
pub open spec fn item_findings(it: Item) -> Seq<FindingModel> {
    match it {
        Item::Contract(c) => contract_findings(c),
        _ => Seq::empty(),
    }
}

/// The findings of a sequence of top-level items, in source order.
pub open spec fn findings_in_items(items: Seq<Item>) -> Seq<FindingModel>
    decreases items.len(),
{
    if items.len() == 0 {
        Seq::empty()
    } else {
        findings_in_items(items.drop_last()) + item_findings(items.last())
    }
}

/// Every finding of a source unit.
pub open spec fn unit_findings(u: SourceUnit) -> Seq<FindingModel> {
    findings_in_items(u.items@)
}

/// Runs every detector over one contract and returns its findings in the
/// order `contract_findings` fixes.
pub fn analyze_one_contract(c: &Contract) -> (r: Vec<Finding>)
    ensures
        r.deep_view() == contract_findings(*c),
{
    let declared_variables = collect_declared_variables(c);
    let used_variables = collect_used_variables_in_contract(c);
    let mut findings = detect_unused_variables(&c.name, &declared_variables, &used_variables);
    let mut arith = detect_unsafe_arithmetic(c);
    let mut guarded = detect_unprotected_selfdestruct(c);
    let ghost unused_part = findings.deep_view();
    let ghost arith_part = arith.deep_view();
    let ghost guard_part = guarded.deep_view();
    findings.append(&mut arith);
    proof {
        assert(findings.deep_view() =~= unused_part + arith_part);
    }
    findings.append(&mut guarded);
    proof {
        assert(findings.deep_view() =~= unused_part + arith_part + guard_part);
    }
    findings
}

/// Runs every detector over every contract of a source unit and returns
/// the findings in source order.
pub fn analyze_contract(parsed_ast: &SourceUnit) -> (r: Vec<Finding>)
    ensures
        r.deep_view() == unit_findings(*parsed_ast),
{
    let mut findings: Vec<Finding> = Vec::new();
    let mut i: usize = 0;
    proof {
        assert(parsed_ast.items@.take(0) =~= Seq::<Item>::empty());
        assert(findings.deep_view() =~= findings_in_items(parsed_ast.items@.take(0)));
    }
    while i < parsed_ast.items.len()
        invariant
            0 <= i <= parsed_ast.items@.len(),
            findings.deep_view() == findings_in_items(parsed_ast.items@.take(i as int)),
        decreases parsed_ast.items@.len() - i,
    {
        let ghost pre = parsed_ast.items@.take(i as int);
        let ghost post = parsed_ast.items@.take(i as int + 1);
        proof {
            assert(post.drop_last() =~= pre);
            assert(post.last() == parsed_ast.items@[i as int]);
        }
        match &parsed_ast.items[i] {
            Item::Contract(c) => {
                let mut contract_results = analyze_one_contract(c);
                let ghost old_findings = findings.deep_view();
                let ghost new_part = contract_results.deep_view();
                findings.append(&mut contract_results);
                proof {
                    assert(findings.deep_view() =~= old_findings + new_part);
                }
            }
            _ => {
                proof {
                    assert(findings.deep_view() =~= findings_in_items(pre) + item_findings(
                        post.last(),
                    ));
                }
            }
        }
        i += 1;
    }
    proof {
        assert(parsed_ast.items@.take(parsed_ast.items@.len() as int) =~= parsed_ast.items@);
    }
    findings
}

} // verus!
