//! The unused-variable rule: the set difference between a contract's
//! declared names and its used names, one finding per surviving name.
//!
//! The emitted order is deterministic: findings follow the declaration
//! order of the first occurrence of each name.

use vstd::prelude::*;
use crate::finding::{Finding, FindingModel, RuleKind};
use crate::symbols::{contains_name, names_of};

verus! {

broadcast use vstd::seq_lib::group_seq_properties;

/// The finding reported for one unused variable of a contract.
pub open spec fn unused_finding(contract_name: Seq<char>, var: Seq<char>) -> FindingModel {
    FindingModel {
        rule: RuleKind::UnusedVariable,
        contract_name: contract_name,
        function_name: None,
        subject: Some(var),
    }
}

/// The findings of the unused-variable rule: one per declared name that the
/// used names do not contain, in declaration order.
pub open spec fn unused_findings(
    contract_name: Seq<char>,
    declared: Seq<Seq<char>>,
    used: Seq<Seq<char>>,
) -> Seq<FindingModel>
    decreases declared.len(),
{
    if declared.len() == 0 {
        Seq::empty()
    } else {
        let prefix = unused_findings(contract_name, declared.drop_last(), used);
        if used.contains(declared.last()) {
            prefix
        } else {
            prefix.push(unused_finding(contract_name, declared.last()))
        }
    }
}

/// Emits one `UnusedVariable` finding per declared name that is absent from
/// the used names, in the order the declared names are given.
pub fn detect_unused_variables(
    contract_name: &String,
    declared: &Vec<String>,
    used: &Vec<String>,
) -> (r: Vec<Finding>)
    ensures
        r.deep_view() == unused_findings(contract_name@, names_of(declared@), names_of(used@)),
{
    let mut findings: Vec<Finding> = Vec::new();
    let mut i: usize = 0;
    proof {
        assert(names_of(declared@).take(0) =~= Seq::<Seq<char>>::empty());
        assert(findings.deep_view()
            =~= unused_findings(contract_name@, names_of(declared@).take(0), names_of(used@)));
    }
    while i < declared.len()
        invariant
            0 <= i <= declared@.len(),
            findings.deep_view() == unused_findings(
                contract_name@,
                names_of(declared@).take(i as int),
                names_of(used@),
            ),
        decreases declared@.len() - i,
    {
        let ghost pre = names_of(declared@).take(i as int);
        let ghost post = names_of(declared@).take(i as int + 1);
        proof {
            assert(post.drop_last() =~= pre);
            assert(post.last() == names_of(declared@)[i as int]);
            assert(names_of(declared@)[i as int] == declared@[i as int]@);
        }
        if !contains_name(used, &declared[i]) {
            let f = Finding {
                rule: RuleKind::UnusedVariable,
                contract_name: contract_name.clone(),
                function_name: None,
                subject: Some(declared[i].clone()),
            };
            let ghost old_findings = findings.deep_view();
            findings.push(f);
            proof {
                assert(findings.deep_view()
                    =~= old_findings.push(unused_finding(contract_name@, declared@[i as int]@)));
            }
        }
        i += 1;
    }
    proof {
        assert(names_of(declared@).take(names_of(declared@).len() as int) =~= names_of(declared@));
    }
    findings
}

} // verus!
