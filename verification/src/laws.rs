//! Laws of the detector set, stated and proved over the finding model.
//!
//! The two public proof functions at the bottom state: the unused-variable
//! rule fires exactly once for every declared-but-unused name of a contract
//! and never for a used name; and the full detector set is a pure function
//! of the tree, so two runs over the same source unit yield the identical
//! finding sequence.

use vstd::prelude::*;
use crate::analyze::{contract_findings, unit_findings};
use crate::arithmetic::{arith_findings, arith_findings_in_item, arith_findings_in_stmts};
use crate::ast::{Contract, ContractItem, SourceUnit, Stmt};
use crate::finding::{FindingModel, RuleKind};
use crate::guard::{guard_findings, guard_findings_in_item};
use crate::symbols::{
    declared_names, declared_set, dedup, lemma_dedup_contains, lemma_dedup_no_duplicates,
    used_names, used_set,
};
use crate::unused::unused_findings;

verus! {

broadcast use vstd::seq_lib::group_seq_properties;

/// Whether a finding is the unused-variable finding for `name`.
pub open spec fn is_unused_finding_for(f: FindingModel, name: Seq<char>) -> bool {
    f.rule is UnusedVariable && f.subject == Some(name)
}

/// How many unused-variable findings for `name` a finding sequence holds.
pub open spec fn count_unused_findings_for(fs: Seq<FindingModel>, name: Seq<char>) -> nat
    decreases fs.len(),
{
    if fs.len() == 0 {
        0
    } else {
        count_unused_findings_for(fs.drop_last(), name) + if is_unused_finding_for(
            fs.last(),
            name,
        ) {
            1nat
        } else {
            0nat
        }
    }
}

/// A non-empty sequence contains an element exactly when its last element
/// is that element or the rest contains it.
proof fn lemma_contains_split<A>(s: Seq<A>, x: A)
    requires
        s.len() > 0,
    ensures
        s.contains(x) <==> (s.drop_last().contains(x) || s.last() == x),
{
    if s.contains(x) {
        let i = choose|i: int| 0 <= i < s.len() && s[i] == x;
        if i < s.len() - 1 {
            assert(s.drop_last()[i] == x);
        }
    }
    if s.drop_last().contains(x) {
        let i = choose|i: int| 0 <= i < s.drop_last().len() && s.drop_last()[i] == x;
        assert(s[i] == x);
    }
    if s.last() == x {
        assert(s[s.len() - 1] == x);
    }
}

/// Counting distributes over concatenation.
proof fn lemma_count_concat(a: Seq<FindingModel>, b: Seq<FindingModel>, name: Seq<char>)
    ensures
        count_unused_findings_for(a + b, name) == count_unused_findings_for(a, name)
            + count_unused_findings_for(b, name),
    decreases b.len(),
{
    if b.len() == 0 {
        assert(a + b =~= a);
    } else {
        lemma_count_concat(a, b.drop_last(), name);
        assert((a + b).drop_last() =~= a + b.drop_last());
        assert((a + b).last() == b.last());
    }
}

/// Counting a pushed finding adds one exactly when it matches.
proof fn lemma_count_push(fs: Seq<FindingModel>, f: FindingModel, name: Seq<char>)
    ensures
        count_unused_findings_for(fs.push(f), name) == count_unused_findings_for(fs, name) + (
        if is_unused_finding_for(f, name) {
            1nat
        } else {
            0nat
        }),
{
    assert(fs.push(f).drop_last() =~= fs);
    assert(fs.push(f).last() == f);
}

/// The arithmetic findings of a statement sequence hold no unused-variable
/// finding.
proof fn lemma_arith_stmts_count_zero(
    cn: Seq<char>,
    fname: Option<Seq<char>>,
    ss: Seq<Stmt>,
    name: Seq<char>,
)
    ensures
        count_unused_findings_for(arith_findings_in_stmts(cn, fname, ss), name) == 0,
    decreases ss.len(),
{
    if ss.len() == 0 {
    } else {
        lemma_arith_stmts_count_zero(cn, fname, ss.drop_last(), name);
        lemma_count_push(
            arith_findings_in_stmts(cn, fname, ss.drop_last()),
            crate::arithmetic::arith_finding(cn, fname),
            name,
        );
    }
}

/// The arithmetic findings of a contract hold no unused-variable finding.
proof fn lemma_arith_count_zero(cn: Seq<char>, items: Seq<ContractItem>, name: Seq<char>)
    ensures
        count_unused_findings_for(arith_findings(cn, items), name) == 0,
    decreases items.len(),
{
    if items.len() == 0 {
    } else {
        lemma_arith_count_zero(cn, items.drop_last(), name);
        match items.last() {
            ContractItem::Function(f) => match f.body {
                Some(b) => lemma_arith_stmts_count_zero(cn, crate::ast::opt_name_view(f.name), b@, name),
                None => {},
            },
            _ => {},
        }
        lemma_count_concat(
            arith_findings(cn, items.drop_last()),
            arith_findings_in_item(cn, items.last()),
            name,
        );
    }
}

/// The guard findings of a contract hold no unused-variable finding.
proof fn lemma_guard_count_zero(cn: Seq<char>, items: Seq<ContractItem>, name: Seq<char>)
    ensures
        count_unused_findings_for(guard_findings(cn, items), name) == 0,
    decreases items.len(),
{
    if items.len() == 0 {
    } else {
        lemma_guard_count_zero(cn, items.drop_last(), name);
        let gf = guard_findings_in_item(cn, items.last());
        assert(count_unused_findings_for(gf, name) == 0) by {
            if gf.len() > 0 {
                assert(gf.drop_last() =~= Seq::<FindingModel>::empty());
                assert(count_unused_findings_for(gf.drop_last(), name) == 0);
                assert(!is_unused_finding_for(gf.last(), name));
            }
        }
        lemma_count_concat(
            guard_findings(cn, items.drop_last()),
            guard_findings_in_item(cn, items.last()),
            name,
        );
    }
}

/// The unused-variable rule over duplicate-free declared names counts one
/// finding for a declared-and-not-used name and none otherwise.
proof fn lemma_unused_findings_count(
    cn: Seq<char>,
    declared: Seq<Seq<char>>,
    used: Seq<Seq<char>>,
    name: Seq<char>,
)
    requires
        declared.no_duplicates(),
    ensures
        count_unused_findings_for(unused_findings(cn, declared, used), name) == (
        if declared.contains(name) && !used.contains(name) {
            1nat
        } else {
            0nat
        }),
    decreases declared.len(),
{
    if declared.len() == 0 {
    } else {
        let dl = declared.drop_last();
        assert(dl.no_duplicates()) by {
            assert forall|i: int, j: int|
                0 <= i < dl.len() && 0 <= j < dl.len() && i != j implies dl[i] != dl[j] by {
                assert(dl[i] == declared[i]);
                assert(dl[j] == declared[j]);
            }
        }
        lemma_unused_findings_count(cn, dl, used, name);
        lemma_contains_split(declared, name);
        if declared.last() == name {
            assert(!dl.contains(name)) by {
                if dl.contains(name) {
                    let i = choose|i: int| 0 <= i < dl.len() && dl[i] == name;
                    assert(declared[i] == name);
                    assert(declared[declared.len() - 1] == name);
                }
            }
        }
        if !used.contains(declared.last()) {
            lemma_count_push(
                unused_findings(cn, dl, used),
                crate::unused::unused_finding(cn, declared.last()),
                name,
            );
        }
    }
}

/// Law: for every contract, a name that is declared and never used yields
/// exactly one unused-variable finding among the contract's findings, and a
/// name that is used yields none.
pub proof fn lemma_unused_variable_findings_exact(c: Contract, name: Seq<char>)
    ensures
        declared_set(c).contains(name) && !used_set(c).contains(name)
            ==> count_unused_findings_for(contract_findings(c), name) == 1,
        used_set(c).contains(name) ==> count_unused_findings_for(contract_findings(c), name)
            == 0,
{
    let d = dedup(declared_names(c.items@));
    let u = used_names(c.items@);
    lemma_dedup_no_duplicates(declared_names(c.items@));
    lemma_dedup_contains(declared_names(c.items@), name);
    lemma_unused_findings_count(c.name@, d, u, name);
    lemma_arith_count_zero(c.name@, c.items@, name);
    lemma_guard_count_zero(c.name@, c.items@, name);
    lemma_count_concat(unused_findings(c.name@, d, u), arith_findings(c.name@, c.items@), name);
    lemma_count_concat(
        unused_findings(c.name@, d, u) + arith_findings(c.name@, c.items@),
        guard_findings(c.name@, c.items@),
        name,
    );
    assert(declared_set(c).contains(name) == declared_names(c.items@).contains(name));
    assert(used_set(c).contains(name) == used_names(c.items@).contains(name));
}

/// Law: the detector set is a pure function of the tree. Any two results
/// that meet the entry point's contract for the same source unit — two runs
/// over the same tree — are the identical finding sequence.
pub proof fn lemma_detectors_idempotent(
    u: SourceUnit,
    first: Seq<FindingModel>,
    second: Seq<FindingModel>,
)
    requires
        first == unit_findings(u),
        second == unit_findings(u),
    ensures
        first == second,
{
}

} // verus!
