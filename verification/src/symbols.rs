//! The symbol collector: walks a contract's items and builds the declared
//! and used variable-name collections that the unused-variable rule
//! consumes.
//!
//! Declared names are the names of the contract-level variable
//! declarations, first occurrences kept in declaration order and duplicates
//! collapsed. Used names are the identifiers that occur as bare-identifier
//! expression statements in the contract's function bodies; an identifier
//! buried inside a larger expression does not count as a use under this
//! model.

use vstd::prelude::*;
use crate::ast::{Contract, ContractItem, Expr, Stmt};

verus! {

broadcast use vstd::seq_lib::group_seq_properties;

/// The views of a vector of names: each heap string replaced by its
/// character sequence.
pub open spec fn names_of(v: Seq<String>) -> Seq<Seq<char>> {
    v.map_values(|s: String| s@)
}

/// The name a contract item declares, if it is a named variable
/// declaration.
pub open spec fn var_decl_name(it: ContractItem) -> Option<Seq<char>> {
    match it {
        ContractItem::Variable(Some(n)) => Some(n@),
        _ => None,
    }
}

/// The names of a contract's variable declarations, in declaration order,
/// duplicates included; unnamed declarations contribute nothing.
pub open spec fn declared_names(items: Seq<ContractItem>) -> Seq<Seq<char>>
    decreases items.len(),
{
    if items.len() == 0 {
        Seq::empty()
    } else {
        let prefix = declared_names(items.drop_last());
        match var_decl_name(items.last()) {
            Some(n) => prefix.push(n),
            None => prefix,
        }
    }
}

/// A sequence with each name's first occurrence kept and every later
/// duplicate dropped.
pub open spec fn dedup(s: Seq<Seq<char>>) -> Seq<Seq<char>>
    decreases s.len(),
{
    if s.len() == 0 {
        Seq::empty()
    } else if s.drop_last().contains(s.last()) {
        dedup(s.drop_last())
    } else {
        dedup(s.drop_last()).push(s.last())
    }
}

/// The names a single statement uses: a bare-identifier expression
/// statement uses its identifier, every other statement uses nothing.
pub open spec fn used_in_stmt(s: Stmt) -> Seq<Seq<char>> {
    match s {
        Stmt::Expr(Expr::Ident(n)) => seq![n@],
        _ => Seq::empty(),
    }
}

/// The names a statement sequence uses, in statement order.
pub open spec fn used_in_stmts(ss: Seq<Stmt>) -> Seq<Seq<char>>
    decreases ss.len(),
{
    if ss.len() == 0 {
        Seq::empty()
    } else {
        used_in_stmts(ss.drop_last()) + used_in_stmt(ss.last())
    }
}

/// The names a contract item uses: a function with a body contributes the
/// names its statements use, everything else contributes nothing.
pub open spec fn used_in_item(it: ContractItem) -> Seq<Seq<char>> {
    match it {
        ContractItem::Function(f) => match f.body {
            Some(b) => used_in_stmts(b@),
            None => Seq::empty(),
        },
        _ => Seq::empty(),
    }
}

/// The names a contract's function bodies use, in item order.
pub open spec fn used_names(items: Seq<ContractItem>) -> Seq<Seq<char>>
    decreases items.len(),
{
    if items.len() == 0 {
        Seq::empty()
    } else {
        used_names(items.drop_last()) + used_in_item(items.last())
    }
}

/// The set of names a contract declares.
pub open spec fn declared_set(c: Contract) -> Set<Seq<char>> {
    declared_names(c.items@).to_set()
}

/// The set of names a contract uses.
pub open spec fn used_set(c: Contract) -> Set<Seq<char>> {
    used_names(c.items@).to_set()
}

/// Deduplication keeps exactly the names of the input sequence.
pub proof fn lemma_dedup_contains(s: Seq<Seq<char>>, x: Seq<char>)
    ensures
        dedup(s).contains(x) == s.contains(x),
    decreases s.len(),
{
    if s.len() == 0 {
    } else {
        lemma_dedup_contains(s.drop_last(), x);
        assert(s.contains(x) <==> s.drop_last().contains(x) || s.last() == x) by {
            if s.contains(x) {
                let i = choose|i: int| 0 <= i < s.len() && s[i] == x;
                if i < s.len() - 1 {
                    assert(s.drop_last()[i] == x);
                }
            }
            if s.drop_last().contains(x) {
                let i = choose|i: int| 0 <= i < s.drop_last().len() && s.drop_last()[i] == x;
                assert(s[i] == x);
            }
            if s.last() == x {
                assert(s[s.len() - 1] == x);
            }
        }
    }
}

/// Deduplication leaves no name twice.
pub proof fn lemma_dedup_no_duplicates(s: Seq<Seq<char>>)
    ensures
        dedup(s).no_duplicates(),
    decreases s.len(),
{
    if s.len() == 0 {
    } else {
        lemma_dedup_no_duplicates(s.drop_last());
        if !s.drop_last().contains(s.last()) {
            lemma_dedup_contains(s.drop_last(), s.last());
            assert(!dedup(s.drop_last()).contains(s.last()));
        }
    }
}

/// Whether some string of `v` has the same characters as `name`.
pub fn contains_name(v: &Vec<String>, name: &String) -> (r: bool)
    ensures
        r == names_of(v@).contains(name@),
{
    let mut i: usize = 0;
    while i < v.len()
        invariant
            0 <= i <= v@.len(),
            forall|j: int| 0 <= j < i ==> v@[j]@ != name@,
        decreases v@.len() - i,
    {
        if v[i].eq(name) {
            proof {
                assert(names_of(v@)[i as int] == name@);
            }
            return true;
        }
        i += 1;
    }
    proof {
        assert forall|j: int| 0 <= j < names_of(v@).len() implies names_of(v@)[j] != name@ by {
            assert(names_of(v@)[j] == v@[j]@);
        }
    }
    false
}

/// Collects the names of a contract's variable declarations: one entry per
/// named declaration, duplicates collapsed by name equality, first
/// occurrences in declaration order.
pub fn collect_declared_variables(c: &Contract) -> (r: Vec<String>)
    ensures
        names_of(r@) == dedup(declared_names(c.items@)),
{
    let mut declared_variables: Vec<String> = Vec::new();
    let mut i: usize = 0;
    proof {
        assert(c.items@.take(0) =~= Seq::<ContractItem>::empty());
    }
    while i < c.items.len()
        invariant
            0 <= i <= c.items@.len(),
            names_of(declared_variables@) == dedup(declared_names(c.items@.take(i as int))),
        decreases c.items@.len() - i,
    {
        let ghost pre = c.items@.take(i as int);
        let ghost post = c.items@.take(i as int + 1);
        proof {
            assert(post.drop_last() =~= pre);
            assert(post.last() == c.items@[i as int]);
        }
        match &c.items[i] {
            ContractItem::Variable(Some(var_name)) => {
                proof {
                    assert(declared_names(post) == declared_names(pre).push(var_name@));
                    assert(declared_names(pre).push(var_name@).drop_last() =~= declared_names(pre));
                    assert(declared_names(pre).push(var_name@).last() == var_name@);
                    lemma_dedup_contains(declared_names(pre), var_name@);
                }
                if !contains_name(&declared_variables, var_name) {
                    let ghost old_names = declared_variables@;
                    declared_variables.push(var_name.clone());
                    proof {
                        assert(names_of(declared_variables@) =~= names_of(old_names).push(var_name@));
                    }
                }
            }
            _ => {
                proof {
                    assert(declared_names(post) == declared_names(pre));
                }
            }
        }
        i += 1;
    }
    proof {
        assert(c.items@.take(c.items@.len() as int) =~= c.items@);
    }
    declared_variables
}

/// Records the variable use a single statement makes: a bare-identifier
/// expression statement appends its identifier to the running collection,
/// every other statement leaves it unchanged.
pub fn collect_used_variables(stmt: &Stmt, used_variables: &mut Vec<String>)
    ensures
        names_of(final(used_variables)@) == names_of(old(used_variables)@) + used_in_stmt(*stmt),
{
    match stmt {
        Stmt::Expr(Expr::Ident(n)) => {
            let ghost old_names = used_variables@;
            used_variables.push(n.clone());
            proof {
                assert(names_of(used_variables@) =~= names_of(old_names) + used_in_stmt(*stmt));
            }
        }
        _ => {
            proof {
                assert(names_of(used_variables@) =~= names_of(used_variables@) + used_in_stmt(*stmt));
            }
        }
    }
}

/// Collects every variable use in a contract's function bodies, in
/// statement order; functions without a body contribute nothing.
pub fn collect_used_variables_in_contract(c: &Contract) -> (r: Vec<String>)
    ensures
        names_of(r@) == used_names(c.items@),
{
    let mut used_variables: Vec<String> = Vec::new();
    let mut i: usize = 0;
    proof {
        assert(c.items@.take(0) =~= Seq::<ContractItem>::empty());
    }
    while i < c.items.len()
        invariant
            0 <= i <= c.items@.len(),
            names_of(used_variables@) == used_names(c.items@.take(i as int)),
        decreases c.items@.len() - i,
    {
        let ghost pre = c.items@.take(i as int);
        let ghost post = c.items@.take(i as int + 1);
        proof {
            assert(post.drop_last() =~= pre);
            assert(post.last() == c.items@[i as int]);
        }
        match &c.items[i] {
            ContractItem::Function(f) => {
                if let Some(body) = &f.body {
                    let mut j: usize = 0;
                    proof {
                        assert(body@.take(0) =~= Seq::<Stmt>::empty());
                        assert(names_of(used_variables@) =~= used_names(pre) + used_in_stmts(body@.take(0)));
                    }
                    while j < body.len()
                        invariant
                            0 <= j <= body@.len(),
                            names_of(used_variables@) == used_names(pre)
                                + used_in_stmts(body@.take(j as int)),
                        decreases body@.len() - j,
                    {
                        let ghost spre = body@.take(j as int);
                        let ghost spost = body@.take(j as int + 1);
                        proof {
                            assert(spost.drop_last() =~= spre);
                            assert(spost.last() == body@[j as int]);
                        }
                        collect_used_variables(&body[j], &mut used_variables);
                        proof {
                            assert(names_of(used_variables@)
                                =~= used_names(pre) + used_in_stmts(spost));
                        }
                        j += 1;
                    }
                    proof {
                        assert(body@.take(body@.len() as int) =~= body@);
                        assert(names_of(used_variables@) =~= used_names(pre) + used_in_item(post.last()));
                    }
                } else {
                    proof {
                        assert(names_of(used_variables@) =~= used_names(pre) + used_in_item(post.last()));
                    }
                }
            }
            _ => {
                proof {
                    assert(names_of(used_variables@) =~= used_names(pre) + used_in_item(post.last()));
                }
            }
        }
        i += 1;
    }
    proof {
        assert(c.items@.take(c.items@.len() as int) =~= c.items@);
    }
    used_variables
}

} // verus!
