use sol_lint::analyze::{analyze_contract, analyze_one_contract};
use sol_lint::ast::{BinOpKind, Contract, ContractItem, Expr, FunctionDefinition, Item, SourceUnit, Stmt};
use sol_lint::finding::{Finding, RuleKind};
use sol_lint::guard::detect_unprotected_selfdestruct;
use sol_lint::symbols::{collect_declared_variables, collect_used_variables_in_contract};
use sol_lint::unused::detect_unused_variables;

fn ident(name: &str) -> Expr {
    Expr::Ident(name.to_string())
}

fn call(callee: &str, args: Vec<Expr>) -> Expr {
    Expr::Call(Box::new(ident(callee)), args)
}

fn binary(left: Expr, op: BinOpKind, right: Expr) -> Expr {
    Expr::Binary(Box::new(left), op, Box::new(right))
}

fn expr_stmt(e: Expr) -> Stmt {
    Stmt::Expr(e)
}

fn var(name: &str) -> ContractItem {
    ContractItem::Variable(Some(name.to_string()))
}

fn function(name: &str, body: Vec<Stmt>) -> ContractItem {
    ContractItem::Function(FunctionDefinition {
        name: Some(name.to_string()),
        body: Some(body),
    })
}

fn contract(name: &str, items: Vec<ContractItem>) -> Contract {
    Contract { name: name.to_string(), items }
}

fn unused_finding(contract_name: &str, subject: &str) -> Finding {
    Finding {
        rule: RuleKind::UnusedVariable,
        contract_name: contract_name.to_string(),
        function_name: None,
        subject: Some(subject.to_string()),
    }
}

#[test]
fn counter_scenario_reports_unused_var_and_unsafe_division() {
    // A contract named `Counter` with a never-referenced variable
    // `unusedVar` and a function whose statement is `total / (rate * base);`
    // yields exactly one UnusedVariable finding for `unusedVar` and exactly
    // one UnsafeDivisionBeforeMultiplication finding.
    let unit = SourceUnit {
        items: vec![Item::Contract(contract(
            "Counter",
            vec![
                var("unusedVar"),
                function(
                    "update",
                    vec![expr_stmt(binary(
                        ident("total"),
                        BinOpKind::Div,
                        binary(ident("rate"), BinOpKind::Mul, ident("base")),
                    ))],
                ),
            ],
        ))],
    };
    let findings = analyze_contract(&unit);
    assert_eq!(
        findings,
        vec![
            unused_finding("Counter", "unusedVar"),
            Finding {
                rule: RuleKind::UnsafeDivisionBeforeMultiplication,
                contract_name: "Counter".to_string(),
                function_name: Some("update".to_string()),
                subject: None,
            },
        ]
    );
}

#[test]
fn selfdestruct_scenario_names_the_function() {
    // A contract named `SelfDestruct` with a function `kill` whose body is
    // `[selfdestruct(owner);]` yields exactly one UnprotectedDestructiveCall
    // finding naming `kill`.
    let unit = SourceUnit {
        items: vec![Item::Contract(contract(
            "SelfDestruct",
            vec![function("kill", vec![expr_stmt(call("selfdestruct", vec![ident("owner")]))])],
        ))],
    };
    let findings = analyze_contract(&unit);
    assert_eq!(
        findings,
        vec![Finding {
            rule: RuleKind::UnprotectedDestructiveCall,
            contract_name: "SelfDestruct".to_string(),
            function_name: Some("kill".to_string()),
            subject: None,
        }]
    );
}

#[test]
fn running_the_detectors_twice_yields_identical_findings() {
    let unit = SourceUnit {
        items: vec![
            Item::Contract(contract(
                "Counter",
                vec![
                    var("unusedVar"),
                    var("total"),
                    function(
                        "update",
                        vec![
                            expr_stmt(ident("total")),
                            expr_stmt(binary(ident("a"), BinOpKind::Div, binary(ident("b"), BinOpKind::Mul, ident("c")))),
                        ],
                    ),
                ],
            )),
            Item::Contract(contract(
                "SelfDestruct",
                vec![function("kill", vec![expr_stmt(call("selfdestruct", vec![ident("owner")]))])],
            )),
        ],
    };
    let first = analyze_contract(&unit);
    let second = analyze_contract(&unit);
    assert_eq!(first, second);
}

#[test]
fn declared_but_unused_names_each_yield_one_finding_and_used_names_none() {
    // Of the declared names, `kept` is used as a bare-identifier statement
    // and `dropped` is not: exactly one finding, for `dropped`.
    let c = contract(
        "Ledger",
        vec![
            var("dropped"),
            var("kept"),
            function("touch", vec![expr_stmt(ident("kept"))]),
        ],
    );
    let findings = analyze_one_contract(&c);
    assert_eq!(findings, vec![unused_finding("Ledger", "dropped")]);
}

#[test]
fn duplicate_declarations_collapse_to_one_finding() {
    let c = contract("Twice", vec![var("x"), var("x")]);
    let findings = analyze_one_contract(&c);
    assert_eq!(findings, vec![unused_finding("Twice", "x")]);
}

#[test]
fn unnamed_declarations_are_skipped() {
    let c = contract("Anon", vec![ContractItem::Variable(None)]);
    assert_eq!(analyze_one_contract(&c), vec![]);
    assert_eq!(collect_declared_variables(&c), Vec::<String>::new());
}

#[test]
fn functions_without_a_body_contribute_nothing() {
    let c = contract(
        "Iface",
        vec![
            var("x"),
            ContractItem::Function(FunctionDefinition { name: Some("sig".to_string()), body: None }),
        ],
    );
    let findings = analyze_one_contract(&c);
    assert_eq!(findings, vec![unused_finding("Iface", "x")]);
}

#[test]
fn identifiers_inside_larger_expressions_do_not_count_as_uses() {
    // In `a + b;` neither operand is a bare-identifier statement, so a
    // declared `a` stays unused under this model.
    let c = contract(
        "Ops",
        vec![
            var("a"),
            function("f", vec![expr_stmt(binary(ident("a"), BinOpKind::OtherOp, ident("b")))]),
        ],
    );
    let findings = analyze_one_contract(&c);
    assert_eq!(findings, vec![unused_finding("Ops", "a")]);
}

#[test]
fn symbol_sets_are_per_contract() {
    // A use in one contract does not mark a declaration of another contract
    // as used.
    let unit = SourceUnit {
        items: vec![
            Item::Contract(contract("First", vec![var("shared")])),
            Item::Contract(contract(
                "Second",
                vec![function("f", vec![expr_stmt(ident("shared"))])],
            )),
        ],
    };
    let findings = analyze_contract(&unit);
    assert_eq!(findings, vec![unused_finding("First", "shared")]);
}

#[test]
fn collectors_gather_declared_and_used_names_in_order() {
    let c = contract(
        "Names",
        vec![
            var("a"),
            var("b"),
            var("a"),
            ContractItem::Variable(None),
            function("f", vec![expr_stmt(ident("b")), Stmt::OtherStmt, expr_stmt(ident("b"))]),
        ],
    );
    assert_eq!(collect_declared_variables(&c), vec!["a".to_string(), "b".to_string()]);
    assert_eq!(
        collect_used_variables_in_contract(&c),
        vec!["b".to_string(), "b".to_string()]
    );
}

#[test]
fn unused_detector_takes_the_set_difference() {
    let declared = vec!["a".to_string(), "b".to_string()];
    let used = vec!["b".to_string()];
    let findings = detect_unused_variables(&"C".to_string(), &declared, &used);
    assert_eq!(findings, vec![unused_finding("C", "a")]);
}

#[test]
fn guard_detector_reports_one_finding_per_offending_function() {
    let c = contract(
        "Vault",
        vec![
            function("safe", vec![
                expr_stmt(call("require", vec![ident("owner")])),
                expr_stmt(call("selfdestruct", vec![ident("owner")])),
            ]),
            function("unsafe_kill", vec![
                expr_stmt(call("suicide", vec![ident("owner")])),
                expr_stmt(call("selfdestruct", vec![ident("owner")])),
            ]),
        ],
    );
    let findings = detect_unprotected_selfdestruct(&c);
    assert_eq!(
        findings,
        vec![Finding {
            rule: RuleKind::UnprotectedDestructiveCall,
            contract_name: "Vault".to_string(),
            function_name: Some("unsafe_kill".to_string()),
            subject: None,
        }]
    );
}

#[test]
fn contracts_in_a_unit_are_analyzed_in_source_order() {
    let unit = SourceUnit {
        items: vec![
            Item::OtherTopItem,
            Item::Contract(contract("A", vec![var("x")])),
            Item::Contract(contract("B", vec![var("y")])),
        ],
    };
    let findings = analyze_contract(&unit);
    assert_eq!(findings, vec![unused_finding("A", "x"), unused_finding("B", "y")]);
}
