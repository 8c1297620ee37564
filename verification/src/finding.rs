//! The structured result of the analysis: a finding names the rule that
//! fired, the contract it fired in, the enclosing function where one
//! applies, and, for an unused variable, the variable's name.

use vstd::prelude::*;
use crate::ast::opt_name_view;

verus! {

/// The rule a finding was produced by.
#[derive(Debug, Clone, Copy, PartialEq, Eq)]
pub enum RuleKind {
    UnusedVariable,
    UnsafeDivisionBeforeMultiplication,
    UnprotectedDestructiveCall,
}

/// One analysis result: the rule that fired and its location context.
/// `function_name` is set where the finding arises inside a function whose
/// header carries a name; `subject` is the offending variable's name for
/// `UnusedVariable` findings and absent otherwise.
#[derive(Debug, PartialEq, Eq)]
pub struct Finding {
    pub rule: RuleKind,
    pub contract_name: String,
    pub function_name: Option<String>,
    pub subject: Option<String>,
}

/// The mathematical model of a finding: the same record over character
/// sequences instead of heap strings.
pub ghost struct FindingModel {
    pub rule: RuleKind,
    pub contract_name: Seq<char>,
    pub function_name: Option<Seq<char>>,
    pub subject: Option<Seq<char>>,
}

impl DeepView for Finding {
    type V = FindingModel;

    open spec fn deep_view(&self) -> FindingModel {
        FindingModel {
            rule: self.rule,
            contract_name: self.contract_name@,
            function_name: opt_name_view(self.function_name),
            subject: opt_name_view(self.subject),
        }
    }
}

} // verus!
