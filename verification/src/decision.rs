//! What is decided about a transaction.

use vstd::prelude::*;

verus! {

/// A rule that was triggered, and why.
#[derive(Debug, Clone, PartialEq, Eq)]
pub struct TriggeredRule {
    pub code: String,
    pub reason: String,
}

/// The model of `TriggeredRule`.
pub struct TriggeredRuleView {
    pub code: Seq<char>,
    pub reason: Seq<char>,
}

impl View for TriggeredRule {
    type V = TriggeredRuleView;

    open spec fn view(&self) -> TriggeredRuleView {
        TriggeredRuleView { code: self.code@, reason: self.reason@ }
    }
}

/// What is decided about a transaction.
#[derive(Debug, Clone, PartialEq, Eq)]
pub enum Decision {
    Accept,
    Review { triggered_rules: Vec<TriggeredRule> },
    Decline { reason: String },
}

/// The model of `Decision`.
pub enum DecisionView {
    Accept,
    Review { triggered_rules: Seq<TriggeredRuleView> },
    Decline { reason: Seq<char> },
}

impl View for Decision {
    type V = DecisionView;

    open spec fn view(&self) -> DecisionView {
        match *self {
            Decision::Accept => DecisionView::Accept,
            Decision::Review { triggered_rules } => DecisionView::Review {
                triggered_rules: triggered_rules@.map_values(|t: TriggeredRule| t@),
            },
            Decision::Decline { reason } => DecisionView::Decline { reason: reason@ },
        }
    }
}

/// The model of a decision keeps which decision it is, and every rule and text in it.
pub proof fn law_models_keep_decisions(decision: Decision)
    ensures
        match decision {
            Decision::Accept => decision@ is Accept,
            Decision::Review { triggered_rules } => decision@
                matches DecisionView::Review { triggered_rules: told } && {
                &&& told.len() == triggered_rules@.len()
                &&& forall|k: int|
                    0 <= k < told.len() ==> (#[trigger] told[k]).code == triggered_rules@[k].code@
                        && told[k].reason == triggered_rules@[k].reason@
            },
            Decision::Decline { reason } => decision@ matches DecisionView::Decline { reason: told }
                && told == reason@,
        },
{
}

/// The model of a triggered rule keeps its code and its reason.
pub proof fn law_models_keep_triggered_rules(rule: TriggeredRule)
    ensures
        rule@.code == rule.code@,
        rule@.reason == rule.reason@,
{
}

} // verus!
