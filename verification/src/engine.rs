//! The engine: it holds the rules and decides about transactions.

use crate::decision::{Decision, DecisionView, TriggeredRule, TriggeredRuleView};
use crate::error::{DomainError, DomainErrorView};
use crate::messages::{EvaluateTransactionRequest, PersistResults, UpdateRules};
use crate::rule::{Rule, RuleView, Verdict, VerdictView};
use crate::transaction::{TransactionRequest, TransactionRequestView};
use std::sync::Arc;
use vstd::prelude::*;

verus! {

/// The rules among `rules` that the transaction triggers, in their order. Rules
/// that pass it, are skipped or cannot be read leave no trace.
pub open spec fn triggered_by(rules: Seq<RuleView>, tx: TransactionRequestView) -> Seq<
    TriggeredRuleView,
>
    decreases rules.len(),
{
    if rules.len() == 0 {
        Seq::empty()
    } else {
        let earlier = triggered_by(rules.drop_last(), tx);
        match rules.last().outcome(tx) {
            Ok(VerdictView::Triggered { code, reason }) => earlier.push(
                TriggeredRuleView { code, reason },
            ),
            _ => earlier,
        }
    }
}

/// The errors of the rules that cannot be read on a transaction, in their order.
pub open spec fn failures_on(rules: Seq<RuleView>, tx: TransactionRequestView) -> Seq<
    DomainErrorView,
>
    decreases rules.len(),
{
    if rules.len() == 0 {
        Seq::empty()
    } else {
        let earlier = failures_on(rules.drop_last(), tx);
        match rules.last().outcome(tx) {
            Err(error) => earlier.push(error),
            Ok(_) => earlier,
        }
    }
}

/// What is decided about a transaction under the rules.
pub open spec fn decision_on(rules: Seq<RuleView>, tx: TransactionRequestView) -> DecisionView {
    match tx.violation() {
        Some(error) => DecisionView::Decline { reason: error.text() },
        None => if triggered_by(rules, tx).len() == 0 {
            DecisionView::Accept
        } else {
            DecisionView::Review { triggered_rules: triggered_by(rules, tx) }
        },
    }
}

/// The models of rules.
pub open spec fn rule_views(rules: Seq<Rule>) -> Seq<RuleView> {
    rules.map_values(|rule: Rule| rule@)
}

/// The rules that count, and the decisions made under them.
#[derive(Debug)]
pub struct Engine {
    rules: Arc<Vec<Rule>>,
}

impl View for Engine {
    type V = Seq<RuleView>;

    closed spec fn view(&self) -> Seq<RuleView> {
        rule_views(self.rules@)
    }
}

impl Engine {
    /// An engine with the rules given, or with none.
    pub fn new(rules: Option<Vec<Rule>>) -> (r: Engine)
        ensures
            r@ == match rules {
                Some(rules) => rule_views(rules@),
                None => Seq::empty(),
            },
    {
        let rules = match rules {
            Some(rules) => rules,
            None => Vec::new(),
        };
        let engine = Engine { rules: Arc::new(rules) };
        assert(engine@ =~= rule_views(rules@));
        engine
    }

    /// Puts the rules of the message in the place of those that counted before.
    pub fn update_rules(&mut self, msg: UpdateRules)
        ensures
            final(self)@ == rule_views(msg.rules@),
    {
        self.rules = msg.rules;
    }

    /// How many rules count.
    pub fn rule_count(&self) -> (r: usize)
        ensures
            r == self@.len(),
    {
        self.rules.len()
    }

    /// The rules that the transaction triggers, in their order.
    pub fn triggered(&self, tx: &TransactionRequest) -> (r: Vec<TriggeredRule>)
        ensures
            r@.map_values(|t: TriggeredRule| t@) == triggered_by(self@, tx@),
    {
        let mut triggered: Vec<TriggeredRule> = Vec::new();
        let n: usize = self.rules.len();
        let mut i: usize = 0;
        assert(self@.take(0).len() == 0);
        while i < n
            invariant
                i <= n,
                n == self.rules@.len(),
                self@.len() == n,
                triggered@.map_values(|t: TriggeredRule| t@) =~= triggered_by(
                    self@.take(i as int),
                    tx@,
                ),
            decreases n - i,
        {
            let rule = &self.rules[i];
            let ghost earlier = triggered@;
            assert(self@.take(i + 1).drop_last() =~= self@.take(i as int));
            assert(self@.take(i + 1).last() == rule@);
            match rule.evaluate(tx) {
                Ok(Verdict::Triggered { code, reason }) => {
                    triggered.push(TriggeredRule { code, reason });
                    assert(triggered@.map_values(|t: TriggeredRule| t@) =~= earlier.map_values(
                        |t: TriggeredRule| t@,
                    ).push(triggered@.last()@));
                },
                Ok(Verdict::Skipped { reason: _ }) => {},
                Ok(Verdict::Passed) => {},
                Err(_) => {},
            }
            i += 1;
        }
        assert(self@.take(n as int) =~= self@);
        triggered
    }

    /// The errors of the rules that cannot be read on the transaction, in their order.
    pub fn failures(&self, tx: &TransactionRequest) -> (r: Vec<DomainError>)
        ensures
            r@.map_values(|e: DomainError| e@) == failures_on(self@, tx@),
    {
        let mut failures: Vec<DomainError> = Vec::new();
        let n: usize = self.rules.len();
        let mut i: usize = 0;
        assert(self@.take(0).len() == 0);
        while i < n
            invariant
                i <= n,
                n == self.rules@.len(),
                self@.len() == n,
                failures@.map_values(|e: DomainError| e@) =~= failures_on(
                    self@.take(i as int),
                    tx@,
                ),
            decreases n - i,
        {
            let rule = &self.rules[i];
            let ghost earlier = failures@;
            assert(self@.take(i + 1).drop_last() =~= self@.take(i as int));
            assert(self@.take(i + 1).last() == rule@);
            match rule.evaluate(tx) {
                Ok(_) => {},
                Err(error) => {
                    failures.push(error);
                    assert(failures@.map_values(|e: DomainError| e@) =~= earlier.map_values(
                        |e: DomainError| e@,
                    ).push(failures@.last()@));
                },
            }
            i += 1;
        }
        assert(self@.take(n as int) =~= self@);
        failures
    }

    /// What is decided about the transaction.
    pub fn decide(&self, tx: &TransactionRequest) -> (r: Decision)
        ensures
            r@ == decision_on(self@, tx@),
    {
        match tx.validate() {
            Err(e) => Decision::Decline { reason: e.to_string() },
            Ok(()) => {
                let triggered_rules = self.triggered(tx);
                assert(triggered_rules@.map_values(|t: TriggeredRule| t@).len()
                    == triggered_rules@.len());
                if triggered_rules.len() == 0 {
                    Decision::Accept
                } else {
                    Decision::Review { triggered_rules }
                }
            },
        }
    }

    /// Decides about the transaction of the message, and hands it on together with
    /// the decision under the same correlation id.
    pub fn evaluate(&self, msg: EvaluateTransactionRequest) -> (r: PersistResults)
        ensures
            r.tx == msg.tx,
            r.correlation_id == msg.correlation_id,
            r.decision@ == decision_on(self@, msg.tx@),
    {
        let decision = self.decide(&msg.tx);
        PersistResults { tx: msg.tx, decision, correlation_id: msg.correlation_id }
    }
}

/// A transaction is declined exactly where it is invalid, whatever the rules are;
/// it is accepted exactly where it is valid and triggers no rule; and what is
/// reviewed names at least one rule.
pub proof fn law_decisions(rules: Seq<RuleView>, tx: TransactionRequestView)
    ensures
        decision_on(rules, tx) is Decline <==> tx.amount <= 0 || tx.source_account
            == tx.destination_account,
        decision_on(rules, tx) is Accept <==> tx.violation() is None && triggered_by(
            rules,
            tx,
        ).len() == 0,
        decision_on(rules, tx) matches DecisionView::Review { triggered_rules }
            ==> triggered_rules.len() > 0,
{
}

/// What stands among the triggered rules is exactly what some rule says when it is
/// triggered, and there are no more of them than there are rules.
pub proof fn law_triggered_exactly(
    rules: Seq<RuleView>,
    tx: TransactionRequestView,
    t: TriggeredRuleView,
)
    ensures
        triggered_by(rules, tx).contains(t) <==> exists|i: int|
            0 <= i < rules.len() && (#[trigger] rules[i]).outcome(tx) == Ok::<
                VerdictView,
                DomainErrorView,
            >(VerdictView::Triggered { code: t.code, reason: t.reason }),
        triggered_by(rules, tx).len() <= rules.len(),
    decreases rules.len(),
{
    if rules.len() > 0 {
        let rest = rules.drop_last();
        law_triggered_exactly(rest, tx, t);
        let earlier = triggered_by(rest, tx);
        let all = triggered_by(rules, tx);
        let hit = Ok::<VerdictView, DomainErrorView>(
            VerdictView::Triggered { code: t.code, reason: t.reason },
        );
        if rules.last().outcome(tx) == hit {
            assert(rules[rules.len() - 1].outcome(tx) == hit);
            assert(all.last() == t);
        } else {
            if all.contains(t) {
                let k = choose|k: int| 0 <= k < all.len() && all[k] == t;
                assert(k < earlier.len() && earlier[k] == t);
                let i = choose|i: int|
                    0 <= i < rest.len() && (#[trigger] rest[i]).outcome(tx) == hit;
                assert(rules[i].outcome(tx) == hit);
            }
            if exists|i: int| 0 <= i < rules.len() && (#[trigger] rules[i]).outcome(tx) == hit {
                let i = choose|i: int|
                    0 <= i < rules.len() && (#[trigger] rules[i]).outcome(tx) == hit;
                assert(rest[i].outcome(tx) == hit);
                let k = choose|k: int| 0 <= k < earlier.len() && earlier[k] == t;
                assert(all[k] == t);
            }
        }
    }
}

/// Whether some rule is triggered by the transaction.
pub open spec fn some_triggered(rules: Seq<RuleView>, tx: TransactionRequestView) -> bool {
    exists|i: int|
        0 <= i < rules.len() && ((#[trigger] rules[i]).outcome(tx) matches Ok(
            VerdictView::Triggered { .. },
        ))
}

/// A valid transaction is accepted exactly where no rule is triggered by it, and
/// reviewed exactly where some rule is.
pub proof fn law_accepted_exactly(rules: Seq<RuleView>, tx: TransactionRequestView)
    requires
        tx.violation() is None,
    ensures
        decision_on(rules, tx) is Accept <==> !some_triggered(rules, tx),
        decision_on(rules, tx) is Review <==> some_triggered(rules, tx),
    decreases rules.len(),
{
    if rules.len() > 0 {
        let rest = rules.drop_last();
        law_accepted_exactly(rest, tx);
        if some_triggered(rest, tx) {
            let i = choose|i: int|
                0 <= i < rest.len() && ((#[trigger] rest[i]).outcome(tx) matches Ok(
                    VerdictView::Triggered { .. },
                ));
            assert(rules[i].outcome(tx) == rest[i].outcome(tx));
        } else if some_triggered(rules, tx) {
            let i = choose|i: int|
                0 <= i < rules.len() && ((#[trigger] rules[i]).outcome(tx) matches Ok(
                    VerdictView::Triggered { .. },
                ));
            assert(i < rest.len() ==> rest[i].outcome(tx) == rules[i].outcome(tx));
        }
        assert(rules[rules.len() - 1] == rules.last());
    }
}

/// What two lists of rules say together is what the first says, followed by what
/// the second says.
pub proof fn law_rules_add_up(a: Seq<RuleView>, b: Seq<RuleView>, tx: TransactionRequestView)
    ensures
        triggered_by(a + b, tx) == triggered_by(a, tx) + triggered_by(b, tx),
    decreases b.len(),
{
    if b.len() == 0 {
        assert(a + b =~= a);
        assert(triggered_by(a, tx) + triggered_by(b, tx) =~= triggered_by(a, tx));
    } else {
        law_rules_add_up(a, b.drop_last(), tx);
        assert((a + b).drop_last() =~= a + b.drop_last());
        assert(triggered_by(a + b, tx) =~= triggered_by(a, tx) + triggered_by(b, tx));
    }
}

/// A rule that is not triggered by a transaction, be it passed, skipped or
/// unreadable, can be left out without changing the decision.
pub proof fn law_silent_rules_do_not_matter(
    before: Seq<RuleView>,
    rule: RuleView,
    after: Seq<RuleView>,
    tx: TransactionRequestView,
)
    requires
        !(rule.outcome(tx) matches Ok(VerdictView::Triggered { .. })),
    ensures
        decision_on(before.push(rule) + after, tx) == decision_on(before + after, tx),
{
    law_rules_add_up(before.push(rule), after, tx);
    law_rules_add_up(before, after, tx);
    assert(before.push(rule).drop_last() =~= before);
}

/// Whether the rule is triggered by the transaction.
pub open spec fn is_triggered(rule: RuleView, tx: TransactionRequestView) -> bool {
    rule.outcome(tx) matches Ok(VerdictView::Triggered { .. })
}

/// The rules that the transaction triggers, in their order.
pub open spec fn triggered_rules(rules: Seq<RuleView>, tx: TransactionRequestView) -> Seq<RuleView> {
    rules.filter(|rule: RuleView| is_triggered(rule, tx))
}

/// Only the rules that a transaction triggers matter to the decision: two lists that
/// agree on these lead to the same, whatever other rules stand in them.
pub proof fn law_only_triggered_rules_matter(
    a: Seq<RuleView>,
    b: Seq<RuleView>,
    tx: TransactionRequestView,
)
    requires
        triggered_rules(a, tx) == triggered_rules(b, tx),
    ensures
        triggered_by(a, tx) == triggered_by(b, tx),
        decision_on(a, tx) == decision_on(b, tx),
{
    lemma_triggered_rules(a, tx);
    lemma_triggered_rules(b, tx);
}

proof fn lemma_triggered_rules(rules: Seq<RuleView>, tx: TransactionRequestView)
    ensures
        triggered_by(triggered_rules(rules, tx), tx) == triggered_by(rules, tx),
    decreases rules.len(),
{
    reveal(Seq::filter);
    if rules.len() > 0 {
        let rest = rules.drop_last();
        lemma_triggered_rules(rest, tx);
        if is_triggered(rules.last(), tx) {
            assert(triggered_rules(rules, tx).drop_last() =~= triggered_rules(rest, tx));
        }
    }
}

/// An error stands among the failures exactly where some rule fails with it, and the
/// failures and the triggered rules together are no more than the rules.
pub proof fn law_failures_exactly(
    rules: Seq<RuleView>,
    tx: TransactionRequestView,
    error: DomainErrorView,
)
    ensures
        failures_on(rules, tx).contains(error) <==> exists|i: int|
            0 <= i < rules.len() && (#[trigger] rules[i]).outcome(tx) == Err::<
                VerdictView,
                DomainErrorView,
            >(error),
        failures_on(rules, tx).len() + triggered_by(rules, tx).len() <= rules.len(),
    decreases rules.len(),
{
    if rules.len() > 0 {
        let rest = rules.drop_last();
        law_failures_exactly(rest, tx, error);
        let earlier = failures_on(rest, tx);
        let all = failures_on(rules, tx);
        let hit = Err::<VerdictView, DomainErrorView>(error);
        if rules.last().outcome(tx) == hit {
            assert(rules[rules.len() - 1].outcome(tx) == hit);
            assert(all.last() == error);
        } else {
            if all.contains(error) {
                let k = choose|k: int| 0 <= k < all.len() && all[k] == error;
                assert(k < earlier.len() && earlier[k] == error);
                let i = choose|i: int|
                    0 <= i < rest.len() && (#[trigger] rest[i]).outcome(tx) == hit;
                assert(rules[i].outcome(tx) == hit);
            }
            if exists|i: int| 0 <= i < rules.len() && (#[trigger] rules[i]).outcome(tx) == hit {
                let i = choose|i: int|
                    0 <= i < rules.len() && (#[trigger] rules[i]).outcome(tx) == hit;
                assert(rest[i].outcome(tx) == hit);
                let k = choose|k: int| 0 <= k < earlier.len() && earlier[k] == error;
                assert(all[k] == error);
            }
        }
    }
}

/// More rules never make a decision milder: what is declined stays declined, and
/// what is reviewed stays reviewed, with every rule that it named before.
pub proof fn law_more_rules_are_no_milder(
    rules: Seq<RuleView>,
    more: Seq<RuleView>,
    tx: TransactionRequestView,
)
    ensures
        decision_on(rules, tx) is Decline ==> decision_on(rules + more, tx) == decision_on(rules, tx),
        decision_on(rules, tx) matches DecisionView::Review { triggered_rules: few } ==> (
        decision_on(rules + more, tx) matches DecisionView::Review { triggered_rules: many }
            && few.is_prefix_of(many)),
{
    law_rules_add_up(rules, more, tx);
}

/// The models of rules are those of each rule, in their order, and no more.
pub proof fn law_models_keep_rule_lists(rules: Seq<Rule>, i: int)
    ensures
        rule_views(rules).len() == rules.len(),
        0 <= i < rules.len() ==> rule_views(rules)[i] == rules[i]@,
{
}

/// About a valid transaction everything that triggered is told: there are places in
/// the list of rules, in ascending order, that are exactly those of the triggered
/// rules; without any the transaction is accepted, and otherwise it is reviewed with
/// one entry for each of them, in their order, that says what that rule says.
pub proof fn law_reviews_tell_every_triggered_rule(
    rules: Seq<RuleView>,
    tx: TransactionRequestView,
) -> (places: Seq<int>)
    requires
        tx.amount > 0,
        tx.source_account != tx.destination_account,
    ensures
        forall|k: int, l: int| 0 <= k < l < places.len() ==> places[k] < places[l],
        forall|k: int| 0 <= k < places.len() ==> 0 <= #[trigger] places[k] < rules.len(),
        forall|i: int|
            0 <= i < rules.len() ==> (places.contains(i) <==> ((#[trigger] rules[i]).outcome(tx)
                matches Ok(VerdictView::Triggered { .. }))),
        match decision_on(rules, tx) {
            DecisionView::Accept => places.len() == 0,
            DecisionView::Review { triggered_rules: told } => {
                &&& places.len() > 0
                &&& told.len() == places.len()
                &&& forall|k: int|
                    0 <= k < places.len() ==> rules[#[trigger] places[k]].outcome(tx) == Ok::<
                        VerdictView,
                        DomainErrorView,
                    >(VerdictView::Triggered { code: told[k].code, reason: told[k].reason })
            },
            DecisionView::Decline { .. } => false,
        },
{
    let places = lemma_places(rules, tx);
    assert(triggered_by(rules, tx).len() == places.len());
    places
}

/// The triggered rules that an engine finds are those of the list, one entry for each
/// in their order, whether or not the transaction is valid.
pub proof fn law_triggered_rules_keep_their_places(
    rules: Seq<RuleView>,
    tx: TransactionRequestView,
) -> (places: Seq<int>)
    ensures
        forall|k: int, l: int| 0 <= k < l < places.len() ==> places[k] < places[l],
        forall|k: int| 0 <= k < places.len() ==> 0 <= #[trigger] places[k] < rules.len(),
        forall|i: int|
            0 <= i < rules.len() ==> (places.contains(i) <==> ((#[trigger] rules[i]).outcome(tx)
                matches Ok(VerdictView::Triggered { .. }))),
        triggered_by(rules, tx).len() == places.len(),
        forall|k: int|
            0 <= k < places.len() ==> rules[#[trigger] places[k]].outcome(tx) == Ok::<
                VerdictView,
                DomainErrorView,
            >(
                VerdictView::Triggered {
                    code: triggered_by(rules, tx)[k].code,
                    reason: triggered_by(rules, tx)[k].reason,
                },
            ),
{
    lemma_places(rules, tx)
}

proof fn lemma_places(rules: Seq<RuleView>, tx: TransactionRequestView) -> (places: Seq<int>)
    ensures
        forall|k: int, l: int| 0 <= k < l < places.len() ==> places[k] < places[l],
        forall|k: int| 0 <= k < places.len() ==> 0 <= #[trigger] places[k] < rules.len(),
        forall|i: int|
            0 <= i < rules.len() ==> (places.contains(i) <==> ((#[trigger] rules[i]).outcome(tx)
                matches Ok(VerdictView::Triggered { .. }))),
        triggered_by(rules, tx).len() == places.len(),
        forall|k: int|
            0 <= k < places.len() ==> rules[#[trigger] places[k]].outcome(tx) == Ok::<
                VerdictView,
                DomainErrorView,
            >(
                VerdictView::Triggered {
                    code: triggered_by(rules, tx)[k].code,
                    reason: triggered_by(rules, tx)[k].reason,
                },
            ),
    decreases rules.len(),
{
    if rules.len() == 0 {
        Seq::empty()
    } else {
        let rest = rules.drop_last();
        let last = rules.len() - 1;
        let earlier = lemma_places(rest, tx);
        let hit = rules.last().outcome(tx) matches Ok(VerdictView::Triggered { .. });
        let places = if hit {
            earlier.push(last)
        } else {
            earlier
        };
        assert forall|i: int| 0 <= i < rules.len() implies (places.contains(i) <==> ((
        #[trigger] rules[i]).outcome(tx) matches Ok(VerdictView::Triggered { .. }))) by {
            if i < last {
                assert(rest[i] == rules[i]);
                if earlier.contains(i) {
                    let k = choose|k: int| 0 <= k < earlier.len() && earlier[k] == i;
                    assert(places[k] == i);
                }
                if places.contains(i) {
                    let k = choose|k: int| 0 <= k < places.len() && places[k] == i;
                    assert(k < earlier.len());
                    assert(earlier[k] == i);
                }
            } else {
                assert(rules[i] == rules.last());
                if hit {
                    assert(places[earlier.len() as int] == last);
                }
            }
        }
        assert forall|k: int| 0 <= k < places.len() implies rules[#[trigger] places[k]].outcome(tx)
            == Ok::<VerdictView, DomainErrorView>(
            VerdictView::Triggered {
                code: triggered_by(rules, tx)[k].code,
                reason: triggered_by(rules, tx)[k].reason,
            },
        ) by {
            if k < earlier.len() {
                assert(places[k] == earlier[k]);
                assert(rest[earlier[k]] == rules[earlier[k]]);
                assert(triggered_by(rules, tx)[k] == triggered_by(rest, tx)[k]);
            }
        }
        places
    }
}

/// Every failure is told: there are places in the list of rules, in ascending order,
/// that are exactly those of the rules that fail, and there is one error for each of
/// them, in their order, that is that rule's error.
pub proof fn law_failures_keep_their_places(rules: Seq<RuleView>, tx: TransactionRequestView) -> (
    places: Seq<int>)
    ensures
        forall|k: int, l: int| 0 <= k < l < places.len() ==> places[k] < places[l],
        forall|k: int| 0 <= k < places.len() ==> 0 <= #[trigger] places[k] < rules.len(),
        forall|i: int|
            0 <= i < rules.len() ==> (places.contains(i) <==> (#[trigger] rules[i]).outcome(
                tx,
            ) is Err),
        failures_on(rules, tx).len() == places.len(),
        forall|k: int|
            0 <= k < places.len() ==> rules[#[trigger] places[k]].outcome(tx) == Err::<
                VerdictView,
                DomainErrorView,
            >(failures_on(rules, tx)[k]),
    decreases rules.len(),
{
    if rules.len() == 0 {
        Seq::empty()
    } else {
        let rest = rules.drop_last();
        let last = rules.len() - 1;
        let earlier = law_failures_keep_their_places(rest, tx);
        let places = if rules.last().outcome(tx) is Err {
            earlier.push(last)
        } else {
            earlier
        };
        assert forall|i: int| 0 <= i < rules.len() implies (places.contains(i) <==> (
        #[trigger] rules[i]).outcome(tx) is Err) by {
            if i < last {
                assert(rest[i] == rules[i]);
                if earlier.contains(i) {
                    let k = choose|k: int| 0 <= k < earlier.len() && earlier[k] == i;
                    assert(places[k] == i);
                }
                if places.contains(i) {
                    let k = choose|k: int| 0 <= k < places.len() && places[k] == i;
                    assert(k < earlier.len());
                    assert(earlier[k] == i);
                }
            } else {
                assert(rules[i] == rules.last());
                if rules.last().outcome(tx) is Err {
                    assert(places[earlier.len() as int] == last);
                }
            }
        }
        assert forall|k: int| 0 <= k < places.len() implies rules[#[trigger] places[k]].outcome(tx)
            == Err::<VerdictView, DomainErrorView>(failures_on(rules, tx)[k]) by {
            if k < earlier.len() {
                assert(places[k] == earlier[k]);
                assert(rest[earlier[k]] == rules[earlier[k]]);
                assert(failures_on(rules, tx)[k] == failures_on(rest, tx)[k]);
            }
        }
        places
    }
}

/// A declined transaction is told what is wrong with it, the amount before the
/// accounts, whatever the rules are.
pub proof fn law_declines_say_why(rules: Seq<RuleView>, tx: TransactionRequestView)
    ensures
        tx.amount <= 0 ==> (decision_on(rules, tx) matches DecisionView::Decline { reason } && reason
            =~= "Validation error: "@ + "Amount must be positive"@),
        tx.amount > 0 && tx.source_account == tx.destination_account ==> (decision_on(
            rules,
            tx,
        ) matches DecisionView::Decline { reason } && reason =~= "Validation error: "@
            + "Source and destination accounts must differ"@),
{
}

} // verus!
