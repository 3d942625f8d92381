//! The operations on the database, the order in which they are done, and the
//! error that the first failing one makes.

use crate::error::{DomainError, DomainErrorView};
use vstd::prelude::*;

verus! {

/// An operation on the database, or on what comes from it or goes to it.
#[derive(Debug, Clone, Copy, PartialEq, Eq, Structural)]
pub enum StorageOperation {
    BeginTransaction,
    InsertTransaction,
    SerializeDecision,
    InsertDecision,
    CommitTransaction,
    StoreDecision,
    StoreTransaction,
    FetchTransactions,
    ParseSourceAccount,
    ParseDestinationAccount,
    ParseCurrency,
    LoadActiveRules,
    ParseRuleType,
}

impl StorageOperation {
    /// How the operation is told.
    pub open spec fn text(self) -> Seq<char> {
        match self {
            StorageOperation::BeginTransaction => "begin db transaction"@,
            StorageOperation::InsertTransaction => "insert transaction"@,
            StorageOperation::SerializeDecision => "serialize decision to JSON"@,
            StorageOperation::InsertDecision => "insert decision"@,
            StorageOperation::CommitTransaction => "commit db transaction"@,
            StorageOperation::StoreDecision => "store decision"@,
            StorageOperation::StoreTransaction => "insert transaction into DB"@,
            StorageOperation::FetchTransactions => "fetch transactions from DB"@,
            StorageOperation::ParseSourceAccount => "parse source account from DB"@,
            StorageOperation::ParseDestinationAccount => "parse destination account from DB"@,
            StorageOperation::ParseCurrency => "parse currency from DB"@,
            StorageOperation::LoadActiveRules => "load active rules from DB"@,
            StorageOperation::ParseRuleType => "parse rule type from DB"@,
        }
    }

    /// The error that the operation makes when it fails for the reason.
    pub open spec fn failure(self, message: Seq<char>) -> DomainErrorView {
        DomainErrorView::Repository { operation: self.text(), message }
    }

    /// How the operation is told.
    pub fn name(self) -> (r: &'static str)
        ensures
            r@ == self.text(),
    {
        match self {
            StorageOperation::BeginTransaction => "begin db transaction",
            StorageOperation::InsertTransaction => "insert transaction",
            StorageOperation::SerializeDecision => "serialize decision to JSON",
            StorageOperation::InsertDecision => "insert decision",
            StorageOperation::CommitTransaction => "commit db transaction",
            StorageOperation::StoreDecision => "store decision",
            StorageOperation::StoreTransaction => "insert transaction into DB",
            StorageOperation::FetchTransactions => "fetch transactions from DB",
            StorageOperation::ParseSourceAccount => "parse source account from DB",
            StorageOperation::ParseDestinationAccount => "parse destination account from DB",
            StorageOperation::ParseCurrency => "parse currency from DB",
            StorageOperation::LoadActiveRules => "load active rules from DB",
            StorageOperation::ParseRuleType => "parse rule type from DB",
        }
    }

    /// The error that the operation makes when it fails for the reason.
    pub fn failed(self, message: String) -> (r: DomainError)
        ensures
            r@ == self.failure(message@),
    {
        DomainError::Repository { operation: self.name(), message }
    }
}

/// The operations that store a transaction together with its decision: both
/// inserts stand between the start and the end of one database transaction.
pub open spec fn insert_both_plan() -> Seq<StorageOperation> {
    seq![
        StorageOperation::BeginTransaction,
        StorageOperation::InsertTransaction,
        StorageOperation::SerializeDecision,
        StorageOperation::InsertDecision,
        StorageOperation::CommitTransaction,
    ]
}

/// The operations that store a decision alone.
pub open spec fn store_decision_plan() -> Seq<StorageOperation> {
    seq![StorageOperation::SerializeDecision, StorageOperation::StoreDecision]
}

/// The operations that store a transaction alone.
pub open spec fn store_transaction_plan() -> Seq<StorageOperation> {
    seq![StorageOperation::StoreTransaction]
}

/// What comes of an operation that turned out so, and the operations that are left
/// to be done after it: none where it failed.
pub open spec fn operation_step(
    remaining: Seq<StorageOperation>,
    outcome: Result<(), Seq<char>>,
) -> (Result<(), DomainErrorView>, Seq<StorageOperation>) {
    if remaining.len() == 0 {
        (Ok(()), remaining)
    } else {
        match outcome {
            Ok(()) => (Ok(()), remaining.drop_first()),
            Err(message) => (Err(remaining.first().failure(message)), Seq::empty()),
        }
    }
}

/// What comes of doing the operations in their order, given how each would turn
/// out: the first failure, or success.
pub open spec fn plan_result(
    plan: Seq<StorageOperation>,
    outcomes: Seq<Result<(), Seq<char>>>,
) -> Result<(), DomainErrorView>
    decreases plan.len(),
{
    if plan.len() == 0 {
        Ok(())
    } else {
        let (result, rest) = operation_step(plan, outcomes.first());
        match result {
            Err(e) => Err(e),
            Ok(()) => if rest.len() < plan.len() {
                plan_result(rest, outcomes.drop_first())
            } else {
                Ok(())
            },
        }
    }
}

/// The model of how an operation turned out.
pub open spec fn outcome_view(outcome: Result<(), String>) -> Result<(), Seq<char>> {
    match outcome {
        Ok(()) => Ok(()),
        Err(message) => Err(message@),
    }
}

/// The operations that are still to be done, in their order.
#[derive(Debug)]
pub struct OperationRun {
    plan: Vec<StorageOperation>,
    done: usize,
}

impl View for OperationRun {
    type V = Seq<StorageOperation>;

    closed spec fn view(&self) -> Seq<StorageOperation> {
        self.plan@.skip(self.done as int)
    }
}

impl OperationRun {
    #[verifier::type_invariant]
    closed spec fn inv(self) -> bool {
        self.done <= self.plan@.len()
    }

    fn from_plan(plan: Vec<StorageOperation>) -> (r: OperationRun)
        ensures
            r@ == plan@,
    {
        let run = OperationRun { plan, done: 0 };
        assert(run@ =~= plan@);
        run
    }

    /// The operations that store a transaction together with its decision.
    pub fn insert_both() -> (r: OperationRun)
        ensures
            r@ == insert_both_plan(),
    {
        let mut plan: Vec<StorageOperation> = Vec::new();
        plan.push(StorageOperation::BeginTransaction);
        plan.push(StorageOperation::InsertTransaction);
        plan.push(StorageOperation::SerializeDecision);
        plan.push(StorageOperation::InsertDecision);
        plan.push(StorageOperation::CommitTransaction);
        assert(plan@ =~= insert_both_plan());
        OperationRun::from_plan(plan)
    }

    /// The operations that store a decision alone.
    pub fn store_decision() -> (r: OperationRun)
        ensures
            r@ == store_decision_plan(),
    {
        let mut plan: Vec<StorageOperation> = Vec::new();
        plan.push(StorageOperation::SerializeDecision);
        plan.push(StorageOperation::StoreDecision);
        assert(plan@ =~= store_decision_plan());
        OperationRun::from_plan(plan)
    }

    /// The operations that store a transaction alone.
    pub fn store_transaction() -> (r: OperationRun)
        ensures
            r@ == store_transaction_plan(),
    {
        let mut plan: Vec<StorageOperation> = Vec::new();
        plan.push(StorageOperation::StoreTransaction);
        assert(plan@ =~= store_transaction_plan());
        OperationRun::from_plan(plan)
    }

    /// The operation that is to be done next, if one is left.
    pub fn current(&self) -> (r: Option<StorageOperation>)
        ensures
            r == (if self@.len() == 0 {
                None
            } else {
                Some(self@.first())
            }),
    {
        proof {
            use_type_invariant(self);
        }
        if self.done < self.plan.len() {
            Some(self.plan[self.done])
        } else {
            None
        }
    }

    /// Notes how the operation that was next has turned out. Where it failed, or
    /// where none was left, nothing more is to be done.
    pub fn report(&mut self, outcome: Result<(), String>) -> (r: Result<(), DomainError>)
        ensures
            ({
                let (result, remaining) = operation_step(old(self)@, outcome_view(outcome));
                &&& final(self)@ == remaining
                &&& match r {
                    Ok(()) => result is Ok,
                    Err(e) => result == Err::<(), DomainErrorView>(e@),
                }
            }),
    {
        proof {
            use_type_invariant(&*self);
        }
        if self.done >= self.plan.len() {
            return Ok(());
        }
        let operation = self.plan[self.done];
        match outcome {
            Ok(()) => {
                let ghost before = self@;
                self.done = self.done + 1;
                assert(self@ =~= before.drop_first());
                Ok(())
            },
            Err(message) => {
                self.done = self.plan.len();
                assert(self@ =~= Seq::<StorageOperation>::empty());
                Err(operation.failed(message))
            },
        }
    }
}

/// Operations succeed together exactly where each of them does; where one fails,
/// the error is that of the first that does.
pub proof fn law_plan_fails_with_the_first_failure(
    plan: Seq<StorageOperation>,
    outcomes: Seq<Result<(), Seq<char>>>,
    i: int,
)
    requires
        outcomes.len() == plan.len(),
    ensures
        plan_result(plan, outcomes) is Ok <==> forall|k: int|
            0 <= k < outcomes.len() ==> (#[trigger] outcomes[k]) is Ok,
        0 <= i < plan.len() && (forall|k: int| 0 <= k < i ==> (#[trigger] outcomes[k]) is Ok) ==> (
        outcomes[i] matches Err(message) ==> plan_result(plan, outcomes) == Err::<
            (),
            DomainErrorView,
        >(plan[i].failure(message))),
    decreases plan.len(),
{
    if plan.len() > 0 {
        let rest = outcomes.drop_first();
        law_plan_fails_with_the_first_failure(plan.drop_first(), rest, i - 1);
        assert(forall|k: int| 0 <= k < rest.len() ==> rest[k] == #[trigger] outcomes[k + 1]);
        if outcomes[0] is Ok {
            if forall|k: int| 0 <= k < rest.len() ==> (#[trigger] rest[k]) is Ok {
                assert forall|k: int| 0 <= k < outcomes.len() implies (
                #[trigger] outcomes[k]) is Ok by {
                    if k > 0 {
                        assert(rest[k - 1] is Ok);
                    }
                }
            }
        }
    }
}

/// The operations that are left once the first of them have turned out so.
pub open spec fn remaining_after(
    plan: Seq<StorageOperation>,
    outcomes: Seq<Result<(), Seq<char>>>,
) -> Seq<StorageOperation>
    decreases outcomes.len(),
{
    if outcomes.len() == 0 {
        plan
    } else {
        operation_step(remaining_after(plan, outcomes.drop_last()), outcomes.last()).1
    }
}

/// An operation is to be done only once all operations before it have gone well.
pub proof fn law_operations_come_in_order(
    plan: Seq<StorageOperation>,
    outcomes: Seq<Result<(), Seq<char>>>,
)
    ensures
        remaining_after(plan, outcomes).len() > 0 ==> {
            &&& outcomes.len() < plan.len()
            &&& remaining_after(plan, outcomes).first() == plan[outcomes.len() as int]
            &&& remaining_after(plan, outcomes) == plan.skip(outcomes.len() as int)
            &&& forall|k: int| 0 <= k < outcomes.len() ==> (#[trigger] outcomes[k]) is Ok
        },
    decreases outcomes.len(),
{
    if outcomes.len() == 0 {
        assert(plan.skip(0) =~= plan);
    } else {
        let earlier = outcomes.drop_last();
        law_operations_come_in_order(plan, earlier);
        if remaining_after(plan, outcomes).len() > 0 {
            assert(plan.skip(earlier.len() as int).drop_first() =~= plan.skip(
                outcomes.len() as int,
            ));
            assert forall|k: int| 0 <= k < outcomes.len() implies (
            #[trigger] outcomes[k]) is Ok by {
                if k < earlier.len() {
                    assert(earlier[k] is Ok);
                }
            }
        }
    }
}

/// The database transaction is to be committed only once it was begun and both the
/// transaction and its decision were inserted into it.
pub proof fn law_commit_comes_last(outcomes: Seq<Result<(), Seq<char>>>)
    requires
        remaining_after(insert_both_plan(), outcomes).len() > 0,
        remaining_after(insert_both_plan(), outcomes).first()
            == StorageOperation::CommitTransaction,
    ensures
        outcomes.len() == insert_both_plan().len() - 1,
        forall|k: int| 0 <= k < outcomes.len() ==> (#[trigger] outcomes[k]) is Ok,
        insert_both_plan().take(outcomes.len() as int).contains(StorageOperation::BeginTransaction),
        insert_both_plan().take(outcomes.len() as int).contains(StorageOperation::InsertTransaction),
        insert_both_plan().take(outcomes.len() as int).contains(StorageOperation::InsertDecision),
{
    law_operations_come_in_order(insert_both_plan(), outcomes);
    let done = insert_both_plan().take(outcomes.len() as int);
    assert(done[0] == StorageOperation::BeginTransaction);
    assert(done[1] == StorageOperation::InsertTransaction);
    assert(done[3] == StorageOperation::InsertDecision);
}

/// An operation that fails makes an error of the repository that tells the operation
/// and the whole reason; it ends everything, and one that goes well is followed by the
/// rest, in their order.
pub proof fn law_what_comes_of_an_operation(
    operation: StorageOperation,
    rest: Seq<StorageOperation>,
    message: Seq<char>,
)
    ensures
        ({
            let remaining = seq![operation] + rest;
            let (well, left) = operation_step(remaining, Ok::<(), Seq<char>>(()));
            let (badly, none) = operation_step(remaining, Err::<(), Seq<char>>(message));
            &&& well is Ok
            &&& left =~= rest
            &&& badly matches Err(DomainErrorView::Repository { operation: o, message: m }) && o
                == operation.text() && m == message
            &&& none.len() == 0
        }),
        operation.failure(message) matches DomainErrorView::Repository {
            operation: o,
            message: m,
        } && o == operation.text() && m == message,
{
    let remaining = seq![operation] + rest;
    assert(remaining.drop_first() =~= rest);
}

/// Where no operation is left, nothing comes of a report but that none is left.
pub proof fn law_nothing_comes_after_the_last(outcome: Result<(), Seq<char>>)
    ensures
        operation_step(Seq::empty(), outcome).0 is Ok,
        operation_step(Seq::empty(), outcome).1.len() == 0,
{
}

/// Operations are told apart by their texts.
pub proof fn law_operations_are_told_apart(a: StorageOperation, b: StorageOperation)
    ensures
        a.text() == b.text() ==> a == b,
{
    lemma_text_lengths(a);
    lemma_text_lengths(b);
}

proof fn lemma_text_lengths(a: StorageOperation)
    ensures
        a == StorageOperation::BeginTransaction ==> a.text().len() == 20,
        a == StorageOperation::InsertTransaction ==> a.text().len() == 18,
        a == StorageOperation::SerializeDecision ==> a.text().len() == 26 && a.text()[0] == 's',
        a == StorageOperation::InsertDecision ==> a.text().len() == 15,
        a == StorageOperation::CommitTransaction ==> a.text().len() == 21,
        a == StorageOperation::StoreDecision ==> a.text().len() == 14,
        a == StorageOperation::StoreTransaction ==> a.text().len() == 26 && a.text()[0] == 'i',
        a == StorageOperation::FetchTransactions ==> a.text().len() == 26 && a.text()[0] == 'f',
        a == StorageOperation::ParseSourceAccount ==> a.text().len() == 28,
        a == StorageOperation::ParseDestinationAccount ==> a.text().len() == 33,
        a == StorageOperation::ParseCurrency ==> a.text().len() == 22,
        a == StorageOperation::LoadActiveRules ==> a.text().len() == 25,
        a == StorageOperation::ParseRuleType ==> a.text().len() == 23,
{
    reveal_strlit("begin db transaction");
    reveal_strlit("insert transaction");
    reveal_strlit("serialize decision to JSON");
    reveal_strlit("insert decision");
    reveal_strlit("commit db transaction");
    reveal_strlit("store decision");
    reveal_strlit("insert transaction into DB");
    reveal_strlit("fetch transactions from DB");
    reveal_strlit("parse source account from DB");
    reveal_strlit("parse destination account from DB");
    reveal_strlit("parse currency from DB");
    reveal_strlit("load active rules from DB");
    reveal_strlit("parse rule type from DB");
}

/// The model of an outcome keeps whether the operation went well, and why it did not.
pub proof fn law_models_keep_outcomes(outcome: Result<(), String>)
    ensures
        outcome is Ok <==> outcome_view(outcome) is Ok,
        outcome matches Err(message) ==> outcome_view(outcome) == Err::<(), Seq<char>>(message@),
{
}

} // verus!
