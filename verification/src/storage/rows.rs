//! Transactions and rules as rows of the database.

use crate::amqp::message::TransactionMessageView;
use crate::engine::rule_views;
use crate::error::{DomainError, DomainErrorView};
use crate::json::Json;
use crate::rule::{law_the_two_rule_types, rule_type_of_text, Rule, RuleType, RuleView};
use crate::storage::operation::StorageOperation;
use crate::text::trimmed;
use crate::timestamp::{Timestamp, TimestampView};
use crate::transaction::{account_of_text, currency_of_text, law_account_numbers,
    law_currency_codes, law_the_four_currencies, law_why_accounts_are_refused, AccountId, Currency,
    TransactionRequest, TransactionRequestView};
use crate::transaction_id::{uuid_of_text, TransactionId};
use std::str::FromStr;
use vstd::prelude::*;

verus! {

/// A row of the transactions.
#[derive(Debug)]
pub struct TransactionRow {
    pub transaction_id: u128,
    pub source_account: String,
    pub destination_account: String,
    pub amount: i64,
    pub currency: String,
    pub timestamp: Timestamp,
}

/// The model of `TransactionRow`.
pub struct TransactionRowView {
    pub transaction_id: u128,
    pub source_account: Seq<char>,
    pub destination_account: Seq<char>,
    pub amount: i64,
    pub currency: Seq<char>,
    pub timestamp: TimestampView,
}

impl View for TransactionRow {
    type V = TransactionRowView;

    open spec fn view(&self) -> TransactionRowView {
        TransactionRowView {
            transaction_id: self.transaction_id,
            source_account: self.source_account@,
            destination_account: self.destination_account@,
            amount: self.amount,
            currency: self.currency@,
            timestamp: self.timestamp@,
        }
    }
}

/// The row of a transaction.
pub open spec fn row_of(tx: TransactionRequestView) -> TransactionRowView {
    TransactionRowView {
        transaction_id: tx.id,
        source_account: tx.source_account,
        destination_account: tx.destination_account,
        amount: tx.amount,
        currency: tx.currency.code(),
        timestamp: tx.timestamp,
    }
}

/// The transaction of a row, or the first of its texts that is not of the domain.
pub open spec fn transaction_of(row: TransactionRowView) -> Result<
    TransactionRequestView,
    DomainErrorView,
> {
    match account_of_text(row.source_account) {
        Err(e) => Err(StorageOperation::ParseSourceAccount.failure(e.text())),
        Ok(source_account) => match account_of_text(row.destination_account) {
            Err(e) => Err(StorageOperation::ParseDestinationAccount.failure(e.text())),
            Ok(destination_account) => match currency_of_text(row.currency) {
                Err(e) => Err(StorageOperation::ParseCurrency.failure(e.text())),
                Ok(currency) => Ok(
                    TransactionRequestView {
                        id: row.transaction_id,
                        source_account,
                        destination_account,
                        amount: row.amount,
                        currency,
                        timestamp: row.timestamp,
                    },
                ),
            },
        },
    }
}

/// The row of a transaction.
pub fn transaction_row(tx: &TransactionRequest) -> (r: TransactionRow)
    ensures
        r@ == row_of(tx@),
        transaction_of(r@) == Ok::<TransactionRequestView, DomainErrorView>(tx@),
        r.transaction_id == tx.id@,
        r.source_account@ == tx.source_account@,
        r.destination_account@ == tx.destination_account@,
        r.amount == tx.amount,
        r.currency@ == tx.currency.code(),
        r.timestamp == tx.timestamp,
{
    let row = TransactionRow {
        transaction_id: tx.id.as_uuid(),
        source_account: tx.source_account.to_string(),
        destination_account: tx.destination_account.to_string(),
        amount: tx.amount,
        currency: tx.currency.to_string(),
        timestamp: tx.timestamp,
    };
    let _ = tx.timestamp.timestamp();
    proof {
        law_rows_keep_transactions(tx@);
    }
    row
}

/// The transaction of a row.
pub fn transaction_from_row(row: &TransactionRow) -> (r: Result<TransactionRequest, DomainError>)
    ensures
        match r {
            Ok(tx) => transaction_of(row@) == Ok::<TransactionRequestView, DomainErrorView>(tx@),
            Err(e) => transaction_of(row@) == Err::<TransactionRequestView, DomainErrorView>(e@),
        },
        r matches Ok(tx) ==> {
            &&& tx.id@ == row.transaction_id
            &&& tx.source_account@ == trimmed(row.source_account@)
            &&& tx.destination_account@ == trimmed(row.destination_account@)
            &&& tx.amount == row.amount
            &&& tx.currency.code() == row.currency@
            &&& tx.timestamp == row.timestamp
        },
{
    let source_account = match AccountId::new(row.source_account.as_str()) {
        Ok(account) => account,
        Err(e) => return Err(StorageOperation::ParseSourceAccount.failed(e.to_string())),
    };
    let destination_account = match AccountId::new(row.destination_account.as_str()) {
        Ok(account) => account,
        Err(e) => return Err(StorageOperation::ParseDestinationAccount.failed(e.to_string())),
    };
    let currency = match Currency::from_str(row.currency.as_str()) {
        Ok(currency) => currency,
        Err(e) => return Err(StorageOperation::ParseCurrency.failed(e.to_string())),
    };
    Ok(
        TransactionRequest {
            id: TransactionId::from_uuid(row.transaction_id),
            source_account,
            destination_account,
            amount: row.amount,
            currency,
            timestamp: row.timestamp,
        },
    )
}

/// The transactions of the rows, in their order. The first row without one makes
/// the whole fail.
pub fn transactions_from_rows(rows: &Vec<TransactionRow>) -> (r: Result<
    Vec<TransactionRequest>,
    DomainError,
>)
    ensures
        match r {
            Ok(requests) => {
                &&& requests@.len() == rows@.len()
                &&& forall|i: int|
                    0 <= i < rows@.len() ==> transaction_of((#[trigger] rows@[i])@) == Ok::<
                        TransactionRequestView,
                        DomainErrorView,
                    >(requests@[i]@)
            },
            Err(e) => exists|i: int|
                {
                    &&& 0 <= i < rows@.len()
                    &&& transaction_of((#[trigger] rows@[i])@) == Err::<
                        TransactionRequestView,
                        DomainErrorView,
                    >(e@)
                    &&& forall|j: int|
                        0 <= j < i ==> transaction_of((#[trigger] rows@[j])@) is Ok
                },
        },
{
    let mut requests: Vec<TransactionRequest> = Vec::new();
    let mut i: usize = 0;
    while i < rows.len()
        invariant
            i <= rows.len(),
            requests@.len() == i,
            forall|j: int|
                0 <= j < i ==> transaction_of((#[trigger] rows@[j])@) == Ok::<
                    TransactionRequestView,
                    DomainErrorView,
                >(requests@[j]@),
        decreases rows.len() - i,
    {
        match transaction_from_row(&rows[i]) {
            Ok(tx) => requests.push(tx),
            Err(e) => {
                assert(transaction_of(rows@[i as int]@) == Err::<
                    TransactionRequestView,
                    DomainErrorView,
                >(e@));
                return Err(e);
            },
        }
        i += 1;
    }
    Ok(requests)
}

/// A row of the rules.
#[derive(Debug)]
pub struct RuleRow {
    pub code: String,
    pub rule_type: String,
    pub params: Json,
    pub enabled: bool,
    pub priority: i32,
    pub valid_from: Timestamp,
    pub valid_until: Option<Timestamp>,
}

impl RuleRow {
    /// The rule of the row, or that its type is none.
    pub open spec fn rule(self) -> Result<RuleView, DomainErrorView> {
        match rule_type_of_text(self.rule_type@) {
            Err(e) => Err(StorageOperation::ParseRuleType.failure(e.text())),
            Ok(rule_type) => Ok(
                RuleView {
                    code: self.code@,
                    rule_type,
                    params: self.params@,
                    enabled: self.enabled,
                    priority: self.priority,
                    valid_from: self.valid_from@,
                    valid_until: match self.valid_until {
                        Some(until) => Some(until@),
                        None => None,
                    },
                },
            ),
        }
    }
}

/// The rule of a row.
pub fn rule_from_row(row: &RuleRow) -> (r: Result<Rule, DomainError>)
    ensures
        match r {
            Ok(rule) => row.rule() == Ok::<RuleView, DomainErrorView>(rule@),
            Err(e) => row.rule() == Err::<RuleView, DomainErrorView>(e@),
        },
        r matches Ok(rule) ==> {
            &&& rule.code@ == row.code@
            &&& rule.params@ == row.params@
            &&& rule.enabled == row.enabled
            &&& rule.priority == row.priority
            &&& rule.valid_from == row.valid_from
            &&& rule.valid_until == row.valid_until
        },
{
    match RuleType::from_str(row.rule_type.as_str()) {
        Err(e) => Err(StorageOperation::ParseRuleType.failed(e.to_string())),
        Ok(rule_type) => Ok(
            Rule {
                code: row.code.clone(),
                rule_type,
                params: row.params.clone(),
                enabled: row.enabled,
                priority: row.priority,
                valid_from: row.valid_from,
                valid_until: row.valid_until,
            },
        ),
    }
}

/// The rules of the rows, in their order. The first row without one makes the whole
/// fail.
pub fn rules_from_rows(rows: &Vec<RuleRow>) -> (r: Result<Vec<Rule>, DomainError>)
    ensures
        match r {
            Ok(rules) => {
                &&& rules@.len() == rows@.len()
                &&& forall|i: int|
                    0 <= i < rows@.len() ==> (#[trigger] rows@[i]).rule() == Ok::<
                        RuleView,
                        DomainErrorView,
                    >(rule_views(rules@)[i])
            },
            Err(e) => exists|i: int|
                {
                    &&& 0 <= i < rows@.len()
                    &&& (#[trigger] rows@[i]).rule() == Err::<RuleView, DomainErrorView>(e@)
                    &&& forall|j: int| 0 <= j < i ==> (#[trigger] rows@[j]).rule() is Ok
                },
        },
{
    let mut rules: Vec<Rule> = Vec::new();
    let mut i: usize = 0;
    while i < rows.len()
        invariant
            i <= rows.len(),
            rules@.len() == i,
            forall|j: int|
                0 <= j < i ==> (#[trigger] rows@[j]).rule() == Ok::<RuleView, DomainErrorView>(
                    rules@[j]@,
                ),
        decreases rows.len() - i,
    {
        match rule_from_row(&rows[i]) {
            Ok(rule) => rules.push(rule),
            Err(e) => {
                assert(rows@[i as int].rule() == Err::<RuleView, DomainErrorView>(e@));
                return Err(e);
            },
        }
        i += 1;
    }
    Ok(rules)
}

/// Reading the row of a transaction gives the transaction back.
pub proof fn law_rows_keep_transactions(tx: TransactionRequestView)
    requires
        tx.well_formed(),
    ensures
        transaction_of(row_of(tx)) == Ok::<TransactionRequestView, DomainErrorView>(tx),
{
    law_account_numbers(tx.source_account);
    law_account_numbers(tx.destination_account);
    law_currency_codes(tx.currency, tx.currency.code());
}

/// What is stored of a request is what its message said: the currency and the
/// amount as they stand, the accounts without white space around them, and the
/// identifier that the message wrote.
pub proof fn law_rows_say_what_the_message_said(msg: TransactionMessageView, time: TimestampView)
    ensures
        msg.request_at(time) matches Ok(tx) ==> {
            let row = row_of(tx);
            &&& row.amount == msg.amount
            &&& row.currency == msg.currency
            &&& row.source_account == trimmed(msg.source_account)
            &&& row.destination_account == trimmed(msg.destination_account)
            &&& uuid_of_text(msg.transaction_id) == Some(row.transaction_id)
            &&& row.timestamp == time
        },
{
    if let Ok(tx) = msg.request_at(time) {
        law_currency_codes(tx.currency, msg.currency);
    }
}

/// A row whose type is a known one makes a rule of that type, and the rule has what the
/// row holds, unchanged, whatever the type is; a row of another type makes none.
pub proof fn law_rules_are_what_the_row_holds(row: RuleRow)
    ensures
        row.rule() is Ok <==> row.rule_type@ == "Threshold"@ || row.rule_type@ == "Blacklist"@,
        row.rule() matches Ok(rule) ==> {
            &&& rule.rule_type == RuleType::Threshold <==> row.rule_type@ == "Threshold"@
            &&& rule.rule_type == RuleType::Blacklist <==> row.rule_type@ == "Blacklist"@
            &&& rule.code == row.code@
            &&& rule.params == row.params@
            &&& rule.enabled == row.enabled
            &&& rule.priority == row.priority
            &&& rule.valid_from == row.valid_from@
            &&& row.valid_until is None <==> rule.valid_until is None
            &&& row.valid_until matches Some(until) ==> rule.valid_until == Some(until@)
        },
        row.rule() matches Err(e) ==> (e matches DomainErrorView::Repository { operation, message }
            && operation == "parse rule type from DB"@ && message =~= "Validation error: "@ + (
        "Invalid rule type: "@ + row.rule_type@)),
{
    law_the_two_rule_types(row.rule_type@);
}

/// Two rows that differ in nothing but the type make rules that differ in nothing but
/// the type.
pub proof fn law_rule_types_change_nothing_else(a: RuleRow, b: RuleRow)
    requires
        a.code@ == b.code@,
        a.params@ == b.params@,
        a.enabled == b.enabled,
        a.priority == b.priority,
        a.valid_from@ == b.valid_from@,
        a.valid_until == b.valid_until,
    ensures
        a.rule() matches Ok(left) ==> (b.rule() matches Ok(right) ==> left == (RuleView {
            rule_type: left.rule_type,
            ..right
        })),
{
}

/// The row of a transaction has each of its parts in its place, the currency by its
/// code.
pub proof fn law_rows_are_what_the_transaction_holds(tx: TransactionRequestView)
    ensures
        row_of(tx).transaction_id == tx.id,
        row_of(tx).source_account == tx.source_account,
        row_of(tx).destination_account == tx.destination_account,
        row_of(tx).amount == tx.amount,
        currency_of_text(row_of(tx).currency) == Ok::<Currency, DomainErrorView>(tx.currency),
        row_of(tx).timestamp == tx.timestamp,
{
    law_currency_codes(tx.currency, tx.currency.code());
}

/// A row makes a transaction exactly where both its accounts are account numbers and
/// its currency is one of the four codes, and the transaction has each part of the row
/// in its place; the first part that is wrong is told of, with why.
pub proof fn law_transactions_are_what_the_row_holds(row: TransactionRowView)
    ensures
        transaction_of(row) is Ok <==> {
            &&& account_of_text(row.source_account) is Ok
            &&& account_of_text(row.destination_account) is Ok
            &&& row.currency == "RUB"@ || row.currency == "CNY"@ || row.currency == "USD"@
                || row.currency == "EUR"@
        },
        transaction_of(row) matches Ok(tx) ==> {
            &&& tx.id == row.transaction_id
            &&& tx.source_account == trimmed(row.source_account)
            &&& tx.destination_account == trimmed(row.destination_account)
            &&& tx.amount == row.amount
            &&& currency_of_text(row.currency) == Ok::<Currency, DomainErrorView>(tx.currency)
            &&& tx.timestamp == row.timestamp
        },
        account_of_text(row.source_account) matches Err(e) ==> transaction_of(row) == Err::<
            TransactionRequestView,
            DomainErrorView,
        >(
            DomainErrorView::Repository {
                operation: "parse source account from DB"@,
                message: e.text(),
            },
        ),
        account_of_text(row.source_account) is Ok ==> (account_of_text(
            row.destination_account,
        ) matches Err(e) ==> transaction_of(row) == Err::<TransactionRequestView, DomainErrorView>(
            DomainErrorView::Repository {
                operation: "parse destination account from DB"@,
                message: e.text(),
            },
        )),
        account_of_text(row.source_account) is Ok && account_of_text(row.destination_account) is Ok
            ==> (currency_of_text(row.currency) matches Err(e) ==> transaction_of(row) == Err::<
            TransactionRequestView,
            DomainErrorView,
        >(DomainErrorView::Repository { operation: "parse currency from DB"@, message: e.text() })),
{
    law_the_four_currencies(row.currency);
    law_why_accounts_are_refused(row.source_account);
    law_why_accounts_are_refused(row.destination_account);
}

/// The model of a row keeps each of its fields in its place.
pub proof fn law_models_keep_rows(row: TransactionRow)
    ensures
        row@.transaction_id == row.transaction_id,
        row@.source_account == row.source_account@,
        row@.destination_account == row.destination_account@,
        row@.amount == row.amount,
        row@.currency == row.currency@,
        row@.timestamp == row.timestamp@,
{
}

} // verus!
