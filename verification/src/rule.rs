//! Rules, and what a rule says of a transaction.

use crate::error::{result_view, DomainError, DomainErrorView, ParamError, ParamErrorView};
use crate::json::{find_field, is_exact, law_same_is_an_equivalence, law_same_is_equal, law_texts,
    lemma_array, texts_of, Json, JsonView};
use crate::text::{integer_text, integer_to_string, joined, same_text};
use crate::timestamp::{law_moments_are_told_apart, Timestamp, TimestampView};
use crate::transaction::{TransactionRequest, TransactionRequestView};
use std::str::FromStr;
use vstd::prelude::*;
use vstd::std_specs::cmp::PartialEqSpec;

verus! {

/// What a rule looks at.
#[derive(Debug, Clone, Copy, PartialEq, Eq, Structural)]
pub enum RuleType {
    /// The amount of the transaction.
    Threshold,
    /// The source account of the transaction.
    Blacklist,
}

/// The type of rule that a name names, or the complaint that it names none.
pub open spec fn rule_type_of_text(s: Seq<char>) -> Result<RuleType, DomainErrorView> {
    if s == "Threshold"@ {
        Ok(RuleType::Threshold)
    } else if s == "Blacklist"@ {
        Ok(RuleType::Blacklist)
    } else {
        Err(DomainErrorView::Validation("Invalid rule type: "@ + s))
    }
}

impl FromStr for RuleType {
    type Err = DomainError;

    fn from_str(s: &str) -> (r: Result<RuleType, DomainError>)
        ensures
            match r {
                Ok(rule_type) => rule_type_of_text(s@) == Ok::<RuleType, DomainErrorView>(rule_type),
                Err(e) => rule_type_of_text(s@) == Err::<RuleType, DomainErrorView>(e@),
            },
    {
        if same_text(s, "Threshold") {
            Ok(RuleType::Threshold)
        } else if same_text(s, "Blacklist") {
            Ok(RuleType::Blacklist)
        } else {
            Err(DomainError::Validation(joined("Invalid rule type: ", s)))
        }
    }
}

/// A rule that transactions are held against.
#[derive(Debug)]
pub struct Rule {
    pub code: String,
    pub rule_type: RuleType,
    pub params: Json,
    pub enabled: bool,
    pub priority: i32,
    pub valid_from: Timestamp,
    pub valid_until: Option<Timestamp>,
}

/// The model of `Rule`.
pub struct RuleView {
    pub code: Seq<char>,
    pub rule_type: RuleType,
    pub params: JsonView,
    pub enabled: bool,
    pub priority: i32,
    pub valid_from: TimestampView,
    pub valid_until: Option<TimestampView>,
}

impl View for Rule {
    type V = RuleView;

    open spec fn view(&self) -> RuleView {
        RuleView {
            code: self.code@,
            rule_type: self.rule_type,
            params: self.params@,
            enabled: self.enabled,
            priority: self.priority,
            valid_from: self.valid_from@,
            valid_until: match self.valid_until {
                Some(until) => Some(until@),
                None => None,
            },
        }
    }
}

impl Clone for Rule {
    fn clone(&self) -> (r: Self)
        ensures
            r@ == self@,
    {
        Rule {
            code: self.code.clone(),
            rule_type: self.rule_type,
            params: self.params.clone(),
            enabled: self.enabled,
            priority: self.priority,
            valid_from: self.valid_from,
            valid_until: self.valid_until,
        }
    }
}

impl RuleView {
    /// Whether the rules are the same, their parameters compared as JSON values are.
    pub open spec fn same(self, other: RuleView) -> bool {
        &&& self.code == other.code
        &&& self.rule_type == other.rule_type
        &&& self.params.same(other.params)
        &&& self.enabled == other.enabled
        &&& self.priority == other.priority
        &&& self.valid_from == other.valid_from
        &&& self.valid_until == other.valid_until
    }
}

impl PartialEq for Rule {
    fn eq(&self, other: &Rule) -> (r: bool) {
        proof {
            law_moments_are_told_apart(self.valid_from, other.valid_from);
        }
        let same_end = match (self.valid_until, other.valid_until) {
            (None, None) => true,
            (Some(a), Some(b)) => {
                proof {
                    law_moments_are_told_apart(a, b);
                }
                a == b
            },
            _ => false,
        };
        self.code == other.code && self.rule_type == other.rule_type && self.params == other.params
            && self.enabled == other.enabled && self.priority == other.priority && self.valid_from
            == other.valid_from && same_end
    }
}

impl vstd::std_specs::cmp::PartialEqSpecImpl for Rule {
    open spec fn obeys_eq_spec() -> bool {
        true
    }

    open spec fn eq_spec(&self, other: &Rule) -> bool {
        self@.same(other@)
    }
}

impl Eq for Rule {

}

/// What a rule says of a transaction.
#[derive(Debug, Clone, PartialEq, Eq)]
pub enum Verdict {
    Passed,
    Skipped { reason: String },
    Triggered { code: String, reason: String },
}

/// The model of `Verdict`.
pub enum VerdictView {
    Passed,
    Skipped { reason: Seq<char> },
    Triggered { code: Seq<char>, reason: Seq<char> },
}

impl View for Verdict {
    type V = VerdictView;

    open spec fn view(&self) -> VerdictView {
        match *self {
            Verdict::Passed => VerdictView::Passed,
            Verdict::Skipped { reason } => VerdictView::Skipped { reason: reason@ },
            Verdict::Triggered { code, reason } => VerdictView::Triggered {
                code: code@,
                reason: reason@,
            },
        }
    }
}

/// The one value that parameters of the shape, which has a single field, hold: the
/// value of the field in an object, whose other fields do not matter, or the first
/// item of an array.
pub open spec fn sole_value(params: JsonView, shape: Seq<char>, field: Seq<char>) -> Result<
    JsonView,
    ParamErrorView,
> {
    match params {
        JsonView::Object(fields) => if fields.contains_key(field) {
            Ok(fields[field])
        } else {
            Err(ParamErrorView::MissingField { field })
        },
        JsonView::Array(items) => if items.len() == 0 {
            Err(
                ParamErrorView::InvalidLength {
                    length: 0,
                    expected: "struct "@ + shape + " with 1 element"@,
                },
            )
        } else {
            Ok(items[0])
        },
        _ => Err(params.mistyped("struct "@ + shape)),
    }
}

/// The complaint that the parameters are an array with more than one item, where
/// they are.
pub open spec fn surplus(params: JsonView) -> Option<ParamErrorView> {
    match params {
        JsonView::Array(items) => if items.len() > 1 {
            Some(
                ParamErrorView::InvalidLength {
                    length: items.len() as int,
                    expected: "fewer elements in array"@,
                },
            )
        } else {
            None
        },
        _ => None,
    }
}

/// The limit that the parameters of a threshold rule set.
pub open spec fn amount_limit(params: JsonView) -> Result<i64, ParamErrorView> {
    match sole_value(params, "AmountLimitParams"@, "max_amount"@) {
        Err(e) => Err(e),
        Ok(value) => match value.integer() {
            Err(e) => Err(e),
            Ok(limit) => match surplus(params) {
                Some(e) => Err(e),
                None => Ok(limit),
            },
        },
    }
}

/// The accounts that the parameters of a blacklist rule list.
pub open spec fn blacklist(params: JsonView) -> Result<Seq<Seq<char>>, ParamErrorView> {
    match sole_value(params, "BlacklistParams"@, "blacklisted_accounts"@) {
        Err(e) => Err(e),
        Ok(value) => match value.text_list() {
            Err(e) => Err(e),
            Ok(accounts) => match surplus(params) {
                Some(e) => Err(e),
                None => Ok(accounts),
            },
        },
    }
}

/// What a threshold rule says of an amount, given the rule's limit.
pub open spec fn threshold_verdict(code: Seq<char>, limit: i64, amount: i64) -> VerdictView {
    if amount > limit {
        VerdictView::Triggered {
            code,
            reason: "Amount "@ + integer_text(amount as int) + " exceeds limit "@ + integer_text(
                limit as int,
            ),
        }
    } else {
        VerdictView::Passed
    }
}

/// What a blacklist rule says of a source account, given the rule's list.
pub open spec fn blacklist_verdict(
    code: Seq<char>,
    accounts: Seq<Seq<char>>,
    source: Seq<char>,
) -> VerdictView {
    if accounts.contains(source) {
        VerdictView::Triggered { code, reason: "Account "@ + source + " is blacklisted"@ }
    } else {
        VerdictView::Passed
    }
}

impl RuleView {
    /// Whether the rule is in force at the moment: it is enabled, its time has
    /// begun, and its time has not ended.
    pub open spec fn active_at(self, at: TimestampView) -> bool {
        &&& self.enabled
        &&& !at.before(self.valid_from)
        &&& self.valid_until matches Some(until) ==> at.before(until)
    }

    /// What the rule says of a transaction, or why it cannot say.
    pub open spec fn outcome(self, tx: TransactionRequestView) -> Result<
        VerdictView,
        DomainErrorView,
    > {
        if !self.active_at(tx.timestamp) {
            Ok(VerdictView::Skipped { reason: "Rule is not active at this time"@ })
        } else {
            match self.rule_type {
                RuleType::Threshold => match amount_limit(self.params) {
                    Ok(limit) => Ok(threshold_verdict(self.code, limit, tx.amount)),
                    Err(source) => Err(
                        DomainErrorView::ParamParse { rule_code: self.code, source },
                    ),
                },
                RuleType::Blacklist => match blacklist(self.params) {
                    Ok(accounts) => Ok(
                        blacklist_verdict(self.code, accounts, tx.source_account),
                    ),
                    Err(source) => Err(
                        DomainErrorView::ParamParse { rule_code: self.code, source },
                    ),
                },
            }
        }
    }

}

impl Rule {
    /// Whether the rule is in force at the moment.
    pub fn is_active_at(&self, at: Timestamp) -> (r: bool)
        ensures
            r == self@.active_at(at@),
    {
        if !self.enabled {
            return false;
        }
        if at.is_before(&self.valid_from) {
            return false;
        }
        if let Some(until) = &self.valid_until {
            if !at.is_before(until) {
                return false;
            }
        }
        true
    }

    /// What the rule says of a transaction.
    pub fn evaluate(&self, tx_req: &TransactionRequest) -> (r: Result<Verdict, DomainError>)
        ensures
            result_view(r) == self@.outcome(tx_req@),
    {
        if !self.is_active_at(tx_req.timestamp) {
            return Ok(Verdict::Skipped { reason: "Rule is not active at this time".to_owned() });
        }
        match self.rule_type {
            RuleType::Threshold => match AmountLimitParams::from_json(&self.params) {
                Ok(params) => {
                    if tx_req.amount > params.max_amount {
                        let amount = integer_to_string(tx_req.amount);
                        let limit = integer_to_string(params.max_amount);
                        let reason = joined("Amount ", amount.as_str());
                        let reason = joined(reason.as_str(), " exceeds limit ");
                        let reason = joined(reason.as_str(), limit.as_str());
                        Ok(Verdict::Triggered { code: self.code.clone(), reason })
                    } else {
                        Ok(Verdict::Passed)
                    }
                },
                Err(source) => Err(
                    DomainError::ParamParse { rule_code: self.code.clone(), source },
                ),
            },
            RuleType::Blacklist => match BlacklistParams::from_json(&self.params) {
                Ok(params) => {
                    let source = tx_req.source_account.as_str();
                    if params.lists(source) {
                        let reason = joined("Account ", source);
                        let reason = joined(reason.as_str(), " is blacklisted");
                        Ok(Verdict::Triggered { code: self.code.clone(), reason })
                    } else {
                        Ok(Verdict::Passed)
                    }
                },
                Err(source) => Err(
                    DomainError::ParamParse { rule_code: self.code.clone(), source },
                ),
            },
        }
    }
}

/// The one value that parameters of the shape, which has a single field, hold.
fn read_sole_value<'a>(params: &'a Json, shape: &str, field: &str) -> (r: Result<
    &'a Json,
    ParamError,
>)
    ensures
        match r {
            Ok(value) => sole_value(params@, shape@, field@) == Ok::<JsonView, ParamErrorView>(
                value@,
            ),
            Err(e) => sole_value(params@, shape@, field@) == Err::<JsonView, ParamErrorView>(
                e@,
            ),
        },
{
    let expected = joined("struct ", shape);
    match params {
        Json::Object(fields) => match find_field(fields, field) {
            Some(value) => Ok(value),
            None => Err(ParamError::MissingField { field: field.to_owned() }),
        },
        Json::Array(items) => {
            proof {
                lemma_array(*items);
            }
            if items.len() == 0 {
                Err(
                    ParamError::InvalidLength {
                        length: 0,
                        expected: joined(expected.as_str(), " with 1 element"),
                    },
                )
            } else {
                Ok(&items[0])
            }
        },
        _ => Err(params.mistyped(expected.as_str())),
    }
}

/// The complaint that the parameters are an array with more than one item, where
/// they are.
fn find_surplus(params: &Json) -> (r: Option<ParamError>)
    ensures
        match r {
            Some(e) => surplus(params@) == Some(e@),
            None => surplus(params@) is None,
        },
{
    match params {
        Json::Array(items) => if items.len() > 1 {
            Some(
                ParamError::InvalidLength {
                    length: items.len(),
                    expected: "fewer elements in array".to_owned(),
                },
            )
        } else {
            None
        },
        _ => None,
    }
}

/// The parameters of a threshold rule.
#[derive(Debug)]
pub struct AmountLimitParams {
    pub max_amount: i64,
}

impl AmountLimitParams {
    /// Reads the parameters of a threshold rule.
    pub fn from_json(params: &Json) -> (r: Result<AmountLimitParams, ParamError>)
        ensures
            match r {
                Ok(read) => amount_limit(params@) == Ok::<i64, ParamErrorView>(read.max_amount),
                Err(e) => amount_limit(params@) == Err::<i64, ParamErrorView>(e@),
            },
    {
        match read_sole_value(params, "AmountLimitParams", "max_amount") {
            Err(e) => Err(e),
            Ok(value) => match value.as_integer() {
                Err(e) => Err(e),
                Ok(max_amount) => match find_surplus(params) {
                    Some(e) => Err(e),
                    None => Ok(AmountLimitParams { max_amount }),
                },
            },
        }
    }
}

/// The parameters of a blacklist rule.
#[derive(Debug)]
pub struct BlacklistParams {
    pub blacklisted_accounts: Vec<String>,
}

impl View for BlacklistParams {
    type V = Seq<Seq<char>>;

    open spec fn view(&self) -> Seq<Seq<char>> {
        self.blacklisted_accounts@.map_values(|t: String| t@)
    }
}

impl BlacklistParams {
    /// Reads the parameters of a blacklist rule.
    pub fn from_json(params: &Json) -> (r: Result<BlacklistParams, ParamError>)
        ensures
            match r {
                Ok(read) => blacklist(params@) == Ok::<Seq<Seq<char>>, ParamErrorView>(read@),
                Err(e) => blacklist(params@) == Err::<Seq<Seq<char>>, ParamErrorView>(e@),
            },
    {
        match read_sole_value(params, "BlacklistParams", "blacklisted_accounts") {
            Err(e) => Err(e),
            Ok(value) => match value.as_text_list() {
                Err(e) => Err(e),
                Ok(blacklisted_accounts) => match find_surplus(params) {
                    Some(e) => Err(e),
                    None => Ok(BlacklistParams { blacklisted_accounts }),
                },
            },
        }
    }

    /// Whether the account is on the list.
    pub fn lists(&self, account: &str) -> (r: bool)
        ensures
            r == self@.contains(account@),
            r <==> exists|i: int|
                0 <= i < self.blacklisted_accounts@.len()
                    && (#[trigger] self.blacklisted_accounts@[i])@ == account@,
    {
        let accounts = &self.blacklisted_accounts;
        let mut i: usize = 0;
        while i < accounts.len()
            invariant
                i <= accounts.len(),
                accounts == self.blacklisted_accounts,
                forall|j: int| 0 <= j < i ==> #[trigger] self@[j] != account@,
                forall|j: int|
                    0 <= j < i ==> (#[trigger] self.blacklisted_accounts@[j])@ != account@,
            decreases accounts.len() - i,
        {
            if same_text(accounts[i].as_str(), account) {
                assert(self@[i as int] == account@);
                assert(self.blacklisted_accounts@[i as int]@ == account@);
                return true;
            }
            i += 1;
        }
        false
    }
}

/// Rules are compared as an equivalence: each is the same as itself, and being the
/// same goes both ways and passes on from rule to rule.
pub proof fn law_same_rules(a: RuleView, b: RuleView, c: RuleView)
    ensures
        a.same(a),
        a.same(b) ==> b.same(a),
        a.same(b) && b.same(c) ==> a.same(c),
{
    law_same_is_an_equivalence(a.params, b.params, c.params);
}

/// A rule is in force from its first moment on and no longer at its last; between
/// two moments at which it is in force it is in force throughout; and while it is
/// disabled it never is.
pub proof fn law_active_window(rule: RuleView, a: TimestampView, b: TimestampView, c: TimestampView)
    ensures
        !rule.enabled ==> !rule.active_at(a),
        a.before(rule.valid_from) ==> !rule.active_at(a),
        rule.valid_until matches Some(until) ==> !rule.active_at(until),
        rule.enabled && rule.valid_until is None && !a.before(rule.valid_from) ==> rule.active_at(a),
        rule.enabled && (rule.valid_until matches Some(until) ==> rule.valid_from.before(until))
            ==> rule.active_at(rule.valid_from),
        rule.active_at(a) && rule.active_at(c) && !b.before(a) && !c.before(b) ==> rule.active_at(b),
{
}

/// A rule that is not in force is skipped, whatever its parameters are.
pub proof fn law_inactive_is_skipped(rule: RuleView, tx: TransactionRequestView)
    ensures
        !rule.active_at(tx.timestamp) <==> rule.outcome(tx) matches Ok(VerdictView::Skipped { .. }),
{
}

/// Where a threshold rule is triggered by a transaction, it is triggered by the
/// same transaction with any larger amount; where it passes one, it passes any
/// smaller amount.
pub proof fn law_threshold_is_monotone(
    rule: RuleView,
    tx: TransactionRequestView,
    larger: TransactionRequestView,
)
    requires
        rule.rule_type == RuleType::Threshold,
        tx.amount <= larger.amount,
        tx.timestamp == larger.timestamp,
    ensures
        (rule.outcome(tx) matches Ok(VerdictView::Triggered { .. })) ==> (rule.outcome(
            larger,
        ) matches Ok(VerdictView::Triggered { .. })),
        rule.outcome(larger) == Ok::<VerdictView, DomainErrorView>(VerdictView::Passed)
            ==> rule.outcome(tx) == Ok::<VerdictView, DomainErrorView>(VerdictView::Passed),
{
}

/// A blacklist rule looks at the source account and the time alone.
pub proof fn law_blacklist_looks_at_the_source(
    rule: RuleView,
    a: TransactionRequestView,
    b: TransactionRequestView,
)
    requires
        rule.rule_type == RuleType::Blacklist,
        a.source_account == b.source_account,
        a.timestamp == b.timestamp,
    ensures
        rule.outcome(a) == rule.outcome(b),
{
}

/// A triggered rule tells its own code, and only a rule in force is triggered or
/// fails; where it fails, the error tells its own code.
pub proof fn law_outcome_tells_the_code(rule: RuleView, tx: TransactionRequestView)
    ensures
        rule.outcome(tx) matches Ok(VerdictView::Triggered { code, .. }) ==> code == rule.code
            && rule.active_at(tx.timestamp),
        rule.outcome(tx) matches Err(e) ==> rule.active_at(tx.timestamp) && (e matches DomainErrorView::ParamParse { rule_code, .. }
            && rule_code == rule.code),
{
}

/// The model of a rule keeps each of its fields in its place, and the model of a
/// verdict keeps which verdict it is and every text in it.
pub proof fn law_models_keep_rules(rule: Rule, verdict: Verdict)
    ensures
        rule@.code == rule.code@,
        rule@.rule_type == rule.rule_type,
        rule@.params == rule.params@,
        rule@.enabled == rule.enabled,
        rule@.priority == rule.priority,
        rule@.valid_from == rule.valid_from@,
        rule.valid_until is None <==> rule@.valid_until is None,
        rule.valid_until matches Some(until) ==> rule@.valid_until == Some(until@),
        match verdict {
            Verdict::Passed => verdict@ is Passed,
            Verdict::Skipped { reason } => verdict@ matches VerdictView::Skipped { reason: r } && r
                == reason@,
            Verdict::Triggered { code, reason } => verdict@
                matches VerdictView::Triggered { code: c, reason: r } && c == code@ && r
                == reason@,
        },
{
}

/// A rule is in force exactly where it is enabled and the time lies at or after its
/// first moment and, where it has a last one, before that; its code, type, parameters
/// and priority do not matter.
pub proof fn law_in_force_exactly(rule: RuleView, at: TimestampView)
    requires
        0 <= at.nanos < 2_000_000_000,
        0 <= rule.valid_from.nanos < 2_000_000_000,
        rule.valid_until matches Some(until) ==> 0 <= until.nanos < 2_000_000_000,
    ensures
        rule.active_at(at) <==> {
            &&& rule.enabled
            &&& rule.valid_from.secs * 2_000_000_000 + rule.valid_from.nanos <= at.secs
                * 2_000_000_000 + at.nanos
            &&& rule.valid_until matches Some(until) ==> at.secs * 2_000_000_000 + at.nanos
                < until.secs * 2_000_000_000 + until.nanos
        },
{
}

/// A rule that is not in force says so, and says nothing else.
pub proof fn law_skipped_says_why(rule: RuleView, tx: TransactionRequestView)
    requires
        !rule.active_at(tx.timestamp),
    ensures
        rule.outcome(tx) matches Ok(VerdictView::Skipped { reason }) && reason
            == "Rule is not active at this time"@,
{
}

/// A blacklist rule in force is triggered exactly where some item of its list, at
/// whatever place, is the source account, and then tells its code and that account;
/// otherwise it is passed.
pub proof fn law_blacklist_flags_every_listed_account(
    rule: RuleView,
    tx: TransactionRequestView,
    fields: Map<Seq<char>, JsonView>,
    items: Seq<JsonView>,
)
    requires
        rule.rule_type == RuleType::Blacklist,
        rule.active_at(tx.timestamp),
        rule.params == JsonView::Object(fields),
        fields.contains_key("blacklisted_accounts"@),
        fields["blacklisted_accounts"@] == JsonView::Array(items),
        forall|i: int| 0 <= i < items.len() ==> (#[trigger] items[i]) is Text,
    ensures
        (exists|i: int| 0 <= i < items.len() && #[trigger] items[i] == JsonView::Text(
            tx.source_account,
        )) <==> rule.outcome(tx) == Ok::<VerdictView, DomainErrorView>(
            VerdictView::Triggered {
                code: rule.code,
                reason: "Account "@ + tx.source_account + " is blacklisted"@,
            },
        ),
        (forall|i: int| 0 <= i < items.len() ==> #[trigger] items[i] != JsonView::Text(
            tx.source_account,
        )) <==> rule.outcome(tx) == Ok::<VerdictView, DomainErrorView>(VerdictView::Passed),
{
    law_texts(items);
    let accounts = texts_of(items)->Ok_0;
    if exists|i: int| 0 <= i < items.len() && #[trigger] items[i] == JsonView::Text(
        tx.source_account,
    ) {
        let i = choose|i: int|
            0 <= i < items.len() && #[trigger] items[i] == JsonView::Text(tx.source_account);
        assert(accounts[i] == tx.source_account);
    }
    if accounts.contains(tx.source_account) {
        let i = choose|i: int| 0 <= i < accounts.len() && accounts[i] == tx.source_account;
        assert(items[i] == JsonView::Text(tx.source_account));
    }
}

/// A threshold rule in force is triggered exactly where the amount is above its limit,
/// and then tells its code, the amount and the limit; otherwise it is passed.
pub proof fn law_threshold_flags_every_larger_amount(
    rule: RuleView,
    tx: TransactionRequestView,
    fields: Map<Seq<char>, JsonView>,
    limit: int,
)
    requires
        rule.rule_type == RuleType::Threshold,
        rule.active_at(tx.timestamp),
        rule.params == JsonView::Object(fields),
        fields.contains_key("max_amount"@),
        ({
            ||| 0 <= limit <= 0x7fff_ffff_ffff_ffff && fields["max_amount"@] == JsonView::Unsigned(
                limit as u64,
            )
            ||| -0x8000_0000_0000_0000 <= limit < 0 && fields["max_amount"@]
                == JsonView::Negative(limit as i64)
        }),
    ensures
        tx.amount > limit <==> rule.outcome(tx) == Ok::<VerdictView, DomainErrorView>(
            VerdictView::Triggered {
                code: rule.code,
                reason: "Amount "@ + integer_text(tx.amount as int) + " exceeds limit "@
                    + integer_text(limit),
            },
        ),
        tx.amount <= limit <==> rule.outcome(tx) == Ok::<VerdictView, DomainErrorView>(
            VerdictView::Passed,
        ),
{
}

/// A rule in force whose parameters are an object fails exactly where the one field
/// that its type reads is missing or holds no whole number of 64 bits, or no list of
/// texts; no other field matters.
pub proof fn law_rules_fail_exactly(
    rule: RuleView,
    tx: TransactionRequestView,
    fields: Map<Seq<char>, JsonView>,
)
    requires
        rule.active_at(tx.timestamp),
        rule.params == JsonView::Object(fields),
    ensures
        rule.rule_type == RuleType::Threshold ==> (rule.outcome(tx) is Ok <==> fields.contains_key(
            "max_amount"@,
        ) && match fields["max_amount"@] {
            JsonView::Unsigned(n) => n <= 0x7fff_ffff_ffff_ffff,
            JsonView::Negative(_) => true,
            _ => false,
        }),
        rule.rule_type == RuleType::Blacklist ==> (rule.outcome(tx) is Ok <==> fields.contains_key(
            "blacklisted_accounts"@,
        ) && (fields["blacklisted_accounts"@] matches JsonView::Array(items) && forall|i: int|
            0 <= i < items.len() ==> (#[trigger] items[i]) is Text)),
        rule.rule_type == RuleType::Threshold && !fields.contains_key("max_amount"@)
            ==> rule.outcome(tx) == Err::<VerdictView, DomainErrorView>(
            DomainErrorView::ParamParse {
                rule_code: rule.code,
                source: ParamErrorView::MissingField { field: "max_amount"@ },
            },
        ),
        rule.rule_type == RuleType::Blacklist && !fields.contains_key("blacklisted_accounts"@)
            ==> rule.outcome(tx) == Err::<VerdictView, DomainErrorView>(
            DomainErrorView::ParamParse {
                rule_code: rule.code,
                source: ParamErrorView::MissingField { field: "blacklisted_accounts"@ },
            },
        ),
        rule.rule_type == RuleType::Threshold && fields.contains_key("max_amount"@) ==> (
        fields["max_amount"@].integer() matches Err(source) ==> rule.outcome(tx) == Err::<
            VerdictView,
            DomainErrorView,
        >(DomainErrorView::ParamParse { rule_code: rule.code, source })),
        rule.rule_type == RuleType::Blacklist && fields.contains_key("blacklisted_accounts"@) ==> (
        fields["blacklisted_accounts"@].text_list() matches Err(source) ==> rule.outcome(tx)
            == Err::<VerdictView, DomainErrorView>(
            DomainErrorView::ParamParse { rule_code: rule.code, source },
        )),
{
    if fields.contains_key("blacklisted_accounts"@) {
        if let JsonView::Array(items) = fields["blacklisted_accounts"@] {
            law_texts(items);
        }
    }
}

/// Parameters in an array of one item say what they say in an object with that item
/// under the field's name; an array of any other length makes the rule fail, and so
/// does anything that is neither array nor object.
pub proof fn law_params_in_an_array(
    rule: RuleView,
    tx: TransactionRequestView,
    items: Seq<JsonView>,
    fields: Map<Seq<char>, JsonView>,
)
    requires
        rule.active_at(tx.timestamp),
    ensures
        rule.params == JsonView::Array(items) && items.len() == 1 && fields.contains_key(
            field_read_by(rule.rule_type),
        ) && fields[field_read_by(rule.rule_type)] == items[0] ==> rule.outcome(tx) == (RuleView {
            params: JsonView::Object(fields),
            ..rule
        }).outcome(tx),
        rule.params == JsonView::Array(items) && items.len() != 1 ==> rule.outcome(tx) is Err,
        !(rule.params is Array) && !(rule.params is Object) ==> rule.outcome(tx) is Err,
{
}

/// The one field of its parameters that a rule of the type reads.
pub open spec fn field_read_by(rule_type: RuleType) -> Seq<char> {
    match rule_type {
        RuleType::Threshold => "max_amount"@,
        RuleType::Blacklist => "blacklisted_accounts"@,
    }
}

/// What parameters of a wrong length or shape are refused with tells that length or
/// value, and what was expected.
pub proof fn law_why_params_are_refused(params: JsonView, shape: Seq<char>, field: Seq<char>)
    ensures
        !(params is Array) && !(params is Object) ==> sole_value(params, shape, field) == Err::<
            JsonView,
            ParamErrorView,
        >(
            ParamErrorView::InvalidType {
                found: params.description(),
                expected: "struct "@ + shape,
            },
        ),
        params matches JsonView::Array(items) ==> items.len() == 0 ==> sole_value(
            params,
            shape,
            field,
        ) == Err::<JsonView, ParamErrorView>(
            ParamErrorView::InvalidLength {
                length: 0,
                expected: "struct "@ + shape + " with 1 element"@,
            },
        ),
        params matches JsonView::Array(items) ==> items.len() > 1 ==> surplus(params) == Some(
            ParamErrorView::InvalidLength {
                length: items.len() as int,
                expected: "fewer elements in array"@,
            },
        ),
{
}

/// What a rule says depends on the transaction's amount, source account and time
/// alone, and a verdict does not depend on the rule's priority.
pub proof fn law_what_verdicts_depend_on(
    rule: RuleView,
    priority: i32,
    a: TransactionRequestView,
    b: TransactionRequestView,
)
    requires
        a.amount == b.amount,
        a.source_account == b.source_account,
        a.timestamp == b.timestamp,
    ensures
        rule.outcome(a) == (RuleView { priority, ..rule }).outcome(b),
{
}

/// The two names name the two types of rules, each its own and nothing else, and any
/// other text is refused by name.
pub proof fn law_the_two_rule_types(s: Seq<char>)
    ensures
        rule_type_of_text(s) == Ok::<RuleType, DomainErrorView>(RuleType::Threshold) <==> s
            == "Threshold"@,
        rule_type_of_text(s) == Ok::<RuleType, DomainErrorView>(RuleType::Blacklist) <==> s
            == "Blacklist"@,
        rule_type_of_text(s) matches Err(e) ==> e == DomainErrorView::Validation(
            "Invalid rule type: "@ + s,
        ),
{
    reveal_strlit("Threshold");
    reveal_strlit("Blacklist");
    assert("Threshold"@[0] != "Blacklist"@[0]);
}

/// Rules in whose parameters every number is whole are the same exactly where they
/// agree in every field.
pub proof fn law_same_rules_agree(a: RuleView, b: RuleView)
    requires
        is_exact(a.params),
    ensures
        a.same(b) <==> a == b,
{
    law_same_is_equal(a.params, b.params, Seq::empty(), Seq::empty());
}

/// Rules are equal exactly where their models are the same.
pub proof fn law_rules_are_told_apart(a: Rule, b: Rule)
    ensures
        a.eq_spec(&b) <==> a@.same(b@),
{
}

/// The parameters of a threshold rule set the limit that stands in their field or in
/// their only item, and those of a blacklist rule list every text that stands there,
/// in order.
pub proof fn law_what_params_say(
    fields: Map<Seq<char>, JsonView>,
    value: JsonView,
    limit: int,
    items: Seq<JsonView>,
)
    ensures
        value.whole() == Some(limit) && -0x8000_0000_0000_0000 <= limit <= 0x7fff_ffff_ffff_ffff
            ==> {
            &&& fields.contains_key("max_amount"@) && fields["max_amount"@] == value ==> (
            amount_limit(JsonView::Object(fields)) matches Ok(l) && l == limit)
            &&& amount_limit(JsonView::Array(seq![value])) matches Ok(l) && l == limit
        },
        value == JsonView::Array(items) && (forall|i: int|
            0 <= i < items.len() ==> (#[trigger] items[i]) is Text) ==> {
            &&& fields.contains_key("blacklisted_accounts"@) && fields["blacklisted_accounts"@]
                == value ==> (blacklist(JsonView::Object(fields)) matches Ok(told) && told.len()
                == items.len() && forall|i: int|
                0 <= i < items.len() ==> #[trigger] items[i] == JsonView::Text(told[i]))
            &&& blacklist(JsonView::Array(seq![value])) matches Ok(told) && told.len()
                == items.len() && forall|i: int|
                0 <= i < items.len() ==> #[trigger] items[i] == JsonView::Text(told[i])
        },
{
    law_texts(items);
}

/// The one value of parameters is what stands under the field's name, or the first
/// item; a missing field is told of by name; and no array of one item has a surplus.
pub proof fn law_where_the_value_stands(
    fields: Map<Seq<char>, JsonView>,
    items: Seq<JsonView>,
    shape: Seq<char>,
    field: Seq<char>,
)
    ensures
        fields.contains_key(field) ==> (sole_value(JsonView::Object(fields), shape, field)
            matches Ok(value) && value == fields[field]),
        !fields.contains_key(field) ==> (sole_value(JsonView::Object(fields), shape, field)
            matches Err(ParamErrorView::MissingField { field: told }) && told == field),
        items.len() > 0 ==> (sole_value(JsonView::Array(items), shape, field) matches Ok(value)
            && value == items[0]),
        surplus(JsonView::Array(items)) is Some <==> items.len() > 1,
        surplus(JsonView::Object(fields)) is None,
{
}

/// The model of a list of accounts is its texts, in their order.
pub proof fn law_models_keep_lists(params: BlacklistParams, i: int)
    ensures
        params@.len() == params.blacklisted_accounts@.len(),
        0 <= i < params@.len() ==> params@[i] == params.blacklisted_accounts@[i]@,
{
}

} // verus!
