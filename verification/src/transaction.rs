//! Accounts, currencies and the requests to move an amount between accounts.

use crate::error::{result_view, DomainError, DomainErrorView};
use crate::text::{all_digits, is_all_digits, is_digit, is_white_space, joined,
    law_trimming_takes_white_space_alone, lemma_trimmed_fixed, lemma_trimmed_idempotent, same_text,
    trimmed};
use crate::timestamp::{Timestamp, TimestampView};
use crate::transaction_id::{is_random_uuid, TransactionId};
use std::str::FromStr;
use vstd::prelude::*;
use vstd::std_specs::cmp::PartialEqSpec;
use vstd::utf8::{encode_utf8, is_ascii_chars, is_ascii_chars_encode_utf8};

verus! {

/// An account number: 16 digits.
pub open spec fn is_account_number(s: Seq<char>) -> bool {
    s.len() == 16 && all_digits(s)
}

/// The account number that a text writes once it is trimmed, or why it writes
/// none. The length is that of the UTF-8 encoding, and is looked at first.
pub open spec fn account_of_text(s: Seq<char>) -> Result<Seq<char>, DomainErrorView> {
    let t = trimmed(s);
    if encode_utf8(t).len() != 16 {
        Err(DomainErrorView::Validation("Account ID must be exactly 16 characters long"@))
    } else if !all_digits(t) {
        Err(DomainErrorView::Validation("Account ID must contain only digits"@))
    } else {
        Ok(t)
    }
}

/// The number of an account: 16 digits.
#[derive(Debug)]
pub struct AccountId(String);

impl View for AccountId {
    type V = Seq<char>;

    closed spec fn view(&self) -> Seq<char> {
        self.0@
    }
}

impl AccountId {
    #[verifier::type_invariant]
    closed spec fn inv(self) -> bool {
        is_account_number(self.0@)
    }

    /// The account number that a text writes, leading and trailing white space
    /// aside.
    pub fn new(s: &str) -> (r: Result<AccountId, DomainError>)
        ensures
            result_view(r) == account_of_text(s@),
    {
        let t = s.trim();
        if t.as_bytes().len() != 16 {
            return Err(
                DomainError::Validation("Account ID must be exactly 16 characters long".to_owned()),
            );
        }
        if !is_all_digits(t) {
            return Err(DomainError::Validation("Account ID must contain only digits".to_owned()));
        }
        proof {
            lemma_digits_are_ascii(t@);
        }
        Ok(AccountId(t.to_owned()))
    }

    /// The digits of the number.
    pub fn as_str(&self) -> (r: &str)
        ensures
            r@ == self@,
            is_account_number(r@),
    {
        proof {
            use_type_invariant(self);
        }
        self.0.as_str()
    }

    /// The digits of the number.
    pub fn to_string(&self) -> (r: String)
        ensures
            r@ == self@,
            is_account_number(r@),
    {
        self.as_str().to_owned()
    }
}

impl AsRef<str> for AccountId {
    fn as_ref(&self) -> (r: &str)
        ensures
            r@ == self@,
    {
        self.as_str()
    }
}

impl FromStr for AccountId {
    type Err = DomainError;

    fn from_str(s: &str) -> (r: Result<AccountId, DomainError>)
        ensures
            result_view(r) == account_of_text(s@),
    {
        AccountId::new(s)
    }
}

impl Clone for AccountId {
    fn clone(&self) -> (r: Self)
        ensures
            r == *self,
    {
        proof {
            use_type_invariant(self);
        }
        AccountId(self.0.clone())
    }
}

impl PartialEq for AccountId {
    fn eq(&self, other: &AccountId) -> (r: bool) {
        self.0 == other.0
    }
}

impl vstd::std_specs::cmp::PartialEqSpecImpl for AccountId {
    open spec fn obeys_eq_spec() -> bool {
        true
    }

    open spec fn eq_spec(&self, other: &AccountId) -> bool {
        self@ == other@
    }
}

impl Eq for AccountId {

}

/// A currency that transactions are made in.
#[derive(Debug, Clone, Copy, PartialEq, Eq, Structural)]
pub enum Currency {
    Rub,
    Cny,
    Usd,
    Eur,
}

impl Currency {
    /// The code of the currency.
    pub open spec fn code(self) -> Seq<char> {
        match self {
            Currency::Rub => seq!['R', 'U', 'B'],
            Currency::Cny => seq!['C', 'N', 'Y'],
            Currency::Usd => seq!['U', 'S', 'D'],
            Currency::Eur => seq!['E', 'U', 'R'],
        }
    }
}

/// The currency that a code names, or the complaint that it names none.
pub open spec fn currency_of_text(s: Seq<char>) -> Result<Currency, DomainErrorView> {
    if s == Currency::Rub.code() {
        Ok(Currency::Rub)
    } else if s == Currency::Cny.code() {
        Ok(Currency::Cny)
    } else if s == Currency::Usd.code() {
        Ok(Currency::Usd)
    } else if s == Currency::Eur.code() {
        Ok(Currency::Eur)
    } else {
        Err(DomainErrorView::Validation("Invalid currency: "@ + s))
    }
}

impl Currency {
    /// The code of the currency.
    pub fn to_string(&self) -> (r: String)
        ensures
            r@ == self.code(),
    {
        proof {
            lemma_codes();
        }
        match self {
            Currency::Rub => "RUB".to_owned(),
            Currency::Cny => "CNY".to_owned(),
            Currency::Usd => "USD".to_owned(),
            Currency::Eur => "EUR".to_owned(),
        }
    }
}

impl FromStr for Currency {
    type Err = DomainError;

    fn from_str(s: &str) -> (r: Result<Currency, DomainError>)
        ensures
            match r {
                Ok(currency) => currency_of_text(s@) == Ok::<Currency, DomainErrorView>(currency),
                Err(e) => currency_of_text(s@) == Err::<Currency, DomainErrorView>(e@),
            },
    {
        proof {
            lemma_codes();
        }
        if same_text(s, "RUB") {
            Ok(Currency::Rub)
        } else if same_text(s, "CNY") {
            Ok(Currency::Cny)
        } else if same_text(s, "USD") {
            Ok(Currency::Usd)
        } else if same_text(s, "EUR") {
            Ok(Currency::Eur)
        } else {
            Err(DomainError::Validation(joined("Invalid currency: ", s)))
        }
    }
}

/// A request to move an amount from one account to another.
#[derive(Debug, Clone)]
pub struct TransactionRequest {
    pub id: TransactionId,
    pub source_account: AccountId,
    pub destination_account: AccountId,
    /// In the smallest unit of the currency.
    pub amount: i64,
    pub currency: Currency,
    pub timestamp: Timestamp,
}

/// The model of `TransactionRequest`.
pub struct TransactionRequestView {
    pub id: u128,
    pub source_account: Seq<char>,
    pub destination_account: Seq<char>,
    pub amount: i64,
    pub currency: Currency,
    pub timestamp: TimestampView,
}

impl View for TransactionRequest {
    type V = TransactionRequestView;

    open spec fn view(&self) -> TransactionRequestView {
        TransactionRequestView {
            id: self.id@,
            source_account: self.source_account@,
            destination_account: self.destination_account@,
            amount: self.amount,
            currency: self.currency,
            timestamp: self.timestamp@,
        }
    }
}

impl TransactionRequestView {
    /// Whether the accounts are account numbers and the time is a moment, as they
    /// are in every request.
    pub open spec fn well_formed(self) -> bool {
        &&& is_account_number(self.source_account)
        &&& is_account_number(self.destination_account)
        &&& self.timestamp.is_moment()
    }

    /// What the request breaks, if anything: the amount is looked at first.
    pub open spec fn violation(self) -> Option<DomainErrorView> {
        if self.amount <= 0 {
            Some(DomainErrorView::Validation("Amount must be positive"@))
        } else if self.source_account == self.destination_account {
            Some(DomainErrorView::Validation("Source and destination accounts must differ"@))
        } else {
            None
        }
    }
}

impl TransactionRequest {
    /// A request made now, under a new identifier.
    pub fn new(
        source: AccountId,
        destination: AccountId,
        amount: i64,
        currency: Currency,
    ) -> (r: TransactionRequest)
        ensures
            r.source_account == source,
            r.destination_account == destination,
            r.amount == amount,
            r.currency == currency,
            is_random_uuid(r.id@),
            r.timestamp@.is_moment(),
            r.timestamp@.secs >= 0,
            r.timestamp@.nanos < 1_000_000_000,
    {
        TransactionRequest {
            id: TransactionId::new(),
            source_account: source,
            destination_account: destination,
            amount,
            currency,
            timestamp: Timestamp::now(),
        }
    }

    /// Whether the amount is positive and the accounts differ.
    pub fn validate(&self) -> (r: Result<(), DomainError>)
        ensures
            match r {
                Ok(()) => self@.violation() is None,
                Err(e) => self@.violation() == Some(e@),
            },
    {
        if self.amount <= 0 {
            return Err(DomainError::Validation("Amount must be positive".to_owned()));
        }
        if self.source_account == self.destination_account {
            return Err(
                DomainError::Validation("Source and destination accounts must differ".to_owned()),
            );
        }
        Ok(())
    }
}

/// What `AccountId::new` accepts is an account number, and every account number is
/// accepted as it stands.
pub proof fn law_account_numbers(s: Seq<char>)
    ensures
        account_of_text(s) matches Ok(number) ==> is_account_number(number),
        is_account_number(s) ==> account_of_text(s) == Ok::<Seq<char>, DomainErrorView>(s),
{
    if all_digits(trimmed(s)) {
        lemma_digits_are_ascii(trimmed(s));
    }
    if is_account_number(s) {
        assert(!is_white_space(s[0]) && !is_white_space(s[15]));
        lemma_trimmed_fixed(s);
    }
}

/// White space around a text does not matter to the account number that it writes.
pub proof fn law_white_space_around_accounts(s: Seq<char>)
    ensures
        account_of_text(trimmed(s)) == account_of_text(s),
{
    lemma_trimmed_idempotent(s);
}

/// The code of a currency names that currency, and no other text names it.
pub proof fn law_currency_codes(currency: Currency, s: Seq<char>)
    ensures
        currency_of_text(s) == Ok::<Currency, DomainErrorView>(currency) <==> s == currency.code(),
{
    assert(Currency::Rub.code()[0] == 'R' && Currency::Cny.code()[0] == 'C'
        && Currency::Usd.code()[0] == 'U' && Currency::Eur.code()[0] == 'E');
}

proof fn lemma_codes()
    ensures
        "RUB"@ == Currency::Rub.code(),
        "CNY"@ == Currency::Cny.code(),
        "USD"@ == Currency::Usd.code(),
        "EUR"@ == Currency::Eur.code(),
{
    reveal_strlit("RUB");
    reveal_strlit("CNY");
    reveal_strlit("USD");
    reveal_strlit("EUR");
}

proof fn lemma_digits_are_ascii(s: Seq<char>)
    requires
        all_digits(s),
    ensures
        encode_utf8(s).len() == s.len(),
{
    assert(is_ascii_chars(s));
    is_ascii_chars_encode_utf8(s);
}

/// An account number is read from exactly the texts that are 16 digits with nothing
/// but white space around them, and is those digits.
pub proof fn law_accounts_are_sixteen_digits(
    before: Seq<char>,
    s: Seq<char>,
    after: Seq<char>,
    other: Seq<char>,
)
    requires
        forall|i: int| 0 <= i < before.len() ==> is_white_space(#[trigger] before[i]),
        forall|i: int| 0 <= i < after.len() ==> is_white_space(#[trigger] after[i]),
        s.len() == 16,
        forall|i: int| 0 <= i < s.len() ==> '0' <= #[trigger] s[i] <= '9',
    ensures
        account_of_text(before + s + after) == Ok::<Seq<char>, DomainErrorView>(s),
        account_of_text(other) matches Ok(number) ==> {
            &&& number == trimmed(other)
            &&& number.len() == 16
            &&& forall|i: int| 0 <= i < number.len() ==> '0' <= #[trigger] number[i] <= '9'
        },
{
    assert(!is_white_space(s[0]) && !is_white_space(s[15]));
    law_trimming_takes_white_space_alone(before, s, after);
    assert(all_digits(s));
    lemma_digits_are_ascii(s);
    if all_digits(trimmed(other)) {
        lemma_digits_are_ascii(trimmed(other));
        assert(forall|i: int|
            0 <= i < trimmed(other).len() ==> is_digit(#[trigger] trimmed(other)[i]));
    }
}

/// A text that is no account number is refused for its length where its trimmed UTF-8
/// encoding is not of 16 bytes, and otherwise because something in it is no digit.
pub proof fn law_why_accounts_are_refused(s: Seq<char>)
    ensures
        encode_utf8(trimmed(s)).len() != 16 <==> account_of_text(s) == Err::<
            Seq<char>,
            DomainErrorView,
        >(DomainErrorView::Validation("Account ID must be exactly 16 characters long"@)),
        encode_utf8(trimmed(s)).len() == 16 && (exists|i: int|
            0 <= i < trimmed(s).len() && !('0' <= #[trigger] trimmed(s)[i] <= '9')) <==> account_of_text(
            s,
        ) == Err::<Seq<char>, DomainErrorView>(
            DomainErrorView::Validation("Account ID must contain only digits"@),
        ),
{
    reveal_strlit("Account ID must be exactly 16 characters long");
    reveal_strlit("Account ID must contain only digits");
    assert("Account ID must be exactly 16 characters long"@.len()
        != "Account ID must contain only digits"@.len());
    let t = trimmed(s);
    if exists|i: int| 0 <= i < t.len() && !('0' <= #[trigger] t[i] <= '9') {
        let i = choose|i: int| 0 <= i < t.len() && !('0' <= #[trigger] t[i] <= '9');
        assert(!is_digit(t[i]));
    }
}

/// The four codes name the four currencies, each its own and nothing else, and any
/// other text is refused by name.
pub proof fn law_the_four_currencies(s: Seq<char>)
    ensures
        currency_of_text(s) == Ok::<Currency, DomainErrorView>(Currency::Rub) <==> s == "RUB"@,
        currency_of_text(s) == Ok::<Currency, DomainErrorView>(Currency::Cny) <==> s == "CNY"@,
        currency_of_text(s) == Ok::<Currency, DomainErrorView>(Currency::Usd) <==> s == "USD"@,
        currency_of_text(s) == Ok::<Currency, DomainErrorView>(Currency::Eur) <==> s == "EUR"@,
        currency_of_text(s) matches Err(e) ==> e == DomainErrorView::Validation(
            "Invalid currency: "@ + s,
        ),
{
    lemma_codes();
    law_currency_codes(Currency::Rub, s);
    law_currency_codes(Currency::Cny, s);
    law_currency_codes(Currency::Usd, s);
    law_currency_codes(Currency::Eur, s);
}

/// A request breaks something exactly where its amount is not positive or its two
/// accounts are one; the amount is complained of first, and nothing else about the
/// request matters.
pub proof fn law_what_requests_break(tx: TransactionRequestView, other: TransactionRequestView)
    ensures
        tx.violation() is None <==> tx.amount > 0 && tx.source_account != tx.destination_account,
        tx.amount <= 0 ==> tx.violation() == Some(
            DomainErrorView::Validation("Amount must be positive"@),
        ),
        tx.amount > 0 && tx.source_account == tx.destination_account ==> tx.violation() == Some(
            DomainErrorView::Validation("Source and destination accounts must differ"@),
        ),
        tx.amount == other.amount && tx.source_account == other.source_account
            && tx.destination_account == other.destination_account ==> tx.violation()
            == other.violation(),
{
}

/// The model of a request keeps each of its fields in its place.
pub proof fn law_models_keep_requests(tx: TransactionRequest)
    ensures
        tx@.id == tx.id@,
        tx@.source_account == tx.source_account@,
        tx@.destination_account == tx.destination_account@,
        tx@.amount == tx.amount,
        tx@.currency == tx.currency,
        tx@.timestamp == tx.timestamp@,
{
}

/// Accounts are equal exactly where all their digits are.
pub proof fn law_accounts_are_told_apart(a: AccountId, b: AccountId)
    ensures
        a.eq_spec(&b) <==> a@ == b@,
{
}

} // verus!
