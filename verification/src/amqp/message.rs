//! The messages that ask for transactions, and how they are read.

use crate::error::{DomainError, DomainErrorView};
use crate::timestamp::{is_moment, Timestamp, TimestampView};
use crate::text::trimmed;
use crate::transaction::{account_of_text, currency_of_text, law_account_numbers,
    law_the_four_currencies, law_why_accounts_are_refused, AccountId, Currency, TransactionRequest,
    TransactionRequestView};
use crate::transaction_id::{parse_uuid, uuid_error_text, uuid_of_text, TransactionId};
use std::str::FromStr;
use vstd::prelude::*;

verus! {

/// A message that asks for a transaction, as it came.
#[derive(Debug, Clone)]
pub struct TransactionMessage {
    pub transaction_id: String,
    pub source_account: String,
    pub destination_account: String,
    pub amount: i64,
    pub currency: String,
    /// In whole seconds after the Unix epoch.
    pub timestamp: Option<i64>,
}

/// The model of `TransactionMessage`.
pub struct TransactionMessageView {
    pub transaction_id: Seq<char>,
    pub source_account: Seq<char>,
    pub destination_account: Seq<char>,
    pub amount: i64,
    pub currency: Seq<char>,
    pub timestamp: Option<i64>,
}

impl View for TransactionMessage {
    type V = TransactionMessageView;

    open spec fn view(&self) -> TransactionMessageView {
        TransactionMessageView {
            transaction_id: self.transaction_id@,
            source_account: self.source_account@,
            destination_account: self.destination_account@,
            amount: self.amount,
            currency: self.currency@,
            timestamp: self.timestamp,
        }
    }
}

/// Why a delivery asks for no transaction.
#[derive(Debug)]
pub enum DeliveryError {
    /// The payload is no message; the text says why.
    Payload(String),
    /// An account or the currency of the message is not of the domain.
    Domain(DomainError),
    /// The identifier of the message is none; the text says why.
    TransactionId(String),
}

/// The model of `DeliveryError`.
pub enum DeliveryErrorView {
    Payload(Seq<char>),
    Domain(DomainErrorView),
    TransactionId(Seq<char>),
}

impl View for DeliveryError {
    type V = DeliveryErrorView;

    open spec fn view(&self) -> DeliveryErrorView {
        match *self {
            DeliveryError::Payload(text) => DeliveryErrorView::Payload(text@),
            DeliveryError::Domain(error) => DeliveryErrorView::Domain(error@),
            DeliveryError::TransactionId(text) => DeliveryErrorView::TransactionId(text@),
        }
    }
}

impl DeliveryErrorView {
    /// The text of the error.
    pub open spec fn text(self) -> Seq<char> {
        match self {
            DeliveryErrorView::Payload(text) => text,
            DeliveryErrorView::Domain(error) => error.text(),
            DeliveryErrorView::TransactionId(text) => text,
        }
    }
}

impl DeliveryError {
    /// The text of the error.
    pub fn to_string(&self) -> (r: String)
        ensures
            r@ == self@.text(),
    {
        match self {
            DeliveryError::Payload(text) => text.clone(),
            DeliveryError::Domain(error) => error.to_string(),
            DeliveryError::TransactionId(text) => text.clone(),
        }
    }
}

/// The model of a result of reading a delivery.
pub open spec fn delivery_view(r: Result<TransactionRequest, DeliveryError>) -> Result<
    TransactionRequestView,
    DeliveryErrorView,
> {
    match r {
        Ok(tx) => Ok(tx@),
        Err(error) => Err(error@),
    }
}

impl TransactionMessageView {
    /// The moment that the message states, where it states one.
    pub open spec fn stated_time(self) -> Option<TimestampView> {
        match self.timestamp {
            Some(secs) => if is_moment(secs as int, 0) {
                Some(TimestampView { secs: secs as int, nanos: 0 })
            } else {
                None
            },
            None => None,
        }
    }

    /// The request that the message makes at the moment, or the first thing that
    /// stands against it: the source account, the destination account, the
    /// currency or the identifier.
    pub open spec fn request_at(self, time: TimestampView) -> Result<
        TransactionRequestView,
        DeliveryErrorView,
    > {
        match account_of_text(self.source_account) {
            Err(e) => Err(DeliveryErrorView::Domain(e)),
            Ok(source_account) => match account_of_text(self.destination_account) {
                Err(e) => Err(DeliveryErrorView::Domain(e)),
                Ok(destination_account) => match currency_of_text(self.currency) {
                    Err(e) => Err(DeliveryErrorView::Domain(e)),
                    Ok(currency) => match uuid_of_text(self.transaction_id) {
                        None => Err(
                            DeliveryErrorView::TransactionId(uuid_error_text(self.transaction_id)),
                        ),
                        Some(id) => Ok(
                            TransactionRequestView {
                                id,
                                source_account,
                                destination_account,
                                amount: self.amount,
                                currency,
                                timestamp: time,
                            },
                        ),
                    },
                },
            },
        }
    }
}

impl TransactionMessage {
    /// The moment that the message states, where it states one.
    pub fn stated_time(&self) -> (r: Option<Timestamp>)
        ensures
            match r {
                Some(time) => self@.stated_time() == Some(time@),
                None => self@.stated_time() is None,
            },
            self.timestamp is None ==> r is None,
            self.timestamp matches Some(secs) ==> (r is Some <==> -8334601228800 <= secs
                <= 8210266876799),
            self.timestamp matches Some(secs) ==> (r matches Some(time) ==> time@.secs == secs
                && time@.nanos == 0),
    {
        match self.timestamp {
            Some(secs) => Timestamp::from_timestamp(secs, 0),
            None => None,
        }
    }

    /// The request that the message makes at the moment.
    pub fn request_at(&self, time: Timestamp) -> (r: Result<TransactionRequest, DeliveryError>)
        ensures
            delivery_view(r) == self@.request_at(time@),
            r matches Ok(tx) ==> {
                &&& tx.timestamp == time
                &&& tx.amount == self.amount
                &&& tx.currency.code() == self.currency@
                &&& tx.source_account@ == trimmed(self.source_account@)
                &&& tx.destination_account@ == trimmed(self.destination_account@)
                &&& uuid_of_text(self.transaction_id@) == Some(tx.id@)
            },
    {
        let source_account = match AccountId::new(self.source_account.as_str()) {
            Ok(account) => account,
            Err(e) => return Err(DeliveryError::Domain(e)),
        };
        let destination_account = match AccountId::new(self.destination_account.as_str()) {
            Ok(account) => account,
            Err(e) => return Err(DeliveryError::Domain(e)),
        };
        let currency = match Currency::from_str(self.currency.as_str()) {
            Ok(currency) => currency,
            Err(e) => return Err(DeliveryError::Domain(e)),
        };
        let id = match parse_uuid(self.transaction_id.as_str()) {
            Ok(id) => TransactionId::from_uuid(id),
            Err(e) => return Err(DeliveryError::TransactionId(e)),
        };
        Ok(
            TransactionRequest {
                id,
                source_account,
                destination_account,
                amount: self.amount,
                currency,
                timestamp: time,
            },
        )
    }
}

/// Reads a delivery whose payload was taken for a message. The request is made at
/// the moment that the message states, and now where it states none.
pub fn parse_delivery(payload: Result<TransactionMessage, String>) -> (r: Result<
    TransactionRequest,
    DeliveryError,
>)
    ensures
        match payload {
            Err(text) => delivery_view(r) == Err::<TransactionRequestView, DeliveryErrorView>(
                DeliveryErrorView::Payload(text@),
            ),
            Ok(msg) => match msg@.stated_time() {
                Some(time) => delivery_view(r) == msg@.request_at(time),
                None => exists|now: TimestampView|
                    now.is_moment() && now.secs >= 0 && now.nanos < 1_000_000_000
                        && delivery_view(r) == #[trigger] msg@.request_at(now),
            },
        },
        payload matches Ok(msg) ==> (r matches Ok(tx) ==> {
            &&& msg.timestamp matches Some(secs) ==> (-8334601228800 <= secs <= 8210266876799 ==> {
                &&& tx.timestamp@.secs == secs
                &&& tx.timestamp@.nanos == 0
            })
            &&& tx.amount == msg.amount
            &&& tx.currency.code() == msg.currency@
            &&& tx.source_account@ == trimmed(msg.source_account@)
            &&& tx.destination_account@ == trimmed(msg.destination_account@)
            &&& uuid_of_text(msg.transaction_id@) == Some(tx.id@)
        }),
{
    match payload {
        Err(text) => Err(DeliveryError::Payload(text)),
        Ok(msg) => {
            let time = match msg.stated_time() {
                Some(time) => time,
                None => Timestamp::now(),
            };
            msg.request_at(time)
        },
    }
}

/// Whether a message asks for a transaction, and which accounts, amount, currency
/// and identifier it asks for, does not depend on when it is read.
pub proof fn law_requests_keep_what_the_message_says(
    msg: TransactionMessageView,
    now: TimestampView,
    later: TimestampView,
)
    ensures
        match (msg.request_at(now), msg.request_at(later)) {
            (Ok(a), Ok(b)) => {
                &&& b == (TransactionRequestView { timestamp: later, ..a })
                &&& a.timestamp == now
                &&& a.amount == msg.amount
            },
            (Err(a), Err(b)) => a == b,
            _ => false,
        },
{
}

/// A request that a message makes at a moment is between account numbers and at that
/// moment.
pub proof fn law_requests_are_well_formed(msg: TransactionMessageView, time: TimestampView)
    requires
        time.is_moment(),
    ensures
        msg.request_at(time) matches Ok(tx) ==> tx.well_formed(),
{
    law_account_numbers(msg.source_account);
    law_account_numbers(msg.destination_account);
}

/// The moment that a message states is its timestamp, taken as whole seconds after
/// the epoch and no further, for every number of seconds that names a moment; for any
/// other, and without a timestamp, it states none.
pub proof fn law_stated_times_are_in_seconds(msg: TransactionMessageView, other: TransactionMessageView)
    ensures
        msg.timestamp is None ==> msg.stated_time() is None,
        msg.timestamp matches Some(secs) ==> (-8334601228800 <= secs <= 8210266876799 ==> (
        msg.stated_time() matches Some(time) && time.secs == secs && time.nanos == 0)),
        msg.timestamp matches Some(secs) ==> (!(-8334601228800 <= secs <= 8210266876799)
            ==> msg.stated_time() is None),
        msg.timestamp == other.timestamp ==> msg.stated_time() == other.stated_time(),
{
}

/// A message makes a request exactly where both its accounts are account numbers, its
/// currency is one of the four codes and its identifier is one; and the request is for
/// what the message says, each part in its place.
pub proof fn law_requests_are_what_the_message_asks_for(
    msg: TransactionMessageView,
    time: TimestampView,
)
    ensures
        msg.request_at(time) is Ok <==> {
            &&& account_of_text(msg.source_account) is Ok
            &&& account_of_text(msg.destination_account) is Ok
            &&& msg.currency == "RUB"@ || msg.currency == "CNY"@ || msg.currency == "USD"@
                || msg.currency == "EUR"@
            &&& uuid_of_text(msg.transaction_id) is Some
        },
        msg.request_at(time) matches Ok(tx) ==> {
            &&& uuid_of_text(msg.transaction_id) == Some(tx.id)
            &&& tx.source_account == trimmed(msg.source_account)
            &&& tx.destination_account == trimmed(msg.destination_account)
            &&& tx.amount == msg.amount
            &&& currency_of_text(msg.currency) == Ok::<Currency, DomainErrorView>(tx.currency)
            &&& tx.timestamp == time
        },
{
    law_the_four_currencies(msg.currency);
    law_why_accounts_are_refused(msg.source_account);
    law_why_accounts_are_refused(msg.destination_account);
}

/// What is wrong with a message is told in the order source account, destination
/// account, currency, identifier: the first of these that is wrong is the one told of.
pub proof fn law_the_first_fault_is_told(msg: TransactionMessageView, time: TimestampView)
    ensures
        account_of_text(msg.source_account) matches Err(e) ==> msg.request_at(time) == Err::<
            TransactionRequestView,
            DeliveryErrorView,
        >(DeliveryErrorView::Domain(e)),
        account_of_text(msg.source_account) is Ok ==> (account_of_text(
            msg.destination_account,
        ) matches Err(e) ==> msg.request_at(time) == Err::<
            TransactionRequestView,
            DeliveryErrorView,
        >(DeliveryErrorView::Domain(e))),
        account_of_text(msg.source_account) is Ok && account_of_text(msg.destination_account) is Ok
            ==> (currency_of_text(msg.currency) matches Err(e) ==> msg.request_at(time) == Err::<
            TransactionRequestView,
            DeliveryErrorView,
        >(DeliveryErrorView::Domain(e))),
        account_of_text(msg.source_account) is Ok && account_of_text(msg.destination_account) is Ok
            && currency_of_text(msg.currency) is Ok && uuid_of_text(msg.transaction_id) is None
            ==> msg.request_at(time) == Err::<TransactionRequestView, DeliveryErrorView>(
            DeliveryErrorView::TransactionId(uuid_error_text(msg.transaction_id)),
        ),
{
}

/// The model of a message keeps each of its fields in its place, that of a delivery's
/// error keeps which error it is, and that of a delivery keeps how it was read.
pub proof fn law_models_keep_messages(
    msg: TransactionMessage,
    error: DeliveryError,
    r: Result<TransactionRequest, DeliveryError>,
)
    ensures
        msg@.transaction_id == msg.transaction_id@,
        msg@.source_account == msg.source_account@,
        msg@.destination_account == msg.destination_account@,
        msg@.amount == msg.amount,
        msg@.currency == msg.currency@,
        msg@.timestamp == msg.timestamp,
        match error {
            DeliveryError::Payload(text) => error@ matches DeliveryErrorView::Payload(t) && t
                == text@,
            DeliveryError::Domain(e) => error@ matches DeliveryErrorView::Domain(d) && d == e@,
            DeliveryError::TransactionId(text) => error@ matches DeliveryErrorView::TransactionId(t)
                && t == text@,
        },
        match r {
            Ok(tx) => delivery_view(r) matches Ok(v) && v == tx@,
            Err(e) => delivery_view(r) matches Err(v) && v == e@,
        },
{
}

/// An error of a delivery is told in the words of what caused it.
pub proof fn law_delivery_error_texts(text: Seq<char>, error: DomainErrorView)
    ensures
        DeliveryErrorView::Payload(text).text() == text,
        DeliveryErrorView::TransactionId(text).text() == text,
        DeliveryErrorView::Domain(error).text() == error.text(),
{
}

} // verus!
