//! What can go wrong in the domain, and how it is told.

use crate::text::{integer_text, joined, natural_to_string};
use vstd::prelude::*;

verus! {

/// Why the parameters of a rule cannot be read.
#[derive(Debug)]
pub enum ParamError {
    /// A value of one type stands where another was expected.
    InvalidType { found: String, expected: String },
    /// A value of the expected type is out of its range.
    InvalidValue { found: String, expected: String },
    /// An array holds too few or too many items.
    InvalidLength { length: usize, expected: String },
    /// An object lacks the field.
    MissingField { field: String },
}

/// The model of `ParamError`.
pub enum ParamErrorView {
    InvalidType { found: Seq<char>, expected: Seq<char> },
    InvalidValue { found: Seq<char>, expected: Seq<char> },
    InvalidLength { length: int, expected: Seq<char> },
    MissingField { field: Seq<char> },
}

impl View for ParamError {
    type V = ParamErrorView;

    open spec fn view(&self) -> ParamErrorView {
        match *self {
            ParamError::InvalidType { found, expected } => ParamErrorView::InvalidType {
                found: found@,
                expected: expected@,
            },
            ParamError::InvalidValue { found, expected } => ParamErrorView::InvalidValue {
                found: found@,
                expected: expected@,
            },
            ParamError::InvalidLength { length, expected } => ParamErrorView::InvalidLength {
                length: length as int,
                expected: expected@,
            },
            ParamError::MissingField { field } => ParamErrorView::MissingField { field: field@ },
        }
    }
}

impl ParamErrorView {
    /// The text of the error.
    pub open spec fn text(self) -> Seq<char> {
        match self {
            ParamErrorView::InvalidType { found, expected } => {
                "invalid type: "@ + found + ", expected "@ + expected
            },
            ParamErrorView::InvalidValue { found, expected } => {
                "invalid value: "@ + found + ", expected "@ + expected
            },
            ParamErrorView::InvalidLength { length, expected } => {
                "invalid length "@ + integer_text(length) + ", expected "@ + expected
            },
            ParamErrorView::MissingField { field } => "missing field `"@ + field + "`"@,
        }
    }
}

/// Four texts, one after the other.
fn joined_four(a: &str, b: &str, c: &str, d: &str) -> (r: String)
    ensures
        r@ == a@ + b@ + c@ + d@,
{
    let r = joined(a, b);
    let r = joined(r.as_str(), c);
    joined(r.as_str(), d)
}

impl ParamError {
    /// The text of the error.
    pub fn to_string(&self) -> (r: String)
        ensures
            r@ == self@.text(),
    {
        match self {
            ParamError::InvalidType { found, expected } => {
                joined_four("invalid type: ", found.as_str(), ", expected ", expected.as_str())
            },
            ParamError::InvalidValue { found, expected } => {
                joined_four("invalid value: ", found.as_str(), ", expected ", expected.as_str())
            },
            ParamError::InvalidLength { length, expected } => {
                let length = natural_to_string(*length as u64);
                joined_four("invalid length ", length.as_str(), ", expected ", expected.as_str())
            },
            ParamError::MissingField { field } => {
                let prefix = joined("missing field `", field.as_str());
                joined(prefix.as_str(), "`")
            },
        }
    }
}

/// An error of the domain.
#[derive(Debug)]
pub enum DomainError {
    /// A value is outside of what the domain allows.
    Validation(String),
    /// The parameters of a rule cannot be read.
    ParamParse { rule_code: String, source: ParamError },
    /// A repository failed while it did the operation.
    Repository { operation: &'static str, message: String },
}

/// The model of `DomainError`.
pub enum DomainErrorView {
    Validation(Seq<char>),
    ParamParse { rule_code: Seq<char>, source: ParamErrorView },
    Repository { operation: Seq<char>, message: Seq<char> },
}

impl View for DomainError {
    type V = DomainErrorView;

    open spec fn view(&self) -> DomainErrorView {
        match *self {
            DomainError::Validation(message) => DomainErrorView::Validation(message@),
            DomainError::ParamParse { rule_code, source } => DomainErrorView::ParamParse {
                rule_code: rule_code@,
                source: source@,
            },
            DomainError::Repository { operation, message } => DomainErrorView::Repository {
                operation: operation@,
                message: message@,
            },
        }
    }
}

impl DomainErrorView {
    /// The text of the error.
    pub open spec fn text(self) -> Seq<char> {
        match self {
            DomainErrorView::Validation(message) => "Validation error: "@ + message,
            DomainErrorView::ParamParse { rule_code, source } => {
                "Parameter parsing error for rule "@ + rule_code + ": "@ + source.text()
            },
            DomainErrorView::Repository { operation, message } => {
                "Repository error while "@ + operation + ": "@ + message
            },
        }
    }
}

impl DomainError {
    /// The text of the error.
    pub fn to_string(&self) -> (r: String)
        ensures
            r@ == self@.text(),
    {
        match self {
            DomainError::Validation(message) => joined("Validation error: ", message.as_str()),
            DomainError::ParamParse { rule_code, source } => {
                let source_text = source.to_string();
                joined_four(
                    "Parameter parsing error for rule ",
                    rule_code.as_str(),
                    ": ",
                    source_text.as_str(),
                )
            },
            DomainError::Repository { operation, message } => {
                joined_four("Repository error while ", operation, ": ", message.as_str())
            },
        }
    }
}

/// The model of a result whose error is of the domain.
pub open spec fn result_view<T: View>(r: Result<T, DomainError>) -> Result<T::V, DomainErrorView> {
    match r {
        Ok(value) => Ok(value@),
        Err(error) => Err(error@),
    }
}

/// The model of an error keeps which error it is and every text in it, and the model
/// of a result keeps whether it succeeded.
pub proof fn law_models_keep_errors(r: Result<(), DomainError>, e: ParamError)
    ensures
        match r {
            Ok(()) => result_view(r) is Ok,
            Err(error) => result_view(r) == Err::<(), DomainErrorView>(error@) && match error {
                DomainError::Validation(message) => error@ matches DomainErrorView::Validation(m)
                    && m == message@,
                DomainError::ParamParse { rule_code, source } => error@
                    matches DomainErrorView::ParamParse { rule_code: c, source: s } && c
                    == rule_code@ && s == source@,
                DomainError::Repository { operation, message } => error@
                    matches DomainErrorView::Repository { operation: o, message: m } && o
                    == operation@ && m == message@,
            },
        },
        match e {
            ParamError::InvalidType { found, expected } => e@
                matches ParamErrorView::InvalidType { found: f, expected: x } && f == found@ && x
                == expected@,
            ParamError::InvalidValue { found, expected } => e@
                matches ParamErrorView::InvalidValue { found: f, expected: x } && f == found@ && x
                == expected@,
            ParamError::InvalidLength { length, expected } => e@
                matches ParamErrorView::InvalidLength { length: l, expected: x } && l == length
                && x == expected@,
            ParamError::MissingField { field } => e@
                matches ParamErrorView::MissingField { field: f } && f == field@,
        },
{
}

/// The model of a value that came out well is the value's model.
pub proof fn law_models_keep_values<T: View>(value: T)
    ensures
        result_view(Ok::<T, DomainError>(value)) == Ok::<T::V, DomainErrorView>(value@),
{
}

/// The text of an error of the domain begins with what went wrong, then tells the
/// rule or the operation where there is one, and ends with the whole reason.
pub proof fn law_error_texts(a: Seq<char>, b: Seq<char>, source: ParamErrorView)
    ensures
        ({
            let text = DomainErrorView::Validation(a).text();
            let head = "Validation error: "@;
            &&& text.len() == head.len() + a.len()
            &&& head.is_prefix_of(text)
            &&& a.is_suffix_of(text)
        }),
        ({
            let text = (DomainErrorView::Repository { operation: a, message: b }).text();
            let head = "Repository error while "@ + a + ": "@;
            &&& text.len() == head.len() + b.len()
            &&& head.is_prefix_of(text)
            &&& b.is_suffix_of(text)
        }),
        ({
            let text = (DomainErrorView::ParamParse { rule_code: a, source }).text();
            let head = "Parameter parsing error for rule "@ + a + ": "@;
            &&& text.len() == head.len() + source.text().len()
            &&& head.is_prefix_of(text)
            &&& source.text().is_suffix_of(text)
        }),
{
    let text = DomainErrorView::Validation(a).text();
    let head = "Validation error: "@;
    assert(text.subrange(0, head.len() as int) =~= head);
    assert(text.subrange(head.len() as int, text.len() as int) =~= a);
    let text = (DomainErrorView::Repository { operation: a, message: b }).text();
    let head = "Repository error while "@ + a + ": "@;
    assert(text.subrange(0, head.len() as int) =~= head);
    assert(text.subrange(head.len() as int, text.len() as int) =~= b);
    let text = (DomainErrorView::ParamParse { rule_code: a, source }).text();
    let head = "Parameter parsing error for rule "@ + a + ": "@;
    assert(text.subrange(0, head.len() as int) =~= head);
    assert(text.subrange(head.len() as int, text.len() as int) =~= source.text());
}

/// The text of an error in parameters says what was found before it says what was
/// expected, both in full.
pub proof fn law_param_error_texts(found: Seq<char>, expected: Seq<char>, length: int)
    ensures
        (ParamErrorView::InvalidType { found, expected }).text() =~= "invalid type: "@ + (found
            + (", expected "@ + expected)),
        (ParamErrorView::InvalidValue { found, expected }).text() =~= "invalid value: "@ + (found
            + (", expected "@ + expected)),
        (ParamErrorView::InvalidLength { length, expected }).text() =~= "invalid length "@ + (
        integer_text(length) + (", expected "@ + expected)),
        (ParamErrorView::MissingField { field: found }).text() =~= "missing field `"@ + (found
            + "`"@),
{
}

} // verus!
