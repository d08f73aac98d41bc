//! The library's error type.
use vstd::prelude::*;
use crate::number::IntErrorKind;

verus! {

/// Custom error type for internal errors.
#[derive(Debug, Clone, PartialEq, Eq)]
pub enum Ev3Error {
    /// Internal error with error `msg`.
    InternalError {
        /// Original error message.
        msg: String,
    },
    /// No matching device found.
    NotFound,
    /// More than one matching device found.
    MultipleMatches,
}

impl Ev3Error {
    /// A copy of this error.
    pub fn duplicate(&self) -> (r: Ev3Error)
        ensures
            r@ == self@,
    {
        match self {
            Ev3Error::InternalError { msg } => Ev3Error::InternalError { msg: msg.clone() },
            Ev3Error::NotFound => Ev3Error::NotFound,
            Ev3Error::MultipleMatches => Ev3Error::MultipleMatches,
        }
    }
}

/// What an `Ev3Error` says, as a mathematical value.
pub ghost enum ErrorView {
    InternalError(Seq<char>),
    NotFound,
    MultipleMatches,
}

impl View for Ev3Error {
    type V = ErrorView;

    open spec fn view(&self) -> ErrorView {
        match self {
            Ev3Error::InternalError { msg } => ErrorView::InternalError(msg@),
            Ev3Error::NotFound => ErrorView::NotFound,
            Ev3Error::MultipleMatches => ErrorView::MultipleMatches,
        }
    }
}

/// Helper `Result` type for easy access.
pub type Ev3Result<T> = Result<T, Ev3Error>;

/// An `Ev3Result` as a mathematical value: the deep view of the value, or the view of the error.
pub open spec fn outcome<T: DeepView>(r: Ev3Result<T>) -> Result<T::V, ErrorView> {
    match r {
        Ok(v) => Ok(v.deep_view()),
        Err(e) => Err(e@),
    }
}

/// The message of the error that `or_err` gives for `None`.
pub open spec fn unwrap_failure_text() -> Seq<char> {
    "Cannot unwrap option"@
}

/// The message that `Display` gives for a failed integer parse of each kind.
pub open spec fn int_error_text(kind: IntErrorKind) -> Seq<char> {
    match kind {
        IntErrorKind::Empty => "cannot parse integer from empty string"@,
        IntErrorKind::InvalidDigit => "invalid digit found in string"@,
        IntErrorKind::PosOverflow => "number too large to fit in target type"@,
        IntErrorKind::NegOverflow => "number too small to fit in target type"@,
    }
}

/// The `InternalError` that reports a failed integer parse.
pub fn int_error(kind: IntErrorKind) -> (e: Ev3Error)
    ensures
        e@ == ErrorView::InternalError(int_error_text(kind)),
{
    let msg = match kind {
        IntErrorKind::Empty => "cannot parse integer from empty string".to_owned(),
        IntErrorKind::InvalidDigit => "invalid digit found in string".to_owned(),
        IntErrorKind::PosOverflow => "number too large to fit in target type".to_owned(),
        IntErrorKind::NegOverflow => "number too small to fit in target type".to_owned(),
    };
    Ev3Error::InternalError { msg }
}

/// Helper trait to convert an option to an error.
pub trait OrErr<T> {
    /// Consumes the `Option<T>` and returns an `Ev3Result<T>`.
    fn or_err(self) -> Ev3Result<T>;
}

impl<T> OrErr<T> for Option<T> {
    fn or_err(self) -> (r: Ev3Result<T>)
        ensures
            match self {
                Some(v) => r == Ok::<T, Ev3Error>(v),
                None => r matches Err(e) && e@ == ErrorView::InternalError(unwrap_failure_text()),
            },
    {
        match self {
            Some(v) => Ok(v),
            None => Err(Ev3Error::InternalError { msg: "Cannot unwrap option".to_owned() }),
        }
    }
}

} // verus!
