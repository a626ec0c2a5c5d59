//! The ways in which checking a unit can fail.

use vstd::prelude::*;
use vstd::string::StringExecFns;

verus! {

/// Why a unit, or the suite that holds it, was not accepted.
#[derive(Clone, Debug, PartialEq, Eq)]
pub enum CheckError {
    /// The input cannot be decoded: the envelope is not a framed UTF-8
    /// string, or an account's code is rejected by the engine's decoder.
    Decode,
    /// Neither an explicit sender nor a usable private key is available.
    SenderResolution,
    /// An expectation selects a variant that the transaction does not have.
    IndexOutOfRange,
    /// The engine's outcome disagrees with the expectation. Holds the
    /// engine's own failure text when failure was not expected, and
    /// [`unexpected_success_text`] when an expected failure did not occur.
    ExecutionMismatch(String),
}

/// [`CheckError`] with its text as a sequence of characters.
pub enum CheckErrorView {
    Decode,
    SenderResolution,
    IndexOutOfRange,
    ExecutionMismatch(Seq<char>),
}

impl View for CheckError {
    type V = CheckErrorView;

    open spec fn view(&self) -> CheckErrorView {
        match *self {
            CheckError::Decode => CheckErrorView::Decode,
            CheckError::SenderResolution => CheckErrorView::SenderResolution,
            CheckError::IndexOutOfRange => CheckErrorView::IndexOutOfRange,
            CheckError::ExecutionMismatch(s) => CheckErrorView::ExecutionMismatch(s@),
        }
    }
}

/// The verdict on a unit or a suite: accepted, or the first failure.
pub type Verdict = Result<(), CheckErrorView>;

/// The verdict that an executable result stands for.
pub open spec fn verdict_of(r: Result<(), CheckError>) -> Verdict {
    match r {
        Ok(_) => Ok(()),
        Err(e) => Err(e@),
    }
}

/// The text carried by a mismatch where failure was expected and the
/// engine succeeded.
pub open spec fn unexpected_success_text() -> Seq<char> {
    "execution unexpectedly succeeded: an exception was expected"@
}

pub open spec fn decode_text() -> Seq<char> {
    "input cannot be decoded"@
}

pub open spec fn sender_resolution_text() -> Seq<char> {
    "sender cannot be resolved: no explicit sender and no usable private key"@
}

pub open spec fn index_out_of_range_text() -> Seq<char> {
    "expectation index out of range"@
}

impl CheckErrorView {
    /// The text that describes the failure.
    pub open spec fn message(self) -> Seq<char> {
        match self {
            CheckErrorView::Decode => decode_text(),
            CheckErrorView::SenderResolution => sender_resolution_text(),
            CheckErrorView::IndexOutOfRange => index_out_of_range_text(),
            CheckErrorView::ExecutionMismatch(s) => s,
        }
    }
}

impl CheckError {
    /// The text that describes the failure.
    pub fn message(&self) -> (r: String)
        ensures
            r@ == self@.message(),
    {
        match self {
            CheckError::Decode => String::from_str("input cannot be decoded"),
            CheckError::SenderResolution => String::from_str(
                "sender cannot be resolved: no explicit sender and no usable private key",
            ),
            CheckError::IndexOutOfRange => String::from_str("expectation index out of range"),
            CheckError::ExecutionMismatch(s) => s.clone(),
        }
    }

    /// The mismatch reported when an expected failure did not occur.
    pub fn unexpected_success() -> (r: CheckError)
        ensures
            r@ == CheckErrorView::ExecutionMismatch(unexpected_success_text()),
    {
        CheckError::ExecutionMismatch(
            String::from_str("execution unexpectedly succeeded: an exception was expected"),
        )
    }
}

} // verus!
