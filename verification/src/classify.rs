//! Holding the engine's outcome against what an expectation declares.

use crate::engine::{outcome_of, EngineOutcome};
use crate::error::{unexpected_success_text, verdict_of, CheckError, CheckErrorView, Verdict};
use vstd::prelude::*;

verus! {

/// The verdict on an outcome. Success passes where no failure is expected,
/// and any failure passes where one is expected. A failure that is not
/// expected is a mismatch with the engine's own text; a success where a
/// failure is expected is a mismatch with a text of the library.
pub open spec fn spec_classify(expect_exception: bool, outcome: EngineOutcome) -> Verdict {
    match outcome {
        Ok(_) => if expect_exception {
            Err(CheckErrorView::ExecutionMismatch(unexpected_success_text()))
        } else {
            Ok(())
        },
        Err(text) => if expect_exception {
            Ok(())
        } else {
            Err(CheckErrorView::ExecutionMismatch(text))
        },
    }
}

/// Classifies the engine's outcome against an expectation. Only whether a
/// failure is expected counts, not which.
pub fn classify(expect_exception: bool, outcome: Result<(), String>) -> (r: Result<(), CheckError>)
    ensures
        verdict_of(r) == spec_classify(expect_exception, outcome_of(outcome)),
        r is Ok <==> (expect_exception <==> outcome is Err),
{
    match outcome {
        Ok(_) => if expect_exception {
            Err(CheckError::unexpected_success())
        } else {
            Ok(())
        },
        Err(text) => if expect_exception {
            Ok(())
        } else {
            Err(CheckError::ExecutionMismatch(text))
        },
    }
}

/// The verdict on an outcome in the strict mode: a failure passes only
/// where the category that the expectation declares is the engine's own
/// text. All else is as in [`spec_classify`].
pub open spec fn spec_classify_strict(expected: Option<Seq<char>>, outcome: EngineOutcome) -> Verdict {
    match outcome {
        Ok(_) => spec_classify(expected is Some, outcome),
        Err(text) => if expected == Some(text) {
            Ok(())
        } else {
            Err(CheckErrorView::ExecutionMismatch(text))
        },
    }
}

/// Classifies the engine's outcome in the strict mode, which holds the
/// declared category against the engine's text.
pub fn classify_strict(expected: &Option<String>, outcome: Result<(), String>) -> (r: Result<
    (),
    CheckError,
>)
    ensures
        verdict_of(r) == spec_classify_strict(
            match *expected {
                Some(category) => Some(category@),
                None => None,
            },
            outcome_of(outcome),
        ),
{
    match outcome {
        Ok(_) => classify(expected.is_some(), Ok(())),
        Err(text) => {
            let same = match expected {
                Some(category) => *category == text,
                None => false,
            };
            if same {
                Ok(())
            } else {
                Err(CheckError::ExecutionMismatch(text))
            }
        },
    }
}

/// What passes in the strict mode passes in the coarse mode.
pub proof fn lemma_strict_pass_is_coarse_pass(expected: Option<Seq<char>>, outcome: EngineOutcome)
    requires
        spec_classify_strict(expected, outcome) is Ok,
    ensures
        spec_classify(expected is Some, outcome) is Ok,
{
}

} // verus!
