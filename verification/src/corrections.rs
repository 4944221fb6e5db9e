//! The corrections the model proposes and the result shown to the user.

use vstd::prelude::*;

verus! {

/// Kind of change a correction makes.
#[derive(Clone, Copy, Debug, PartialEq, Eq, Structural)]
pub enum CorrectionCategory {
    Grammar,
    Spelling,
    Punctuation,
    Tone,
    Style,
    Enhancement,
}

/// How serious the corrected mistake is.
#[derive(Clone, Copy, Debug, PartialEq, Eq, Structural)]
pub enum CorrectionSeverity {
    Error,
    Warning,
    Suggestion,
}

/// A single correction made by the model.
#[derive(Clone, Debug, PartialEq, Eq)]
pub struct Correction {
    pub original: String,
    pub corrected: String,
    pub category: CorrectionCategory,
    pub severity: CorrectionSeverity,
    pub explanation: String,
}

/// What the model answers for one piece of text.
#[derive(Clone, Debug, PartialEq, Eq)]
pub struct CorrectionResponse {
    pub corrected_text: String,
    pub has_changes: bool,
    pub corrections: Vec<Correction>,
}

/// The outcome shown to the user for one piece of text.
#[derive(Clone, Debug, PartialEq, Eq)]
pub struct CorrectionResult {
    pub original_text: String,
    pub corrected_text: String,
    pub has_changes: bool,
    pub corrections: Vec<Correction>,
    pub num_corrections: usize,
}

impl CorrectionResult {
    /// Builds the result for `original_text` from the model's response; the
    /// number of corrections is the length of the response's list.
    pub fn from_response(original_text: String, response: CorrectionResponse) -> (r: Self)
        ensures
            r.original_text == original_text,
            r.corrected_text == response.corrected_text,
            r.has_changes == response.has_changes,
            r.corrections == response.corrections,
            r.num_corrections == response.corrections.len(),
    {
        let num_corrections: usize = response.corrections.len();
        CorrectionResult {
            original_text,
            corrected_text: response.corrected_text,
            has_changes: response.has_changes,
            corrections: response.corrections,
            num_corrections,
        }
    }

    /// The result for a text that needs no change: the corrected text equals
    /// the original and there are no corrections.
    pub fn no_changes(original_text: String) -> (r: Self)
        ensures
            r.original_text == original_text,
            r.corrected_text@ == original_text@,
            !r.has_changes,
            r.corrections@.len() == 0,
            r.num_corrections == 0,
    {
        CorrectionResult {
            original_text: original_text.clone(),
            corrected_text: original_text,
            has_changes: false,
            corrections: Vec::new(),
            num_corrections: 0,
        }
    }
}

} // verus!
