//! Reading the user's selection through the clipboard.

use vstd::prelude::*;
use crate::text::{blank, is_blank};

verus! {

/// What copying the selection gave.
#[derive(Debug, PartialEq, Eq)]
pub enum Capture {
    /// The selected text, and the clipboard content saved before copying it
    /// (to be put back once the correction is done).
    Selected { text: String, saved_clipboard: Option<String> },
    /// Copying failed with this message; the clipboard is left as it is.
    CopyFailed(String),
    /// Nothing but white space was selected: the saved clipboard content is
    /// put back at once and the capture fails.
    NothingSelected { saved_clipboard: Option<String> },
}

/// Judges a capture of the selection, given the clipboard content saved
/// before copying and the outcome of copying (Ctrl+C, then reading the
/// clipboard).
pub fn capture_selected_text(saved_clipboard: Option<String>, copied: Result<String, String>) -> (r:
    Capture)
    ensures
        match copied {
            Err(e) => r == Capture::CopyFailed(e),
            Ok(text) => if blank(text@) {
                r == Capture::NothingSelected { saved_clipboard }
            } else {
                r == Capture::Selected { text, saved_clipboard }
            },
        },
{
    match copied {
        Err(e) => Capture::CopyFailed(e),
        Ok(text) => {
            if is_blank(text.as_str()) {
                Capture::NothingSelected { saved_clipboard }
            } else {
                Capture::Selected { text, saved_clipboard }
            }
        },
    }
}

} // verus!
