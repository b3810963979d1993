//! The external text-generation oracle, seen only at its interface.

use vstd::prelude::*;

verus! {

/// A text-generation oracle: one total capability from prompt text to
/// response text.  Nothing is assumed of the answer; an implementation
/// represents its own failure as a textual diagnostic returned in place of
/// the expected text, and every caller here treats whatever comes back as
/// plain text and continues.
pub trait LLM {
    /// Asks the oracle.  The answer is arbitrary text.
    fn predict(&self, prompt: &str) -> String;
}

} // verus!
