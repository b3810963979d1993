//! Oracle-based refinement of generated code and whole files.
//!
//! Each function here builds an exactly specified prompt and hands it to
//! the oracle.  The answer is the oracle's text — or its textual failure
//! diagnostic — and is passed on unjudged; no caller treats it as anything
//! but plain text.

use vstd::prelude::*;
use vstd::string::StringExecFns;
use crate::llm::LLM;

verus! {

/// The prompt that asks the oracle to rewrite `code` as idiomatic
/// `lang` `version` code.
pub open spec fn spec_refine_prompt(lang: Seq<char>, version: Seq<char>, code: Seq<char>) -> Seq<
    char,
> {
    "Rewrite in idiomatic "@ + lang + " "@ + version + " code:\n"@ + code
}

/// Builds the rewrite prompt.
pub fn refine_prompt(lang: &str, version: &str, code: &str) -> (r: String)
    ensures
        r@ == spec_refine_prompt(lang@, version@, code@),
{
    let mut s = "Rewrite in idiomatic ".to_owned();
    s.append(lang);
    s.append(" ");
    s.append(version);
    s.append(" code:\n");
    s.append(code);
    s
}

/// The prompt that asks the oracle to transpile one source text.
pub open spec fn spec_transpile_prompt(lang: Seq<char>, src: Seq<char>) -> Seq<char> {
    "Transpile to "@ + lang + ":\n"@ + src
}

/// Builds the single-file transpilation prompt.
pub fn transpile_prompt(lang: &str, src: &str) -> (r: String)
    ensures
        r@ == spec_transpile_prompt(lang@, src@),
{
    let mut s = "Transpile to ".to_owned();
    s.append(lang);
    s.append(":\n");
    s.append(src);
    s
}

/// The refinement stage: asks the oracle for an improved version of a
/// generated skeleton.
pub struct LLMGenerator<L: LLM> {
    pub llm: L,
}

impl<L: LLM> LLMGenerator<L> {
    /// The oracle's rewriting of `code` for `lang` at `version` — or the
    /// oracle's failure diagnostic, kept as the answer text.
    pub fn refine(&self, lang: &str, version: &str, code: &str) -> String {
        let prompt = refine_prompt(lang, version, code);
        self.llm.predict(prompt.as_str())
    }
}

/// The oracle's transpilation of one source text into `lang` — or the
/// oracle's failure diagnostic, kept as the answer text.
pub fn transpile_file<L: LLM>(llm: &L, src: &str, lang: &str) -> String {
    let prompt = transpile_prompt(lang, src);
    llm.predict(prompt.as_str())
}

} // verus!
