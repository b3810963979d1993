//! The pipeline orchestrator.
//!
//! One call sequences version inference, semantic classification, template
//! generation, oracle refinement and security analysis over the same
//! immutable node, and always returns a complete report: the two oracle
//! crossings answer with text even on failure, so no stage can abort
//! another.

use vstd::prelude::*;
use vstd::string::StringExecFns;
use crate::generate::{spec_generate, BaseGenerator};
use crate::llm::LLM;
use crate::node::Node;
use crate::refine::LLMGenerator;
use crate::security::{default_fired, spec_fired_names, SecurityAI};
use crate::semantic::{spec_meaning, spec_type_tags, SemanticEngine};
use crate::version::{default_infer, VersionAI};

verus! {

/// Everything one compilation of a node produces.
pub struct Report {
    pub language: String,
    pub version: String,
    pub meaning: String,
    pub type_tags: Vec<String>,
    pub base_code: String,
    pub refined_code: String,
    pub security_findings: Vec<String>,
}

/// The full pipeline over one oracle.
pub struct Compiler<L: LLM + Clone> {
    pub llm: L,
    pub version_ai: VersionAI,
    pub semantic: SemanticEngine,
    pub security: SecurityAI<L>,
}

impl<L: LLM + Clone> Compiler<L> {
    /// A pipeline with the default knowledge table and rule set.
    pub fn new(llm: L) -> (r: Compiler<L>)
        ensures
            forall|lang: Seq<char>, node: Node| #![auto]
                r.version_ai.spec_infer(lang, node) == default_infer(lang, node),
            forall|node: Node| #![auto]
                spec_fired_names(r.security.spec_rules(), node) == default_fired(node),
    {
        Compiler {
            version_ai: VersionAI::new(),
            semantic: SemanticEngine,
            security: SecurityAI::new(llm.clone()),
            llm,
        }
    }

    /// One complete report for `node` in `lang`: the inferred version, the
    /// meaning and type tags, the template skeleton, the oracle's
    /// refinement of that skeleton, and the security findings with the
    /// oracle's entry last.
    pub fn compile_node(&self, node: &Node, lang: &str) -> (r: Report)
        ensures
            r.language@ == lang@,
            r.version@ == self.version_ai.spec_infer(lang@, *node),
            r.meaning@ == spec_meaning(*node),
            r.type_tags.deep_view() == spec_type_tags(*node),
            r.base_code@ == spec_generate(*node, lang@),
            r.security_findings.deep_view().len() == spec_fired_names(
                self.security.spec_rules(),
                *node,
            ).len() + 1,
            r.security_findings.deep_view().subrange(
                0,
                r.security_findings.deep_view().len() - 1,
            ) == spec_fired_names(self.security.spec_rules(), *node),
    {
        let version = self.version_ai.infer(lang, node);
        let sem = self.semantic.analyze(node);
        let base_code = BaseGenerator.generate(node, lang);
        let refined_code = LLMGenerator { llm: self.llm.clone() }.refine(
            lang,
            version.as_str(),
            base_code.as_str(),
        );
        let security_findings = self.security.analyze(node);
        Report {
            language: lang.to_owned(),
            version,
            meaning: sem.meaning,
            type_tags: sem.type_tags,
            base_code,
            refined_code,
            security_findings,
        }
    }
}

} // verus!
