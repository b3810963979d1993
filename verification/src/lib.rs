//! A verified source-transformation pipeline.
//!
//! A pre-parsed syntax node, carrying free-form string metadata, is turned
//! into a report: an inferred target-language version, a short semantic
//! description, a template-generated code skeleton, a refinement of that
//! skeleton obtained from an external text oracle, and a list of security
//! findings.  A companion component mirrors a whole directory tree into an
//! output tree, transpiling each convertible file through the same oracle.
//!
//! The oracle itself (an external text-generation service) is reached only
//! through the `llm::LLM` trait; everything that decides, renders or
//! filters is verified here.

pub mod generate;
pub mod llm;
pub mod node;
pub mod pipeline;
pub mod project;
pub mod refine;
pub mod security;
pub mod semantic;
pub mod text;
pub mod version;
