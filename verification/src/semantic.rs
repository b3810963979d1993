//! Shallow semantic classification of a node.
//!
//! This is a label generator, not a type checker: it dispatches on the
//! node variant, never fails, and maps every unrecognized variant to the
//! `unknown` meaning with no type tags.

use vstd::prelude::*;
use vstd::string::StringExecFns;
use crate::node::{Node, NodeKind};

verus! {

pub struct SemanticEngine;

/// The meaning text and inferred type tags of a node.
pub struct SemanticInfo {
    pub meaning: String,
    pub type_tags: Vec<String>,
}

/// The meaning text `analyze` assigns to each variant.
pub open spec fn spec_meaning(node: Node) -> Seq<char> {
    match node.kind {
        NodeKind::Identifier(x) => "identifier '"@ + x@ + "'"@,
        NodeKind::Number(_) => "numeric literal"@,
        NodeKind::BinaryOp { op, .. } => "binary operation '"@ + op@ + "'"@,
        NodeKind::Function { name, .. } => "function '"@ + name@ + "'"@,
        NodeKind::Unknown => "unknown"@,
    }
}

/// The type tags `analyze` assigns to each variant.
pub open spec fn spec_type_tags(node: Node) -> Seq<Seq<char>> {
    match node.kind {
        NodeKind::Identifier(_) => seq!["dynamic"@],
        NodeKind::Number(_) => seq!["numeric"@],
        NodeKind::BinaryOp { .. } => seq!["computed-numeric"@],
        NodeKind::Function { .. } => seq!["function"@],
        NodeKind::Unknown => Seq::empty(),
    }
}

impl SemanticEngine {
    /// The meaning and type tags of `node`: total and pure, with the
    /// fallback variant mapped to `unknown` rather than an error.
    pub fn analyze(&self, node: &Node) -> (info: SemanticInfo)
        ensures
            info.meaning@ == spec_meaning(*node),
            info.type_tags.deep_view() == spec_type_tags(*node),
    {
        let (meaning, tag): (String, Option<&'static str>) = match &node.kind {
            NodeKind::Identifier(x) => {
                let mut m = "identifier '".to_owned();
                m.append(x.as_str());
                m.append("'");
                (m, Some("dynamic"))
            },
            NodeKind::Number(_) => ("numeric literal".to_owned(), Some("numeric")),
            NodeKind::BinaryOp { op, .. } => {
                let mut m = "binary operation '".to_owned();
                m.append(op.as_str());
                m.append("'");
                (m, Some("computed-numeric"))
            },
            NodeKind::Function { name, .. } => {
                let mut m = "function '".to_owned();
                m.append(name.as_str());
                m.append("'");
                (m, Some("function"))
            },
            NodeKind::Unknown => ("unknown".to_owned(), None),
        };
        let mut type_tags: Vec<String> = Vec::new();
        if let Some(t) = tag {
            type_tags.push(t.to_owned());
        }
        proof {
            assert(type_tags.deep_view() =~= spec_type_tags(*node));
        }
        SemanticInfo { meaning, type_tags }
    }
}

} // verus!
