//! Template-based code generation.
//!
//! A node is rendered into target-language source text by structural
//! recursion: one literal template per supported language for identifiers
//! and function definitions, verbatim infix rendering for binary
//! operations, the canonical decimal text for numeric literals, and a
//! fixed placeholder comment for every unrecognized variant.  Rendering is
//! total: an unsupported language falls back to a generic shape, never to
//! a failure.

use vstd::prelude::*;
use vstd::string::StringExecFns;
use crate::node::{Node, NodeKind};
use crate::text::{join_strings, spec_join, str_eq};

verus! {

pub struct BaseGenerator;

/// The declaration-shaped text for an identifier, one template per
/// supported language; the bare name for any other language.
pub open spec fn spec_identifier_template(name: Seq<char>, lang: Seq<char>) -> Seq<char> {
    if lang == "go"@ {
        "var "@ + name + " any"@
    } else if lang == "cpp"@ {
        "auto "@ + name + ";"@
    } else if lang == "swift"@ {
        "var "@ + name + ": Any"@
    } else {
        name
    }
}

/// The keyword that opens a function definition, per language; a generic
/// `fn` shape for any other language.
pub open spec fn spec_fn_keyword(lang: Seq<char>) -> Seq<char> {
    if lang == "go"@ {
        "func "@
    } else if lang == "cpp"@ {
        "auto "@
    } else if lang == "swift"@ {
        "func "@
    } else {
        "fn "@
    }
}

/// What `generate` returns, by structural recursion over the node.
pub open spec fn spec_generate(node: Node, lang: Seq<char>) -> Seq<char>
    decreases node,
{
    match node.kind {
        NodeKind::Identifier(x) => spec_identifier_template(x@, lang),
        NodeKind::Number(t) => t@,
        NodeKind::BinaryOp { op, left, right } => spec_generate(*left, lang) + " "@ + op@ + " "@
            + spec_generate(*right, lang),
        NodeKind::Function { name, args, body } => spec_fn_keyword(lang) + name@ + "("@
            + spec_join(args.deep_view(), ", "@) + ") {\n"@ + spec_generate_body(body@, lang)
            + "\n}"@,
        NodeKind::Unknown => "/* unsupported */"@,
    }
}

/// The body statements rendered one per line.
pub open spec fn spec_generate_body(nodes: Seq<Node>, lang: Seq<char>) -> Seq<char>
    decreases nodes,
{
    if nodes.len() == 0 {
        Seq::empty()
    } else if nodes.len() == 1 {
        spec_generate(nodes[0], lang)
    } else {
        spec_generate(nodes[0], lang) + "\n"@ + spec_generate_body(nodes.drop_first(), lang)
    }
}

/// Generation is structurally recursive: a binary operation renders as
/// its rendered left operand, the operator verbatim and the rendered
/// right operand, single-space-separated, in every language.
pub proof fn lemma_generate_binary_op(node: Node, lang: Seq<char>)
    requires
        node.kind is BinaryOp,
    ensures
        spec_generate(node, lang) == spec_generate(*node.kind->left, lang) + " "@
            + node.kind->op@ + " "@ + spec_generate(*node.kind->right, lang),
{
}

impl BaseGenerator {
    /// The template-generated skeleton for `node` in `lang`: total over
    /// all variants and all languages.
    pub fn generate(&self, node: &Node, lang: &str) -> (r: String)
        ensures
            r@ == spec_generate(*node, lang@),
        decreases *node, 0int,
    {
        match &node.kind {
            NodeKind::Identifier(x) => {
                if str_eq(lang, "go") {
                    let mut s = "var ".to_owned();
                    s.append(x.as_str());
                    s.append(" any");
                    s
                } else if str_eq(lang, "cpp") {
                    let mut s = "auto ".to_owned();
                    s.append(x.as_str());
                    s.append(";");
                    s
                } else if str_eq(lang, "swift") {
                    let mut s = "var ".to_owned();
                    s.append(x.as_str());
                    s.append(": Any");
                    s
                } else {
                    x.clone()
                }
            },
            NodeKind::Number(t) => t.clone(),
            NodeKind::BinaryOp { op, left, right } => {
                let mut s = self.generate(&**left, lang);
                s.append(" ");
                s.append(op.as_str());
                s.append(" ");
                let rendered_right = self.generate(&**right, lang);
                s.append(rendered_right.as_str());
                s
            },
            NodeKind::Function { name, args, body } => {
                let mut s = if str_eq(lang, "go") {
                    "func ".to_owned()
                } else if str_eq(lang, "cpp") {
                    "auto ".to_owned()
                } else if str_eq(lang, "swift") {
                    "func ".to_owned()
                } else {
                    "fn ".to_owned()
                };
                s.append(name.as_str());
                s.append("(");
                let joined = join_strings(args, ", ");
                s.append(joined.as_str());
                s.append(") {\n");
                proof {
                    assert(body@.subrange(0, body@.len() as int) =~= body@);
                }
                let rendered_body = self.generate_body(body, 0, lang);
                s.append(rendered_body.as_str());
                s.append("\n}");
                s
            },
            NodeKind::Unknown => "/* unsupported */".to_owned(),
        }
    }

    /// Renders the body statements from index `from` on, one per line.
    fn generate_body(&self, nodes: &Vec<Node>, from: usize, lang: &str) -> (r: String)
        requires
            from <= nodes@.len(),
        ensures
            r@ == spec_generate_body(nodes@.subrange(from as int, nodes@.len() as int), lang@),
        decreases nodes@, nodes@.len() - from,
    {
        let ghost tail = nodes@.subrange(from as int, nodes@.len() as int);
        if from >= nodes.len() {
            return String::new();
        }
        proof {
            assert(tail[0] == nodes@[from as int]);
        }
        let first = self.generate(&nodes[from], lang);
        if from + 1 == nodes.len() {
            return first;
        }
        proof {
            assert(tail.drop_first() =~= nodes@.subrange(from as int + 1, nodes@.len() as int));
        }
        let mut s = first;
        s.append("\n");
        let rest = self.generate_body(nodes, from + 1, lang);
        s.append(rest.as_str());
        s
    }
}

} // verus!
