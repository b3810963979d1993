//! Template-generation tests: one exact expected text per variant and
//! language, and the structural-recursion law on concrete trees.

use intelligent_compiler::generate::BaseGenerator;
use intelligent_compiler::llm::LLM;
use intelligent_compiler::node::{Node, NodeKind};
use intelligent_compiler::refine::{transpile_file, LLMGenerator};
use intelligent_compiler::text::{eq_ignore_case, join_strings, lower_char, str_eq};

#[derive(Clone)]
struct EchoLLM;

impl LLM for EchoLLM {
    fn predict(&self, prompt: &str) -> String {
        format!("echo:{}", prompt)
    }
}

fn identifier(name: &str) -> Node {
    Node::new(NodeKind::Identifier(name.to_string()))
}

#[test]
fn identifier_templates_per_language() {
    let g = BaseGenerator;
    let node = identifier("x");
    assert_eq!(g.generate(&node, "go"), "var x any");
    assert_eq!(g.generate(&node, "cpp"), "auto x;");
    assert_eq!(g.generate(&node, "swift"), "var x: Any");
    assert_eq!(g.generate(&node, "haskell"), "x");
}

#[test]
fn number_renders_as_its_decimal_text() {
    let g = BaseGenerator;
    let node = Node::new(NodeKind::Number("42.5".to_string()));
    assert_eq!(g.generate(&node, "go"), "42.5");
    assert_eq!(g.generate(&node, "cobol"), "42.5");
}

#[test]
fn binary_operation_is_infix_of_its_operands() {
    let g = BaseGenerator;
    let left = identifier("a");
    let right = identifier("b");
    let node = Node::new(NodeKind::BinaryOp {
        op: "+".to_string(),
        left: Box::new(identifier("a")),
        right: Box::new(identifier("b")),
    });
    for lang in ["go", "cpp", "swift", "cobol"] {
        let combined = format!(
            "{} + {}",
            g.generate(&left, lang),
            g.generate(&right, lang)
        );
        assert_eq!(g.generate(&node, lang), combined);
    }
    assert_eq!(g.generate(&node, "go"), "var a any + var b any");
}

#[test]
fn nested_binary_operations_recurse() {
    let g = BaseGenerator;
    let inner = Node::new(NodeKind::BinaryOp {
        op: "*".to_string(),
        left: Box::new(Node::new(NodeKind::Number("2".to_string()))),
        right: Box::new(identifier("y")),
    });
    let node = Node::new(NodeKind::BinaryOp {
        op: "-".to_string(),
        left: Box::new(inner),
        right: Box::new(Node::new(NodeKind::Number("1".to_string()))),
    });
    assert_eq!(g.generate(&node, "cpp"), "2 * auto y; - 1");
}

#[test]
fn function_templates_per_language() {
    let g = BaseGenerator;
    let node = Node::new(NodeKind::Function {
        name: "f".to_string(),
        args: vec!["a".to_string(), "b".to_string()],
        body: vec![identifier("a"), identifier("b")],
    });
    assert_eq!(
        g.generate(&node, "go"),
        "func f(a, b) {\nvar a any\nvar b any\n}"
    );
    assert_eq!(g.generate(&node, "cpp"), "auto f(a, b) {\nauto a;\nauto b;\n}");
    assert_eq!(
        g.generate(&node, "swift"),
        "func f(a, b) {\nvar a: Any\nvar b: Any\n}"
    );
    assert_eq!(g.generate(&node, "cobol"), "fn f(a, b) {\na\nb\n}");
}

#[test]
fn function_with_empty_parts() {
    let g = BaseGenerator;
    let node = Node::new(NodeKind::Function {
        name: "f".to_string(),
        args: vec![],
        body: vec![],
    });
    assert_eq!(g.generate(&node, "go"), "func f() {\n\n}");
}

#[test]
fn unknown_variant_is_the_placeholder() {
    let g = BaseGenerator;
    let node = Node::new(NodeKind::Unknown);
    assert_eq!(g.generate(&node, "go"), "/* unsupported */");
    assert_eq!(g.generate(&node, "cobol"), "/* unsupported */");
}

#[test]
fn describe_renders_the_structure() {
    let node = Node::new(NodeKind::Function {
        name: "f".to_string(),
        args: vec!["a".to_string()],
        body: vec![Node::new(NodeKind::BinaryOp {
            op: "+".to_string(),
            left: Box::new(identifier("a")),
            right: Box::new(Node::new(NodeKind::Number("1".to_string()))),
        })],
    });
    assert_eq!(
        node.describe(),
        "function(f, [a], [binop(+, identifier(a), number(1))])"
    );
}

#[test]
fn refine_builds_the_exact_prompt() {
    let refiner = LLMGenerator { llm: EchoLLM };
    assert_eq!(
        refiner.refine("go", "1.21", "var x any"),
        "echo:Rewrite in idiomatic go 1.21 code:\nvar x any"
    );
}

#[test]
fn transpile_file_builds_the_exact_prompt() {
    let out = transpile_file(&EchoLLM, "fn add(a: i32, b: i32) -> i32 { a + b }", "go");
    assert_eq!(
        out,
        "echo:Transpile to go:\nfn add(a: i32, b: i32) -> i32 { a + b }"
    );
}

#[test]
fn text_helpers() {
    assert!(str_eq("go", "go"));
    assert!(!str_eq("go", "Go"));
    assert!(!str_eq("go", "golang"));
    assert!(eq_ignore_case("RS", "rs"));
    assert!(eq_ignore_case("Swift", "swift"));
    assert!(!eq_ignore_case("rs", "go"));
    assert_eq!(lower_char('A'), 'a');
    assert_eq!(lower_char('Z'), 'z');
    assert_eq!(lower_char('a'), 'a');
    assert_eq!(lower_char('.'), '.');
    let parts = vec!["a".to_string(), "b".to_string(), "c".to_string()];
    assert_eq!(join_strings(&parts, ", "), "a, b, c");
    assert_eq!(join_strings(&vec![], ", "), "");
}
