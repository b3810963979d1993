//! End-to-end pipeline tests over a deterministic oracle stub.

use intelligent_compiler::llm::LLM;
use intelligent_compiler::node::{Node, NodeKind};
use intelligent_compiler::pipeline::Compiler;
use intelligent_compiler::security::{security_prompt, SecurityAI};
use intelligent_compiler::semantic::SemanticEngine;
use intelligent_compiler::version::VersionAI;

/// A deterministic stand-in for the oracle: answers `echo:` plus the prompt.
#[derive(Clone)]
struct EchoLLM;

impl LLM for EchoLLM {
    fn predict(&self, prompt: &str) -> String {
        format!("echo:{}", prompt)
    }
}

fn identifier(name: &str) -> Node {
    Node::new(NodeKind::Identifier(name.to_string()))
}

#[test]
fn infer_go_generics_override() {
    let ai = VersionAI::new();
    let mut node = identifier("x");
    node.insert_meta("uses_generics".to_string(), "true".to_string());
    node.insert_meta("unrelated".to_string(), "true".to_string());
    assert_eq!(ai.infer("go", &node), "1.21");
}

#[test]
fn infer_go_without_flag_takes_last_entry() {
    let ai = VersionAI::new();
    let node = identifier("x");
    assert_eq!(ai.infer("go", &node), "1.21");
}

#[test]
fn infer_known_languages() {
    let ai = VersionAI::new();
    let node = identifier("x");
    assert_eq!(ai.infer("cpp", &node), "23");
    assert_eq!(ai.infer("swift", &node), "6.0");
}

#[test]
fn infer_unknown_language_is_sentinel() {
    let ai = VersionAI::new();
    let node = identifier("x");
    assert_eq!(ai.infer("cobol", &node), "unknown");
    assert_eq!(ai.infer("", &node), "unknown");
    let unknown = Node::new(NodeKind::Unknown);
    assert_eq!(ai.infer("cobol", &unknown), "unknown");
}

#[test]
fn infer_flag_value_must_be_true() {
    let ai = VersionAI::new();
    let mut node = identifier("x");
    node.insert_meta("uses_generics".to_string(), "false".to_string());
    assert_eq!(ai.infer("go", &node), "1.21");
    assert_eq!(ai.infer("cobol", &node), "unknown");
}

#[test]
fn classify_every_variant() {
    let engine = SemanticEngine;
    let info = engine.analyze(&identifier("x"));
    assert_eq!(info.meaning, "identifier 'x'");
    assert_eq!(info.type_tags, vec!["dynamic".to_string()]);

    let info = engine.analyze(&Node::new(NodeKind::Number("3.5".to_string())));
    assert_eq!(info.meaning, "numeric literal");
    assert_eq!(info.type_tags, vec!["numeric".to_string()]);

    let binop = Node::new(NodeKind::BinaryOp {
        op: "+".to_string(),
        left: Box::new(identifier("a")),
        right: Box::new(identifier("b")),
    });
    let info = engine.analyze(&binop);
    assert_eq!(info.meaning, "binary operation '+'");
    assert_eq!(info.type_tags, vec!["computed-numeric".to_string()]);

    let func = Node::new(NodeKind::Function {
        name: "f".to_string(),
        args: vec!["a".to_string()],
        body: vec![identifier("a")],
    });
    let info = engine.analyze(&func);
    assert_eq!(info.meaning, "function 'f'");
    assert_eq!(info.type_tags, vec!["function".to_string()]);

    let info = engine.analyze(&Node::new(NodeKind::Unknown));
    assert_eq!(info.meaning, "unknown");
    assert!(info.type_tags.is_empty());
}

#[test]
fn security_findings_rule_names_then_oracle_entry() {
    let ai = SecurityAI::new(EchoLLM);
    let mut node = identifier("x");
    node.insert_meta("pointer_arith".to_string(), "true".to_string());
    node.insert_meta("overflow_risk".to_string(), "true".to_string());
    let findings = ai.analyze(&node);
    assert_eq!(findings.len(), 3);
    assert_eq!(findings[0], "pointer arithmetic");
    assert_eq!(findings[1], "overflow risk");
    let expected_last = format!("echo:{}", security_prompt(&node));
    assert_eq!(findings[2], expected_last);
}

#[test]
fn security_findings_without_flags_is_only_the_oracle_entry() {
    let ai = SecurityAI::new(EchoLLM);
    let node = identifier("x");
    let findings = ai.analyze(&node);
    assert_eq!(findings.len(), 1);
    assert_eq!(findings[0], "echo:Security check for node: identifier(x)");
}

#[test]
fn security_findings_with_known_response_end_with_it() {
    let ai = SecurityAI::new(EchoLLM);
    let mut node = identifier("x");
    node.insert_meta("overflow_risk".to_string(), "true".to_string());
    let findings = ai.findings_with(&node, "oracle says fine".to_string());
    assert_eq!(
        findings,
        vec!["overflow risk".to_string(), "oracle says fine".to_string()]
    );
}

#[test]
fn metadata_insert_get_and_replace() {
    let mut node = identifier("x");
    assert!(node.meta_get("uses_generics").is_none());
    node.insert_meta("uses_generics".to_string(), "true".to_string());
    assert_eq!(node.meta_get("uses_generics").unwrap(), "true");
    node.insert_meta("uses_generics".to_string(), "false".to_string());
    assert_eq!(node.meta_get("uses_generics").unwrap(), "false");
    assert_eq!(node.meta.len(), 1);
    assert!(!node.has_flag("uses_generics"));
    assert!(!node.has_flag("absent"));
}

#[test]
fn compile_node_end_to_end() {
    let compiler = Compiler::new(EchoLLM);
    let mut node = identifier("x");
    node.insert_meta("uses_generics".to_string(), "true".to_string());
    let report = compiler.compile_node(&node, "go");
    assert_eq!(report.language, "go");
    assert_eq!(report.version, "1.21");
    assert_eq!(report.meaning, "identifier 'x'");
    assert_eq!(report.type_tags, vec!["dynamic".to_string()]);
    assert_eq!(report.base_code, "var x any");
    assert_eq!(
        report.refined_code,
        "echo:Rewrite in idiomatic go 1.21 code:\nvar x any"
    );
    assert_eq!(report.security_findings.len(), 1);
    assert_eq!(
        report.security_findings[0],
        "echo:Security check for node: identifier(x)"
    );
}

#[test]
fn compile_node_unknown_everything_still_reports() {
    let compiler = Compiler::new(EchoLLM);
    let node = Node::new(NodeKind::Unknown);
    let report = compiler.compile_node(&node, "cobol");
    assert_eq!(report.language, "cobol");
    assert_eq!(report.version, "unknown");
    assert_eq!(report.meaning, "unknown");
    assert!(report.type_tags.is_empty());
    assert_eq!(report.base_code, "/* unsupported */");
    assert_eq!(report.security_findings.len(), 1);
}
