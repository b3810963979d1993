//! Directory-transpilation tests: skip-list, extension whitelist, output
//! naming and the tree-mirroring scenarios.

use intelligent_compiler::llm::LLM;
use intelligent_compiler::project::{
    is_convertible_file, mapped_ext, output_name, project_prompt, should_skip_dir,
    transpile_project, FsEntry,
};

#[derive(Clone)]
struct EchoLLM;

impl LLM for EchoLLM {
    fn predict(&self, prompt: &str) -> String {
        format!("echo:{}", prompt)
    }
}

fn file(name: &str, content: &str) -> FsEntry {
    FsEntry::File {
        name: name.to_string(),
        content: content.to_string(),
    }
}

fn dir(name: &str, entries: Vec<FsEntry>) -> FsEntry {
    FsEntry::Dir {
        name: name.to_string(),
        entries,
    }
}

#[test]
fn skip_list_is_exact_final_segment_match() {
    for name in [".git", "target", "build", "node_modules", "__pycache__", ".idea", ".vscode"] {
        assert!(should_skip_dir(name));
    }
    assert!(!should_skip_dir("src"));
    assert!(!should_skip_dir("mytarget"));
    assert!(!should_skip_dir("git"));
    assert!(!should_skip_dir(".Git"));
    assert!(!should_skip_dir("targets"));
}

#[test]
fn extension_whitelist() {
    for name in [
        "a.rs", "a.cpp", "a.h", "a.c", "a.py", "a.go", "a.ts", "a.js", "a.swift",
    ] {
        assert!(is_convertible_file(name), "{name} should convert");
    }
    assert!(is_convertible_file("A.RS"));
    assert!(is_convertible_file("lib.Swift"));
    assert!(is_convertible_file("archive.tar.go"));
    assert!(!is_convertible_file("notes.md"));
    assert!(!is_convertible_file("README"));
    assert!(!is_convertible_file(".git"));
    assert!(!is_convertible_file(".gitignore"));
    assert!(!is_convertible_file("ending."));
    assert!(!is_convertible_file("rs"));
}

#[test]
fn mapped_extensions() {
    assert_eq!(mapped_ext("go"), "go");
    assert_eq!(mapped_ext("cpp"), "cpp");
    assert_eq!(mapped_ext("swift"), "swift");
    assert_eq!(mapped_ext("rust"), "rs");
    assert_eq!(mapped_ext("python"), "py");
    assert_eq!(mapped_ext("cobol"), "txt");
}

#[test]
fn output_names_append_the_mapped_extension() {
    assert_eq!(output_name("a.rs", "go"), "a.rs.go");
    assert_eq!(output_name("main.py", "rust"), "main.py.rs");
    assert_eq!(output_name("x.c", "cobol"), "x.c.txt");
}

#[test]
fn transpile_project_mirrors_and_filters() {
    let tree = vec![dir(
        "src",
        vec![
            file("a.rs", "fn main() {}"),
            dir(".git", vec![file("ignored.rs", "fn hidden() {}")]),
            file("notes.md", "# notes"),
        ],
    )];
    let out = transpile_project(&EchoLLM, &tree, "go");
    assert_eq!(out.len(), 1);
    match &out[0] {
        FsEntry::Dir { name, entries } => {
            assert_eq!(name, "src");
            assert_eq!(entries.len(), 1);
            match &entries[0] {
                FsEntry::File { name, content } => {
                    assert_eq!(name, "a.rs.go");
                    assert_eq!(content, "echo:Transpile fully into go code:\nfn main() {}");
                }
                FsEntry::Dir { .. } => panic!("expected a file"),
            }
        }
        FsEntry::File { .. } => panic!("expected a directory"),
    }
}

#[test]
fn skipped_directory_with_convertible_file_produces_nothing() {
    let tree = vec![dir("node_modules", vec![file("a.rs", "fn main() {}")])];
    let out = transpile_project(&EchoLLM, &tree, "go");
    assert!(out.is_empty());
}

#[test]
fn nested_structure_is_mirrored() {
    let tree = vec![dir(
        "a",
        vec![dir(
            "b",
            vec![dir("c", vec![file("deep.py", "print()")]), file("x.md", "no")],
        )],
    )];
    let out = transpile_project(&EchoLLM, &tree, "rust");
    assert_eq!(out.len(), 1);
    match &out[0] {
        FsEntry::Dir { name, entries } => {
            assert_eq!(name, "a");
            assert_eq!(entries.len(), 1);
            match &entries[0] {
                FsEntry::Dir { name, entries } => {
                    assert_eq!(name, "b");
                    assert_eq!(entries.len(), 1);
                    match &entries[0] {
                        FsEntry::Dir { name, entries } => {
                            assert_eq!(name, "c");
                            assert_eq!(entries.len(), 1);
                            match &entries[0] {
                                FsEntry::File { name, content } => {
                                    assert_eq!(name, "deep.py.rs");
                                    assert_eq!(
                                        content,
                                        "echo:Transpile fully into rust code:\nprint()"
                                    );
                                }
                                FsEntry::Dir { .. } => panic!("expected a file"),
                            }
                        }
                        FsEntry::File { .. } => panic!("expected a directory"),
                    }
                }
                FsEntry::File { .. } => panic!("expected a directory"),
            }
        }
        FsEntry::File { .. } => panic!("expected a directory"),
    }
}

#[test]
fn empty_directories_are_kept_empty() {
    let tree = vec![dir("src", vec![])];
    let out = transpile_project(&EchoLLM, &tree, "go");
    assert_eq!(out.len(), 1);
    match &out[0] {
        FsEntry::Dir { name, entries } => {
            assert_eq!(name, "src");
            assert!(entries.is_empty());
        }
        FsEntry::File { .. } => panic!("expected a directory"),
    }
}

#[test]
fn project_prompt_is_exact() {
    assert_eq!(
        project_prompt("go", "fn main() {}"),
        "Transpile fully into go code:\nfn main() {}"
    );
}
