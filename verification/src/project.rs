//! Directory-wide transpilation policy.
//!
//! A source tree, read into memory, is mirrored into an output tree:
//! directories whose final path segment exactly matches a fixed skip-list
//! are dropped whole; files are kept only when their extension is on a
//! fixed, case-insensitive whitelist; every kept file's content is
//! replaced by the oracle's whole-file transpilation and its name gains
//! the target language's mapped extension.  Reading the tree in and
//! writing the output tree back to disk is the caller's concern.

use vstd::prelude::*;
use vstd::string::{StrSliceExecFns, StringExecFns};
use crate::llm::LLM;
use crate::text::{eq_ignore_case, spec_lower, str_eq};

verus! {

/// Whether a directory's final path segment is on the fixed skip-list of
/// tooling and output directories.
pub open spec fn spec_should_skip(name: Seq<char>) -> bool {
    ||| name == ".git"@
    ||| name == "target"@
    ||| name == "build"@
    ||| name == "node_modules"@
    ||| name == "__pycache__"@
    ||| name == ".idea"@
    ||| name == ".vscode"@
}

/// Whether a directory of this name is excluded from traversal.  The
/// match is by exact final-segment equality, never by substring.
pub fn should_skip_dir(name: &str) -> (r: bool)
    ensures
        r == spec_should_skip(name@),
{
    str_eq(name, ".git") || str_eq(name, "target") || str_eq(name, "build") || str_eq(
        name,
        "node_modules",
    ) || str_eq(name, "__pycache__") || str_eq(name, ".idea") || str_eq(name, ".vscode")
}

/// The index of the last `.` in a file name, if any.
pub open spec fn spec_last_dot(s: Seq<char>) -> Option<int>
    decreases s.len(),
{
    if s.len() == 0 {
        None
    } else if s[s.len() - 1] == '.' {
        Some(s.len() - 1)
    } else {
        spec_last_dot(s.drop_last())
    }
}

/// The extension of a file name: what follows the last `.`, provided that
/// dot is not the leading character (a name such as `.git` has none).
pub open spec fn spec_extension(s: Seq<char>) -> Option<Seq<char>> {
    match spec_last_dot(s) {
        Some(i) => if i > 0 {
            Some(s.subrange(i + 1, s.len() as int))
        } else {
            None
        },
        None => None,
    }
}

/// Whether a lower-cased extension is on the whitelist of recognized
/// source extensions.
pub open spec fn spec_whitelisted(e: Seq<char>) -> bool {
    ||| e == "rs"@
    ||| e == "cpp"@
    ||| e == "h"@
    ||| e == "c"@
    ||| e == "py"@
    ||| e == "go"@
    ||| e == "ts"@
    ||| e == "js"@
    ||| e == "swift"@
}

/// Whether a file of this name is eligible for transpilation: its
/// extension, lower-cased, is on the whitelist.
pub open spec fn spec_is_convertible(s: Seq<char>) -> bool {
    match spec_extension(s) {
        Some(e) => spec_whitelisted(spec_lower(e)),
        None => false,
    }
}

/// A found last dot is a dot, inside the name.
proof fn lemma_last_dot_bounds(s: Seq<char>)
    ensures
        match spec_last_dot(s) {
            Some(i) => 0 <= i < s.len() && s[i] == '.',
            None => true,
        },
    decreases s.len(),
{
    if s.len() > 0 && s[s.len() - 1] != '.' {
        lemma_last_dot_bounds(s.drop_last());
    }
}

/// The index of the last `.` in `name`, if any.
fn last_dot(name: &str) -> (r: Option<usize>)
    ensures
        match r {
            Some(j) => spec_last_dot(name@) == Some(j as int),
            None => spec_last_dot(name@) is None,
        },
{
    let n = name.unicode_len();
    let mut j: usize = n;
    proof {
        assert(name@.subrange(0, n as int) =~= name@);
    }
    while j > 0
        invariant
            j <= n,
            n == name@.len(),
            spec_last_dot(name@) == spec_last_dot(name@.subrange(0, j as int)),
        decreases j,
    {
        let c = name.get_char(j - 1);
        proof {
            assert(name@.subrange(0, j as int)[j - 1] == name@[j - 1]);
            assert(name@.subrange(0, j as int).drop_last() =~= name@.subrange(0, j as int - 1));
        }
        if c == '.' {
            return Some(j - 1);
        }
        j -= 1;
    }
    proof {
        assert(name@.subrange(0, 0) =~= Seq::<char>::empty());
    }
    None
}

/// Whether a file of this name is converted by the directory transpiler.
pub fn is_convertible_file(name: &str) -> (r: bool)
    ensures
        r == spec_is_convertible(name@),
{
    let n = name.unicode_len();
    match last_dot(name) {
        None => false,
        Some(i) => {
            if i == 0 {
                return false;
            }
            proof {
                lemma_last_dot_bounds(name@);
            }
            let ext = name.substring_char(i + 1, n);
            proof {
                reveal_strlit("rs");
                reveal_strlit("cpp");
                reveal_strlit("h");
                reveal_strlit("c");
                reveal_strlit("py");
                reveal_strlit("go");
                reveal_strlit("ts");
                reveal_strlit("js");
                reveal_strlit("swift");
                assert(spec_lower("rs"@) =~= "rs"@);
                assert(spec_lower("cpp"@) =~= "cpp"@);
                assert(spec_lower("h"@) =~= "h"@);
                assert(spec_lower("c"@) =~= "c"@);
                assert(spec_lower("py"@) =~= "py"@);
                assert(spec_lower("go"@) =~= "go"@);
                assert(spec_lower("ts"@) =~= "ts"@);
                assert(spec_lower("js"@) =~= "js"@);
                assert(spec_lower("swift"@) =~= "swift"@);
            }
            eq_ignore_case(ext, "rs") || eq_ignore_case(ext, "cpp") || eq_ignore_case(ext, "h")
                || eq_ignore_case(ext, "c") || eq_ignore_case(ext, "py") || eq_ignore_case(
                ext,
                "go",
            ) || eq_ignore_case(ext, "ts") || eq_ignore_case(ext, "js") || eq_ignore_case(
                ext,
                "swift",
            )
        },
    }
}

/// The output extension for each target language; a generic text
/// extension for an unrecognized language.
pub open spec fn spec_mapped_ext(lang: Seq<char>) -> Seq<char> {
    if lang == "go"@ {
        "go"@
    } else if lang == "cpp"@ {
        "cpp"@
    } else if lang == "swift"@ {
        "swift"@
    } else if lang == "rust"@ {
        "rs"@
    } else if lang == "python"@ {
        "py"@
    } else {
        "txt"@
    }
}

/// The output extension for `lang`.
pub fn mapped_ext(lang: &str) -> (r: &'static str)
    ensures
        r@ == spec_mapped_ext(lang@),
{
    if str_eq(lang, "go") {
        "go"
    } else if str_eq(lang, "cpp") {
        "cpp"
    } else if str_eq(lang, "swift") {
        "swift"
    } else if str_eq(lang, "rust") {
        "rs"
    } else if str_eq(lang, "python") {
        "py"
    } else {
        "txt"
    }
}

/// The name of a converted file: the original name with the mapped
/// extension appended — the original extension is kept, never replaced.
pub open spec fn spec_output_name(name: Seq<char>, lang: Seq<char>) -> Seq<char> {
    name + "."@ + spec_mapped_ext(lang)
}

/// Builds the output file name for `name` under `lang`.
pub fn output_name(name: &str, lang: &str) -> (r: String)
    ensures
        r@ == spec_output_name(name@, lang@),
{
    let mut s = name.to_owned();
    s.append(".");
    s.append(mapped_ext(lang));
    s
}

/// The whole-file transpilation prompt of the directory transpiler.
pub open spec fn spec_project_prompt(lang: Seq<char>, content: Seq<char>) -> Seq<char> {
    "Transpile fully into "@ + lang + " code:\n"@ + content
}

/// Builds the whole-file transpilation prompt.
pub fn project_prompt(lang: &str, content: &str) -> (r: String)
    ensures
        r@ == spec_project_prompt(lang@, content@),
{
    let mut s = "Transpile fully into ".to_owned();
    s.append(lang);
    s.append(" code:\n");
    s.append(content);
    s
}

/// One entry of an in-memory directory tree: a file with its text, or a
/// directory with its entries.
pub enum FsEntry {
    File { name: String, content: String },
    Dir { name: String, entries: Vec<FsEntry> },
}

/// Whether the transpiler keeps this entry: a directory that is not on
/// the skip-list, or a file whose extension is whitelisted.
pub open spec fn spec_keep(e: FsEntry) -> bool {
    match e {
        FsEntry::File { name, content } => spec_is_convertible(name@),
        FsEntry::Dir { name, entries } => !spec_should_skip(name@),
    }
}

/// How one kept source entry corresponds to one output entry: a file maps
/// to a file under the mapped output name; a directory maps to a
/// directory of the same name whose entries mirror its own.
pub open spec fn mirrors_entry(s: FsEntry, o: FsEntry, lang: Seq<char>) -> bool
    decreases s,
{
    match s {
        FsEntry::File { name, content } => match o {
            FsEntry::File { name: out_name, content: _ } => out_name@ == spec_output_name(
                name@,
                lang,
            ),
            FsEntry::Dir { .. } => false,
        },
        FsEntry::Dir { name, entries } => match o {
            FsEntry::Dir { name: out_name, entries: out_entries } => out_name@ == name@
                && mirrors_seq(entries@, out_entries@, lang),
            FsEntry::File { .. } => false,
        },
    }
}

/// The structural-homomorphism relation of the directory transpiler: the
/// output entries correspond one-to-one, in order, to exactly the kept
/// source entries — a skipped directory or an ineligible file contributes
/// nothing at all.
pub open spec fn mirrors_seq(src: Seq<FsEntry>, out: Seq<FsEntry>, lang: Seq<char>) -> bool
    decreases src,
{
    if src.len() == 0 {
        out.len() == 0
    } else if spec_keep(src[0]) {
        out.len() > 0 && mirrors_entry(src[0], out[0], lang) && mirrors_seq(
            src.drop_first(),
            out.drop_first(),
            lang,
        )
    } else {
        mirrors_seq(src.drop_first(), out, lang)
    }
}

/// Entries that are all dropped — skip-listed directories and files off
/// the whitelist — produce no output at all.
pub proof fn lemma_dropped_entries(src: Seq<FsEntry>, out: Seq<FsEntry>, lang: Seq<char>)
    requires
        mirrors_seq(src, out, lang),
        forall|i: int| 0 <= i < src.len() ==> !spec_keep(src[i]),
    ensures
        out.len() == 0,
    decreases src.len(),
{
    if src.len() > 0 {
        lemma_dropped_entries(src.drop_first(), out, lang);
    }
}

/// Transpiles a whole source tree: mirrors every non-skipped directory,
/// converts every whitelisted file through the oracle, and drops
/// everything else.  The output tree is a structural homomorphic image of
/// the input's kept entries.
pub fn transpile_project<L: LLM>(llm: &L, entries: &Vec<FsEntry>, lang: &str) -> (out: Vec<FsEntry>)
    ensures
        mirrors_seq(entries@, out@, lang@),
{
    proof {
        assert(entries@.subrange(0, entries@.len() as int) =~= entries@);
    }
    transpile_entries(llm, entries, 0, lang)
}

/// Transpiles the entries from index `from` on.
fn transpile_entries<L: LLM>(llm: &L, entries: &Vec<FsEntry>, from: usize, lang: &str) -> (out: Vec<
    FsEntry,
>)
    requires
        from <= entries@.len(),
    ensures
        mirrors_seq(entries@.subrange(from as int, entries@.len() as int), out@, lang@),
    decreases entries@, entries@.len() - from,
{
    let ghost tail = entries@.subrange(from as int, entries@.len() as int);
    if from >= entries.len() {
        let out: Vec<FsEntry> = Vec::new();
        return out;
    }
    proof {
        assert(tail[0] == entries@[from as int]);
        assert(tail.drop_first() =~= entries@.subrange(from as int + 1, entries@.len() as int));
    }
    let mut out: Vec<FsEntry> = Vec::new();
    match &entries[from] {
        FsEntry::File { name, content } => {
            if is_convertible_file(name.as_str()) {
                let prompt = project_prompt(lang, content.as_str());
                let code = llm.predict(prompt.as_str());
                let converted = FsEntry::File {
                    name: output_name(name.as_str(), lang),
                    content: code,
                };
                proof {
                    assert(spec_keep(tail[0]));
                    assert(mirrors_entry(tail[0], converted, lang@));
                }
                out.push(converted);
            } else {
                proof {
                    assert(!spec_keep(tail[0]));
                }
            }
        },
        FsEntry::Dir { name, entries: sub } => {
            if !should_skip_dir(name.as_str()) {
                proof {
                    assert(sub@.subrange(0, sub@.len() as int) =~= sub@);
                }
                let sub_out = transpile_entries(llm, sub, 0, lang);
                let mirrored = FsEntry::Dir { name: name.clone(), entries: sub_out };
                proof {
                    assert(spec_keep(tail[0]));
                    assert(mirrors_seq(sub@, mirrored->Dir_entries@, lang@));
                    assert(mirrors_entry(tail[0], mirrored, lang@));
                }
                out.push(mirrored);
            } else {
                proof {
                    assert(!spec_keep(tail[0]));
                }
            }
        },
    }
    let ghost kept = out@;
    proof {
        assert(spec_keep(tail[0]) ==> kept.len() == 1 && mirrors_entry(tail[0], kept[0], lang@));
        assert(!spec_keep(tail[0]) ==> kept.len() == 0);
    }
    let mut rest = transpile_entries(llm, entries, from + 1, lang);
    let ghost rest0 = rest@;
    out.append(&mut rest);
    proof {
        assert(out@ == kept + rest0);
        if spec_keep(tail[0]) {
            assert(out@[0] == kept[0]);
            assert(out@.drop_first() =~= rest0);
            assert(mirrors_seq(tail, out@, lang@));
        } else {
            assert(out@ =~= rest0);
            assert(mirrors_seq(tail, out@, lang@));
        }
    }
    out
}

} // verus!
