//! Inference of the target-language version for a node.
//!
//! A knowledge table maps each known language to its supported versions in
//! ascending order; the last entry is the default answer.  Before the
//! default applies, a fixed set of language-specific metadata overrides is
//! consulted in order.  An unknown language yields the sentinel `unknown`,
//! never an error.

use vstd::prelude::*;
use crate::node::{Node, spec_has_flag};
use crate::text::str_eq;

verus! {

broadcast use vstd::string::group_string_axioms;

/// The version-knowledge engine.  The table is fixed at construction and
/// never mutated.
pub struct VersionAI {
    versions: Vec<(String, Vec<String>)>,
}

/// First-match lookup of a language's version list, starting at index `i`.
spec fn table_lookup(t: Seq<(String, Vec<String>)>, i: int, lang: Seq<char>) -> Option<
    Seq<Seq<char>>,
>
    decreases t.len() - i,
{
    if i < 0 || i >= t.len() {
        None
    } else if t[i].0@ == lang {
        Some(t[i].1.deep_view())
    } else {
        table_lookup(t, i + 1, lang)
    }
}

/// The version lists that `VersionAI::new` installs: the table the whole
/// pipeline runs on.
pub open spec fn default_versions(lang: Seq<char>) -> Option<Seq<Seq<char>>> {
    if lang == "go"@ {
        Some(seq!["1.21"@])
    } else if lang == "cpp"@ {
        Some(seq!["23"@])
    } else if lang == "swift"@ {
        Some(seq!["6.0"@])
    } else {
        None
    }
}

/// The fixed, ordered metadata-driven overrides.  Each is specific to one
/// language and fires only when its flag is present with the value `true`.
pub open spec fn override_version(lang: Seq<char>, node: Node) -> Option<Seq<char>> {
    if lang == "go"@ && spec_has_flag(node, "uses_generics"@) {
        Some("1.21"@)
    } else if lang == "cpp"@ && spec_has_flag(node, "concepts"@) {
        Some("23"@)
    } else if lang == "swift"@ && spec_has_flag(node, "strict_concurrency"@) {
        Some("6.0"@)
    } else {
        None
    }
}

/// What `infer` returns when run against the default knowledge table: the
/// matching override if one fires, else the last entry of the language's
/// version list, else the sentinel.
pub open spec fn default_infer(lang: Seq<char>, node: Node) -> Seq<char> {
    match override_version(lang, node) {
        Some(v) => v,
        None => match default_versions(lang) {
            Some(vs) => if vs.len() > 0 {
                vs.last()
            } else {
                "unknown"@
            },
            None => "unknown"@,
        },
    }
}

/// For Go, the generics flag forces the generics-override version,
/// whatever else the metadata holds.
pub proof fn lemma_infer_go_generics(node: Node)
    requires
        spec_has_flag(node, "uses_generics"@),
    ensures
        default_infer("go"@, node) == "1.21"@,
{
}

/// For Go without the generics flag, inference falls back to the last
/// entry of the Go version list.
pub proof fn lemma_infer_go_default(node: Node)
    requires
        !spec_has_flag(node, "uses_generics"@),
    ensures
        default_infer("go"@, node) == default_versions("go"@)->Some_0.last(),
        default_infer("go"@, node) == "1.21"@,
{
    reveal_strlit("go");
    reveal_strlit("cpp");
    reveal_strlit("swift");
    assert("go"@.len() == 2);
    assert("cpp"@.len() == 3);
    assert("swift"@.len() == 5);
    assert(override_version("go"@, node) is None);
    assert(seq!["1.21"@].last() == "1.21"@);
}

/// A language absent from the knowledge table yields the sentinel, for
/// every node: inference is total and never fails.
pub proof fn lemma_infer_unknown_language(lang: Seq<char>, node: Node)
    requires
        lang != "go"@,
        lang != "cpp"@,
        lang != "swift"@,
    ensures
        default_infer(lang, node) == "unknown"@,
{
}

impl VersionAI {
    /// The version list this engine holds for `lang`, if any.
    pub closed spec fn lang_versions(self, lang: Seq<char>) -> Option<Seq<Seq<char>>> {
        table_lookup(self.versions@, 0, lang)
    }

    /// What `infer` returns: the matching override if one fires, else the
    /// last entry of the language's version list, else the sentinel.
    pub closed spec fn spec_infer(self, lang: Seq<char>, node: Node) -> Seq<char> {
        match override_version(lang, node) {
            Some(v) => v,
            None => match self.lang_versions(lang) {
                Some(vs) => if vs.len() > 0 {
                    vs.last()
                } else {
                    "unknown"@
                },
                None => "unknown"@,
            },
        }
    }

    /// An engine over the default knowledge table.
    pub fn new() -> (r: VersionAI)
        ensures
            forall|lang: Seq<char>| #![auto] r.lang_versions(lang) == default_versions(lang),
            forall|lang: Seq<char>, node: Node| #![auto]
                r.spec_infer(lang, node) == default_infer(lang, node),
    {
        let mut versions: Vec<(String, Vec<String>)> = Vec::new();
        let mut go: Vec<String> = Vec::new();
        go.push("1.21".to_owned());
        versions.push(("go".to_owned(), go));
        let mut cpp: Vec<String> = Vec::new();
        cpp.push("23".to_owned());
        versions.push(("cpp".to_owned(), cpp));
        let mut swift: Vec<String> = Vec::new();
        swift.push("6.0".to_owned());
        versions.push(("swift".to_owned(), swift));
        let r = VersionAI { versions };
        proof {
            let t = r.versions@;
            assert forall|lang: Seq<char>| #![auto] r.lang_versions(lang) == default_versions(
                lang,
            ) by {
                reveal_with_fuel(table_lookup, 5);
                assert(t[0].1.deep_view() =~= seq!["1.21"@]);
                assert(t[1].1.deep_view() =~= seq!["23"@]);
                assert(t[2].1.deep_view() =~= seq!["6.0"@]);
            }
        }
        r
    }

    /// The inferred target-language version for `node`, per the override
    /// table and the knowledge table; `unknown` for an unknown language.
    pub fn infer(&self, lang: &str, node: &Node) -> (r: String)
        ensures
            r@ == self.spec_infer(lang@, *node),
    {
        if str_eq(lang, "go") && node.has_flag("uses_generics") {
            return "1.21".to_owned();
        }
        if str_eq(lang, "cpp") && node.has_flag("concepts") {
            return "23".to_owned();
        }
        if str_eq(lang, "swift") && node.has_flag("strict_concurrency") {
            return "6.0".to_owned();
        }
        let mut i: usize = 0;
        while i < self.versions.len()
            invariant
                i <= self.versions@.len(),
                override_version(lang@, *node) is None,
                table_lookup(self.versions@, 0, lang@) == table_lookup(
                    self.versions@,
                    i as int,
                    lang@,
                ),
            decreases self.versions@.len() - i,
        {
            let entry: &(String, Vec<String>) = &self.versions[i];
            if str_eq(entry.0.as_str(), lang) {
                let vs: &Vec<String> = &entry.1;
                if vs.len() > 0 {
                    let last: String = vs[vs.len() - 1].clone();
                    proof {
                        assert(vs.deep_view()[vs@.len() - 1] == vs@[vs@.len() - 1]@);
                    }
                    return last;
                } else {
                    proof {
                        assert(vs.deep_view().len() == 0);
                    }
                    return "unknown".to_owned();
                }
            }
            i += 1;
        }
        "unknown".to_owned()
    }
}

} // verus!
