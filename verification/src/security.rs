//! Rule-based security analysis of a node.
//!
//! A fixed set of named predicates — metadata-flag lookups — is evaluated
//! in declaration order; the name of every rule that fires is collected,
//! and exactly one oracle-derived entry is appended last.  A missing
//! metadata key means "not flagged", and an oracle failure is reported as
//! the final entry's text rather than aborting the stage.

use vstd::prelude::*;
use vstd::string::StringExecFns;
use crate::llm::LLM;
use crate::node::{spec_describe, spec_has_flag, Node};

verus! {

/// A named security predicate: the rule fires when the node's metadata
/// holds `flag` with the value `true`.
pub struct SecurityRule {
    pub name: String,
    pub flag: String,
}

/// Whether a rule fires on a node.
pub open spec fn spec_rule_fires(rule: SecurityRule, node: Node) -> bool {
    spec_has_flag(node, rule.flag@)
}

/// The names of the rules that fire on `node`, in declaration order.
pub open spec fn spec_fired_names(rules: Seq<SecurityRule>, node: Node) -> Seq<Seq<char>>
    decreases rules.len(),
{
    if rules.len() == 0 {
        Seq::empty()
    } else if spec_rule_fires(rules[0], node) {
        seq![rules[0].name@] + spec_fired_names(rules.drop_first(), node)
    } else {
        spec_fired_names(rules.drop_first(), node)
    }
}

/// One more rule at the end contributes its name at the end, when it fires.
proof fn lemma_fired_push(rules: Seq<SecurityRule>, r: SecurityRule, node: Node)
    ensures
        spec_fired_names(rules.push(r), node) == if spec_rule_fires(r, node) {
            spec_fired_names(rules, node).push(r.name@)
        } else {
            spec_fired_names(rules, node)
        },
    decreases rules.len(),
{
    reveal_with_fuel(spec_fired_names, 3);
    if rules.len() == 0 {
        assert(rules.push(r).drop_first() =~= Seq::<SecurityRule>::empty());
        assert(rules.push(r)[0] == r);
        if spec_rule_fires(r, node) {
            assert(seq![r.name@] + Seq::<Seq<char>>::empty() =~= Seq::<
                Seq<char>,
            >::empty().push(r.name@));
        }
    } else {
        assert(rules.push(r).drop_first() =~= rules.drop_first().push(r));
        assert(rules.push(r)[0] == rules[0]);
        lemma_fired_push(rules.drop_first(), r, node);
        if spec_rule_fires(rules[0], node) && spec_rule_fires(r, node) {
            assert(seq![rules[0].name@] + spec_fired_names(rules.drop_first(), node).push(r.name@)
                =~= (seq![rules[0].name@] + spec_fired_names(rules.drop_first(), node)).push(
                r.name@,
            ));
        }
    }
}

/// The rule names that the default rule set of `SecurityAI::new` yields on
/// `node`, in declaration order.
pub open spec fn default_fired(node: Node) -> Seq<Seq<char>> {
    (if spec_has_flag(node, "pointer_arith"@) {
        seq!["pointer arithmetic"@]
    } else {
        Seq::empty()
    }) + (if spec_has_flag(node, "overflow_risk"@) {
        seq!["overflow risk"@]
    } else {
        Seq::empty()
    })
}

/// The fixed question put to the oracle, with the node's full structural
/// description embedded.
pub open spec fn spec_security_prompt(node: Node) -> Seq<char> {
    "Security check for node: "@ + spec_describe(node)
}

/// Builds the oracle question for `node`.
pub fn security_prompt(node: &Node) -> (r: String)
    ensures
        r@ == spec_security_prompt(*node),
{
    let mut s = "Security check for node: ".to_owned();
    let described = node.describe();
    s.append(described.as_str());
    s
}

/// The security engine: a rule set fixed at construction, plus the oracle.
pub struct SecurityAI<L: LLM> {
    pub llm: L,
    pub rules: Vec<SecurityRule>,
}

impl<L: LLM> SecurityAI<L> {
    /// The rule set this engine was built with.
    pub open spec fn spec_rules(self) -> Seq<SecurityRule> {
        self.rules@
    }

    /// An engine with the default rule set over the given oracle.
    pub fn new(llm: L) -> (r: SecurityAI<L>)
        ensures
            r.llm == llm,
            forall|node: Node| #![auto]
                spec_fired_names(r.spec_rules(), node) == default_fired(node),
    {
        let mut rules: Vec<SecurityRule> = Vec::new();
        rules.push(
            SecurityRule { name: "pointer arithmetic".to_owned(), flag: "pointer_arith".to_owned() },
        );
        rules.push(
            SecurityRule { name: "overflow risk".to_owned(), flag: "overflow_risk".to_owned() },
        );
        let r = SecurityAI { llm, rules };
        proof {
            assert forall|node: Node| #![auto]
                spec_fired_names(r.spec_rules(), node) == default_fired(node) by {
                reveal_with_fuel(spec_fired_names, 4);
                assert(r.spec_rules().drop_first().drop_first() =~= Seq::<SecurityRule>::empty());
                if spec_has_flag(node, "pointer_arith"@) {
                    assert(spec_fired_names(r.spec_rules(), node) =~= default_fired(node));
                } else {
                    assert(spec_fired_names(r.spec_rules(), node) =~= default_fired(node));
                }
            }
        }
        r
    }

    /// The flagged-issue list for `node` once the oracle's entry is known:
    /// the names of the rules that fire, in order, then `response` last.
    pub fn findings_with(&self, node: &Node, response: String) -> (r: Vec<String>)
        ensures
            r.deep_view() == spec_fired_names(self.spec_rules(), *node).push(response@),
    {
        let mut out: Vec<String> = Vec::new();
        let mut i: usize = 0;
        while i < self.rules.len()
            invariant
                i <= self.rules@.len(),
                out.deep_view() == spec_fired_names(self.rules@.subrange(0, i as int), *node),
            decreases self.rules@.len() - i,
        {
            let rule: &SecurityRule = &self.rules[i];
            let ghost prefix = self.rules@.subrange(0, i as int);
            if node.has_flag(rule.flag.as_str()) {
                out.push(rule.name.clone());
            }
            proof {
                lemma_fired_push(prefix, self.rules@[i as int], *node);
                assert(self.rules@.subrange(0, i as int + 1) =~= prefix.push(
                    self.rules@[i as int],
                ));
                if spec_rule_fires(self.rules@[i as int], *node) {
                    assert(out.deep_view() =~= spec_fired_names(prefix, *node).push(
                        self.rules@[i as int].name@,
                    ));
                }
            }
            i += 1;
        }
        proof {
            assert(self.rules@.subrange(0, self.rules@.len() as int) =~= self.rules@);
        }
        let ghost fired = spec_fired_names(self.rules@, *node);
        out.push(response);
        proof {
            assert(out.deep_view() =~= fired.push(out@[out@.len() - 1]@));
        }
        out
    }

    /// The flagged-issue list for `node`: every rule that fires, in
    /// declaration order, then exactly one oracle-derived entry.
    pub fn analyze(&self, node: &Node) -> (r: Vec<String>)
        ensures
            r.deep_view().len() == spec_fired_names(self.spec_rules(), *node).len() + 1,
            r.deep_view().subrange(0, r.deep_view().len() - 1) == spec_fired_names(
                self.spec_rules(),
                *node,
            ),
    {
        let prompt = security_prompt(node);
        let response = self.llm.predict(prompt.as_str());
        let r = self.findings_with(node, response);
        proof {
            let fired = spec_fired_names(self.spec_rules(), *node);
            assert(r.deep_view().subrange(0, r.deep_view().len() - 1) =~= fired);
        }
        r
    }
}

} // verus!
