//! The syntax-tree representation and the per-node metadata bag.
//!
//! Nodes are built once by an upstream parser and are read-only for the
//! pipeline: every stage only inspects a node's kind and metadata.  The
//! metadata map is an association list with unique keys; a missing key is
//! treated everywhere as "false"/"unknown".

use vstd::prelude::*;
use vstd::string::{StrSliceExecFns, StringExecFns};
use crate::text::{join_strings, spec_join, str_eq};

verus! {

/// The closed set of syntax-node variants.  `Unknown` is the universal
/// fallback: every consumer handles it without failure.
#[derive(Debug)]
pub enum NodeKind {
    Identifier(String),
    /// A numeric literal, held as its canonical decimal text — the only
    /// thing any stage of the pipeline reads of it.
    Number(String),
    BinaryOp { op: String, left: Box<Node>, right: Box<Node> },
    Function { name: String, args: Vec<String>, body: Vec<Node> },
    Unknown,
}

/// One element of the tree, with its metadata map (string key to string
/// value, keys unique, order irrelevant to lookups).
#[derive(Debug)]
pub struct Node {
    pub kind: NodeKind,
    pub meta: Vec<(String, String)>,
}

/// First-match lookup in the association list, starting at index `i`.
pub open spec fn meta_value_from(m: Seq<(String, String)>, i: int, key: Seq<char>) -> Option<
    Seq<char>,
>
    decreases m.len() - i,
{
    if i < 0 || i >= m.len() {
        None
    } else if m[i].0@ == key {
        Some(m[i].1@)
    } else {
        meta_value_from(m, i + 1, key)
    }
}

/// The value bound to `key` in the metadata list, if any.
pub open spec fn meta_value(m: Seq<(String, String)>, key: Seq<char>) -> Option<Seq<char>> {
    meta_value_from(m, 0, key)
}

/// Whether a metadata flag is present and set to the text `true`.
pub open spec fn spec_has_flag(node: Node, flag: Seq<char>) -> bool {
    meta_value(node.meta@, flag) == Some("true"@)
}

/// Replacing the entry at `j` (whose key is `key`) changes no lookup of a
/// different key.
proof fn lemma_meta_update_other(
    m: Seq<(String, String)>,
    j: int,
    p: (String, String),
    i: int,
    k: Seq<char>,
)
    requires
        0 <= j < m.len(),
        m[j].0@ == p.0@,
        k != p.0@,
    ensures
        meta_value_from(m.update(j, p), i, k) == meta_value_from(m, i, k),
    decreases m.len() - i,
{
    if 0 <= i < m.len() {
        lemma_meta_update_other(m, j, p, i + 1, k);
    }
}

/// Replacing the first entry whose key is `key` makes lookups of `key`
/// return the new value.
proof fn lemma_meta_update_hit(m: Seq<(String, String)>, j: int, p: (String, String), i: int)
    requires
        0 <= j < m.len(),
        m[j].0@ == p.0@,
        0 <= i <= j,
        forall|l: int| i <= l < j ==> m[l].0@ != p.0@,
    ensures
        meta_value_from(m.update(j, p), i, p.0@) == Some(p.1@),
    decreases m.len() - i,
{
    if i < j {
        lemma_meta_update_hit(m, j, p, i + 1);
    }
}

/// Appending an entry changes no lookup of a different key.
proof fn lemma_meta_push_other(m: Seq<(String, String)>, p: (String, String), i: int, k: Seq<char>)
    requires
        k != p.0@,
    ensures
        meta_value_from(m.push(p), i, k) == meta_value_from(m, i, k),
    decreases m.len() + 1 - i,
{
    if i < m.len() + 1 {
        lemma_meta_push_other(m, p, i + 1, k);
    }
}

/// Appending an entry whose key was absent from the scanned suffix makes
/// lookups of that key return the appended value.
proof fn lemma_meta_push_hit(m: Seq<(String, String)>, p: (String, String), i: int)
    requires
        0 <= i <= m.len(),
        forall|l: int| i <= l < m.len() ==> m[l].0@ != p.0@,
    ensures
        meta_value_from(m.push(p), i, p.0@) == Some(p.1@),
    decreases m.len() + 1 - i,
{
    if i < m.len() {
        assert(m.push(p)[i] == m[i]);
        lemma_meta_push_hit(m, p, i + 1);
    } else {
        assert(m.push(p)[i] == p);
    }
}

/// A canonical rendering of a node's structure, used where a prompt embeds
/// the full shape of the tree.
pub open spec fn spec_describe(node: Node) -> Seq<char>
    decreases node,
{
    match node.kind {
        NodeKind::Identifier(x) => "identifier("@ + x@ + ")"@,
        NodeKind::Number(t) => "number("@ + t@ + ")"@,
        NodeKind::BinaryOp { op, left, right } => "binop("@ + op@ + ", "@ + spec_describe(*left)
            + ", "@ + spec_describe(*right) + ")"@,
        NodeKind::Function { name, args, body } => "function("@ + name@ + ", ["@ + spec_join(
            args.deep_view(),
            ", "@,
        ) + "], ["@ + spec_describe_list(body@) + "])"@,
        NodeKind::Unknown => "unknown"@,
    }
}

/// The descriptions of a list of nodes, comma-separated.
pub open spec fn spec_describe_list(nodes: Seq<Node>) -> Seq<char>
    decreases nodes,
{
    if nodes.len() == 0 {
        Seq::empty()
    } else if nodes.len() == 1 {
        spec_describe(nodes[0])
    } else {
        spec_describe(nodes[0]) + ", "@ + spec_describe_list(nodes.drop_first())
    }
}

impl Node {
    /// A fresh node of the given kind with an empty metadata map.
    pub fn new(kind: NodeKind) -> (n: Node)
        ensures
            n.kind == kind,
            n.meta@ == Seq::<(String, String)>::empty(),
    {
        Node { kind, meta: Vec::new() }
    }

    /// The metadata value bound to `key`, if any.
    pub fn meta_get<'a>(&'a self, key: &str) -> (r: Option<&'a String>)
        ensures
            match r {
                Some(v) => meta_value(self.meta@, key@) == Some(v@),
                None => meta_value(self.meta@, key@) is None,
            },
    {
        let mut i: usize = 0;
        while i < self.meta.len()
            invariant
                i <= self.meta@.len(),
                meta_value(self.meta@, key@) == meta_value_from(self.meta@, i as int, key@),
            decreases self.meta@.len() - i,
        {
            let pair: &(String, String) = &self.meta[i];
            if str_eq(pair.0.as_str(), key) {
                return Some(&pair.1);
            }
            i += 1;
        }
        None
    }

    /// Whether the metadata flag `flag` is present with the value `true`.
    pub fn has_flag(&self, flag: &str) -> (r: bool)
        ensures
            r == spec_has_flag(*self, flag@),
    {
        match self.meta_get(flag) {
            Some(v) => str_eq(v.as_str(), "true"),
            None => false,
        }
    }

    /// The canonical structural rendering of this node.
    pub fn describe(&self) -> (r: String)
        ensures
            r@ == spec_describe(*self),
        decreases *self, 0int,
    {
        match &self.kind {
            NodeKind::Identifier(x) => {
                let mut s = "identifier(".to_owned();
                s.append(x.as_str());
                s.append(")");
                s
            },
            NodeKind::Number(t) => {
                let mut s = "number(".to_owned();
                s.append(t.as_str());
                s.append(")");
                s
            },
            NodeKind::BinaryOp { op, left, right } => {
                let mut s = "binop(".to_owned();
                s.append(op.as_str());
                s.append(", ");
                let rendered_left = left.describe();
                s.append(rendered_left.as_str());
                s.append(", ");
                let rendered_right = right.describe();
                s.append(rendered_right.as_str());
                s.append(")");
                s
            },
            NodeKind::Function { name, args, body } => {
                let mut s = "function(".to_owned();
                s.append(name.as_str());
                s.append(", [");
                let joined = join_strings(args, ", ");
                s.append(joined.as_str());
                s.append("], [");
                proof {
                    assert(body@.subrange(0, body@.len() as int) =~= body@);
                }
                let rendered_body = Node::describe_list(body, 0);
                s.append(rendered_body.as_str());
                s.append("])");
                s
            },
            NodeKind::Unknown => "unknown".to_owned(),
        }
    }

    /// Renders the descriptions of `nodes` from index `from` on,
    /// comma-separated.
    fn describe_list(nodes: &Vec<Node>, from: usize) -> (r: String)
        requires
            from <= nodes@.len(),
        ensures
            r@ == spec_describe_list(nodes@.subrange(from as int, nodes@.len() as int)),
        decreases nodes@, nodes@.len() - from,
    {
        let ghost tail = nodes@.subrange(from as int, nodes@.len() as int);
        if from >= nodes.len() {
            return String::new();
        }
        proof {
            assert(tail[0] == nodes@[from as int]);
        }
        let first = nodes[from].describe();
        if from + 1 == nodes.len() {
            return first;
        }
        proof {
            assert(tail.drop_first() =~= nodes@.subrange(from as int + 1, nodes@.len() as int));
        }
        let mut s = first;
        s.append(", ");
        let rest = Node::describe_list(nodes, from + 1);
        s.append(rest.as_str());
        s
    }

    /// Binds `key` to `value`, replacing an existing binding of the same
    /// key so that keys stay unique.  Lookups of every other key are
    /// unchanged.
    pub fn insert_meta(&mut self, key: String, value: String)
        ensures
            final(self).kind == old(self).kind,
            meta_value(final(self).meta@, key@) == Some(value@),
            forall|k: Seq<char>|
                k != key@ ==> meta_value(final(self).meta@, k) == meta_value(old(self).meta@, k),
    {
        let ghost m0 = self.meta@;
        let mut i: usize = 0;
        while i < self.meta.len()
            invariant
                i <= self.meta@.len(),
                self.meta@ == m0,
                m0 == old(self).meta@,
                self.kind == old(self).kind,
                forall|l: int| 0 <= l < i ==> m0[l].0@ != key@,
            decreases self.meta@.len() - i,
        {
            let hit: bool = {
                let pair: &(String, String) = &self.meta[i];
                str_eq(pair.0.as_str(), key.as_str())
            };
            if hit {
                let ghost p = (key, value);
                self.meta[i] = (key, value);
                proof {
                    assert(self.meta@ == m0.update(i as int, p));
                    lemma_meta_update_hit(m0, i as int, p, 0);
                    assert(meta_value(self.meta@, key@) == Some(value@));
                    assert forall|k: Seq<char>| k != key@ implies meta_value(self.meta@, k)
                        == meta_value(m0, k) by {
                        lemma_meta_update_other(m0, i as int, p, 0, k);
                    }
                }
                return ;
            }
            i += 1;
        }
        let ghost p = (key, value);
        self.meta.push((key, value));
        proof {
            assert(self.meta@ == m0.push(p));
            lemma_meta_push_hit(m0, p, 0);
            assert(meta_value(self.meta@, key@) == Some(value@));
            assert forall|k: Seq<char>| k != key@ implies meta_value(self.meta@, k) == meta_value(
                m0,
                k,
            ) by {
                lemma_meta_push_other(m0, p, 0, k);
            }
        }
    }
}

} // verus!
