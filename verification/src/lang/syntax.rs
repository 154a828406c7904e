//! A parsed source file as a tree of syntax nodes, each with its kind, its
//! text, its parent, its children and its named fields. Nodes are numbered
//! so that a parent comes before its children.

use crate::text::str_eq;
use vstd::prelude::*;

verus! {

/// A node of a syntax tree.
#[derive(Debug)]
pub struct SyntaxNode {
    /// The grammar's name for the node.
    pub kind: String,
    /// The source text the node spans.
    pub text: String,
    /// Whether the node is named, rather than a token of punctuation.
    pub named: bool,
    /// The number of the parent node, if any.
    pub parent: Option<usize>,
    /// The numbers of the children, in order.
    pub children: Vec<usize>,
    /// The children that fill a named field of the node, in order.
    pub fields: Vec<(String, usize)>,
}

/// A syntax tree: its nodes, by number.
#[derive(Debug)]
pub struct SyntaxTree {
    pub nodes: Vec<SyntaxNode>,
}

impl SyntaxTree {
    /// Whether node `i` is well placed: its parent comes before it, and its
    /// children and field children come after it, within the tree.
    pub open spec fn node_wf(&self, i: int) -> bool {
        let node = self.nodes@[i];
        &&& (node.parent matches Some(p) ==> p < i)
        &&& forall|k: int| 0 <= k < node.children@.len() ==> i < #[trigger] node.children@[k] < self.nodes@.len()
        &&& forall|k: int| 0 <= k < node.fields@.len() ==> i < #[trigger] node.fields@[k].1 < self.nodes@.len()
    }

    /// Whether every node is well placed.
    pub open spec fn wf(&self) -> bool {
        forall|i: int| 0 <= i < self.nodes@.len() ==> #[trigger] self.node_wf(i)
    }

    /// Whether `n` is a node of the tree.
    pub open spec fn has(&self, n: int) -> bool {
        0 <= n < self.nodes@.len()
    }

    /// The kind of node `n`.
    pub open spec fn kind_of(&self, n: int) -> Seq<char> {
        self.nodes@[n].kind@
    }

    /// The text of node `n`.
    pub open spec fn text_of(&self, n: int) -> Seq<char> {
        self.nodes@[n].text@
    }

    /// The parent of node `n`.
    pub open spec fn parent_of(&self, n: int) -> Option<int> {
        match self.nodes@[n].parent {
            Some(p) => Some(p as int),
            None => None,
        }
    }

    /// The first child of node `n` in the field `name`.
    pub open spec fn field_of(&self, n: int, name: Seq<char>) -> Option<int> {
        first_field(self.nodes@[n].fields@, name)
    }

    /// The named children of node `n`, in order.
    pub open spec fn named_children_of(&self, n: int) -> Seq<int> {
        self.named_among(self.nodes@[n].children@)
    }

    /// The named nodes among `cs`, in order.
    pub open spec fn named_among(&self, cs: Seq<usize>) -> Seq<int>
        decreases cs.len(),
    {
        if cs.len() == 0 {
            seq![]
        } else {
            let rest = self.named_among(cs.drop_last());
            if 0 <= cs.last() < self.nodes@.len() && self.nodes@[cs.last() as int].named {
                rest.push(cs.last() as int)
            } else {
                rest
            }
        }
    }

    /// The named siblings of node `n` that come before it, nearest last.
    pub open spec fn earlier_siblings_of(&self, n: int) -> Seq<int> {
        match self.parent_of(n) {
            None => seq![],
            Some(p) => {
                let cs = self.nodes@[p].children@;
                match first_position(cs, n) {
                    None => seq![],
                    Some(k) => self.named_among(cs.take(k)),
                }
            },
        }
    }

    /// The number of the first named child of `n` of kind `kind`.
    pub open spec fn named_child_of_kind(&self, n: int, kind: Seq<char>) -> Option<int> {
        self.first_of_kind(self.named_children_of(n), kind)
    }

    /// The first of `ns` of kind `kind`.
    pub open spec fn first_of_kind(&self, ns: Seq<int>, kind: Seq<char>) -> Option<int>
        decreases ns.len(),
    {
        if ns.len() == 0 {
            None
        } else if self.kind_of(ns[0]) == kind {
            Some(ns[0])
        } else {
            self.first_of_kind(ns.drop_first(), kind)
        }
    }

    /// The kind of node `n`.
    pub fn kind(&self, n: usize) -> (r: &str)
        requires
            self.has(n as int),
        ensures
            r@ == self.kind_of(n as int),
    {
        self.nodes[n].kind.as_str()
    }

    /// The text of node `n`.
    pub fn text(&self, n: usize) -> (r: &str)
        requires
            self.has(n as int),
        ensures
            r@ == self.text_of(n as int),
    {
        self.nodes[n].text.as_str()
    }

    /// Whether node `n` is of kind `kind`.
    pub fn is_kind(&self, n: usize, kind: &str) -> (r: bool)
        requires
            self.has(n as int),
        ensures
            r == (self.kind_of(n as int) == kind@),
    {
        str_eq(self.nodes[n].kind.as_str(), kind)
    }

    /// The parent of node `n`.
    pub fn parent(&self, n: usize) -> (r: Option<usize>)
        requires
            self.wf(),
            self.has(n as int),
        ensures
            match r {
                Some(p) => self.parent_of(n as int) == Some(p as int) && p < n,
                None => self.parent_of(n as int) is None,
            },
    {
        proof {
            assert(self.node_wf(n as int));
        }
        self.nodes[n].parent
    }

    /// The first child of node `n` in the field `name`.
    pub fn child_by_field_name(&self, n: usize, name: &str) -> (r: Option<usize>)
        requires
            self.wf(),
            self.has(n as int),
        ensures
            match r {
                Some(c) => self.field_of(n as int, name@) == Some(c as int) && n < c && self.has(c as int),
                None => self.field_of(n as int, name@) is None,
            },
    {
        proof {
            assert(self.node_wf(n as int));
        }
        let fields = &self.nodes[n].fields;
        let m = fields.len();
        let mut k: usize = 0;
        assert(fields@.subrange(0, m as int) =~= fields@);
        while k < m
            invariant
                k <= m,
                m == fields@.len(),
                fields == &self.nodes@[n as int].fields,
                self.node_wf(n as int),
                first_field(fields@, name@) == first_field(fields@.subrange(k as int, m as int), name@),
            decreases m - k,
        {
            let ghost rest = fields@.subrange(k as int, m as int);
            assert(rest.drop_first() =~= fields@.subrange(k + 1, m as int));
            assert(rest[0] == fields@[k as int]);
            if str_eq(fields[k].0.as_str(), name) {
                assert(n < fields@[k as int].1);
                return Some(fields[k].1);
            }
            k = k + 1;
        }
        None
    }

    /// The named children of node `n`, in order.
    pub fn named_children(&self, n: usize) -> (r: Vec<usize>)
        requires
            self.wf(),
            self.has(n as int),
        ensures
            r@.map_values(|c: usize| c as int) == self.named_children_of(n as int),
            forall|k: int| 0 <= k < r@.len() ==> n < #[trigger] r@[k] && self.has(r@[k] as int),
    {
        proof {
            assert(self.node_wf(n as int));
        }
        self.named_in(&self.nodes[n].children, n)
    }

    /// The named nodes among `cs`, in order.
    fn named_in(&self, cs: &Vec<usize>, n: usize) -> (r: Vec<usize>)
        requires
            forall|k: int| 0 <= k < cs@.len() ==> n < #[trigger] cs@[k] < self.nodes@.len(),
        ensures
            r@.map_values(|c: usize| c as int) == self.named_among(cs@),
            forall|k: int| 0 <= k < r@.len() ==> n < #[trigger] r@[k] && self.has(r@[k] as int),
    {
        let mut r: Vec<usize> = Vec::new();
        let mut k: usize = 0;
        while k < cs.len()
            invariant
                k <= cs@.len(),
                forall|j: int| 0 <= j < cs@.len() ==> n < #[trigger] cs@[j] < self.nodes@.len(),
                r@.map_values(|c: usize| c as int) == self.named_among(cs@.take(k as int)),
                forall|j: int| 0 <= j < r@.len() ==> n < #[trigger] r@[j] && self.has(r@[j] as int),
            decreases cs@.len() - k,
        {
            assert(cs@.take(k + 1).drop_last() =~= cs@.take(k as int));
            assert(cs@.take(k + 1).last() == cs@[k as int]);
            let c = cs[k];
            if self.nodes[c].named {
                let ghost before = r@;
                r.push(c);
                assert(r@.map_values(|c: usize| c as int) =~= before.map_values(|c: usize| c as int).push(
                    c as int,
                ));
            }
            k = k + 1;
        }
        assert(cs@.take(k as int) =~= cs@);
        r
    }

    /// The first named child of node `n` of kind `kind`.
    pub fn find_named_child(&self, n: usize, kind: &str) -> (r: Option<usize>)
        requires
            self.wf(),
            self.has(n as int),
        ensures
            match r {
                Some(c) => self.named_child_of_kind(n as int, kind@) == Some(c as int) && n < c
                    && self.has(c as int),
                None => self.named_child_of_kind(n as int, kind@) is None,
            },
    {
        let cs = self.named_children(n);
        let ghost s = cs@.map_values(|c: usize| c as int);
        let m = cs.len();
        let mut k: usize = 0;
        assert(s.subrange(0, m as int) =~= s);
        while k < m
            invariant
                k <= m,
                m == cs@.len(),
                s == cs@.map_values(|c: usize| c as int),
                s == self.named_children_of(n as int),
                forall|j: int| 0 <= j < cs@.len() ==> n < #[trigger] cs@[j] && self.has(cs@[j] as int),
                self.first_of_kind(s, kind@) == self.first_of_kind(s.subrange(k as int, m as int), kind@),
            decreases m - k,
        {
            let ghost rest = s.subrange(k as int, m as int);
            assert(rest.drop_first() =~= s.subrange(k + 1, m as int));
            assert(rest[0] == cs@[k as int] as int);
            if self.is_kind(cs[k], kind) {
                return Some(cs[k]);
            }
            k = k + 1;
        }
        None
    }

    /// The named siblings of node `n` that come before it, nearest last.
    pub fn earlier_named_siblings(&self, n: usize) -> (r: Vec<usize>)
        requires
            self.wf(),
            self.has(n as int),
        ensures
            r@.map_values(|c: usize| c as int) == self.earlier_siblings_of(n as int),
            forall|k: int| 0 <= k < r@.len() ==> #[trigger] self.has(r@[k] as int),
    {
        match self.parent(n) {
            None => Vec::new(),
            Some(p) => {
                proof {
                    assert(self.node_wf(p as int));
                }
                let cs = &self.nodes[p].children;
                match position_of(cs, n) {
                    None => Vec::new(),
                    Some(k) => {
                        let mut before: Vec<usize> = Vec::new();
                        let mut j: usize = 0;
                        while j < k
                            invariant
                                j <= k,
                                k <= cs@.len(),
                                before@ == cs@.take(j as int),
                            decreases k - j,
                        {
                            before.push(cs[j]);
                            assert(before@ =~= cs@.take(j + 1));
                            j = j + 1;
                        }
                        assert(forall|i: int| 0 <= i < before@.len() ==> before@[i] == cs@[i]);
                        self.named_in(&before, p)
                    },
                }
            },
        }
    }
}

/// The child of the first of `fields` named `name`.
pub open spec fn first_field(fields: Seq<(String, usize)>, name: Seq<char>) -> Option<int>
    decreases fields.len(),
{
    if fields.len() == 0 {
        None
    } else if fields[0].0@ == name {
        Some(fields[0].1 as int)
    } else {
        first_field(fields.drop_first(), name)
    }
}

/// The first position of `n` in `cs`.
pub open spec fn first_position(cs: Seq<usize>, n: int) -> Option<int>
    decreases cs.len(),
{
    if cs.len() == 0 {
        None
    } else if cs[0] == n {
        Some(0)
    } else {
        match first_position(cs.drop_first(), n) {
            Some(k) => Some(k + 1),
            None => None,
        }
    }
}

/// The first position of `n` in `cs`.
fn position_of(cs: &Vec<usize>, n: usize) -> (r: Option<usize>)
    ensures
        match r {
            Some(k) => first_position(cs@, n as int) == Some(k as int) && k < cs@.len(),
            None => first_position(cs@, n as int) is None,
        },
{
    let m = cs.len();
    let mut k: usize = 0;
    while k < m
        invariant
            k <= m,
            m == cs@.len(),
            forall|j: int| 0 <= j < k ==> cs@[j] != n,
        decreases m - k,
    {
        if cs[k] == n {
            proof {
                lemma_first_position(cs@, n as int, k as int);
            }
            return Some(k);
        }
        k = k + 1;
    }
    proof {
        lemma_first_position_none(cs@, n as int);
    }
    None
}

/// The first position of `n` is `k` when `n` stands at `k` and not before.
proof fn lemma_first_position(cs: Seq<usize>, n: int, k: int)
    requires
        0 <= k < cs.len(),
        cs[k] == n,
        forall|j: int| 0 <= j < k ==> cs[j] != n,
    ensures
        first_position(cs, n) == Some(k),
    decreases k,
{
    if k > 0 {
        assert forall|j: int| 0 <= j < k - 1 implies cs.drop_first()[j] != n by {
            assert(cs.drop_first()[j] == cs[j + 1]);
        }
        lemma_first_position(cs.drop_first(), n, k - 1);
    }
}

/// `n` has no first position when it stands nowhere.
proof fn lemma_first_position_none(cs: Seq<usize>, n: int)
    requires
        forall|j: int| 0 <= j < cs.len() ==> cs[j] != n,
    ensures
        first_position(cs, n) is None,
    decreases cs.len(),
{
    if cs.len() > 0 {
        assert forall|j: int| 0 <= j < cs.len() - 1 implies cs.drop_first()[j] != n by {
            assert(cs.drop_first()[j] == cs[j + 1]);
        }
        lemma_first_position_none(cs.drop_first(), n);
    }
}

} // verus!
