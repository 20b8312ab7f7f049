//! An immutable syntax tree, stored as an index arena.
//!
//! Every node has a kind tag, a byte range and a parent link; tokens are leaf
//! nodes carrying their text. Parents precede their children in the arena, so
//! walking outward terminates, and tokens appear in document order. The two
//! trees of a completion request (original and speculative) are independent
//! values of this type; correspondence between them is established only by
//! intersecting byte ranges.

use vstd::prelude::*;

use crate::kind::{kind_in_class, spec_kind_in_class, KindClass, SyntaxKind};
use crate::text::TextRange;

verus! {

/// One node of a syntax tree. Tokens are nodes with `is_token` set; only
/// tokens carry text.
#[derive(Debug, Clone)]
pub struct SynNode {
    pub kind: SyntaxKind,
    pub range: TextRange,
    /// Arena index of the parent; `None` only for the root.
    pub parent: Option<usize>,
    pub is_token: bool,
    /// The token's text; empty for interior nodes.
    pub text: String,
}

/// A syntax tree as an arena of nodes; index 0 is the root.
#[derive(Debug, Clone)]
pub struct SynTree {
    pub nodes: Vec<SynNode>,
}

impl SynTree {
    /// The parent index of node `i`, with `-1` for the root (and for an
    /// out-of-range index).
    pub open spec fn parent_of(self, i: int) -> int {
        if 0 <= i < self.nodes.len() {
            match self.nodes[i].parent {
                Option::Some(p) => p as int,
                Option::None => -1,
            }
        } else {
            -1
        }
    }

    /// Structural conditions on a single non-root node: its parent comes
    /// earlier in the arena, is not a token, and contains its range.
    pub open spec fn wf_node(self, i: int) -> bool {
        &&& self.nodes[i].range.wf()
        &&& (i == 0 ==> self.nodes[i].parent is None)
        &&& (i > 0 ==> {
            let p = self.parent_of(i);
            &&& self.nodes[i].parent is Some
            &&& 0 <= p < i
            &&& !self.nodes[p].is_token
            &&& self.nodes[p].range.spec_contains_range(self.nodes[i].range)
        })
    }

    /// Well-formedness: a nonempty arena whose parent links are acyclic and
    /// range-nested, and whose tokens lie in document order without
    /// overlapping.
    pub open spec fn wf(self) -> bool {
        &&& self.nodes.len() > 0
        &&& forall|i: int| 0 <= i < self.nodes.len() ==> #[trigger] self.wf_node(i)
        &&& forall|i: int, j: int|
            0 <= i < j < self.nodes.len() && (#[trigger] self.nodes[i]).is_token
                && (#[trigger] self.nodes[j]).is_token ==> self.nodes[i].range.end
                <= self.nodes[j].range.start
    }

    /// Runtime well-formedness check; malformed input trees are rejected
    /// before any classification starts.
    pub fn check_wf(&self) -> (r: bool)
        ensures
            r == self.wf(),
    {
        if self.nodes.len() == 0 {
            return false;
        }
        let n = self.nodes.len();
        let mut i: usize = 0;
        while i < n
            invariant
                n == self.nodes.len(),
                0 <= i <= n,
                forall|k: int| 0 <= k < i ==> #[trigger] self.wf_node(k),
            decreases n - i,
        {
            let node = &self.nodes[i];
            if !(node.range.start <= node.range.end) {
                assert(!self.wf_node(i as int));
                return false;
            }
            match node.parent {
                Option::None => {
                    if i != 0 {
                        assert(!self.wf_node(i as int));
                        return false;
                    }
                },
                Option::Some(p) => {
                    if i == 0 {
                        assert(!self.wf_node(i as int));
                        return false;
                    }
                    if !(p < i) {
                        assert(!self.wf_node(i as int));
                        return false;
                    }
                    let pn = &self.nodes[p];
                    if pn.is_token {
                        assert(!self.wf_node(i as int));
                        return false;
                    }
                    if !(pn.range.start <= node.range.start && node.range.end <= pn.range.end) {
                        assert(!self.wf_node(i as int));
                        return false;
                    }
                },
            }
            assert(self.wf_node(i as int));
            i = i + 1;
        }
        let mut a: usize = 0;
        while a < n
            invariant
                n == self.nodes.len(),
                0 <= a <= n,
                forall|i: int, j: int|
                    0 <= i < j < n && i < a && (#[trigger] self.nodes[i]).is_token
                        && (#[trigger] self.nodes[j]).is_token ==> self.nodes[i].range.end
                        <= self.nodes[j].range.start,
            decreases n - a,
        {
            if self.nodes[a].is_token {
                let mut b: usize = a + 1;
                while b < n
                    invariant
                        n == self.nodes.len(),
                        a < n,
                        self.nodes[a as int].is_token,
                        a < b <= n,
                        forall|j: int|
                            a < j < b && (#[trigger] self.nodes[j]).is_token
                                ==> self.nodes[a as int].range.end <= self.nodes[j].range.start,
                    decreases n - b,
                {
                    if self.nodes[b].is_token
                        && !(self.nodes[a].range.end <= self.nodes[b].range.start) {
                        return false;
                    }
                    b = b + 1;
                }
            }
            a = a + 1;
        }
        true
    }

    /// Whether node `i` is a token touching `offset`.
    pub open spec fn token_touches(self, i: int, offset: int) -> bool {
        &&& 0 <= i < self.nodes.len()
        &&& self.nodes[i].is_token
        &&& self.nodes[i].range.touches(offset)
    }

    /// The first token at or after arena index `i` that touches `offset`.
    pub open spec fn spec_first_token_from(self, offset: int, i: int) -> Option<usize>
        decreases self.nodes.len() - i,
    {
        if i < 0 || i >= self.nodes.len() {
            Option::None
        } else if self.token_touches(i, offset) {
            Option::Some(i as usize)
        } else {
            self.spec_first_token_from(offset, i + 1)
        }
    }

    /// The token at `offset` with the smallest arena index: the token ending
    /// at the offset when the cursor sits on a boundary.
    pub open spec fn spec_left_biased(self, offset: int) -> Option<usize> {
        self.spec_first_token_from(offset, 0)
    }

    /// The last token at or before arena index `i` that touches `offset`.
    pub open spec fn spec_last_token_down(self, offset: int, i: int) -> Option<usize>
        decreases i + 1,
    {
        if i < 0 || i >= self.nodes.len() {
            Option::None
        } else if self.token_touches(i, offset) {
            Option::Some(i as usize)
        } else {
            self.spec_last_token_down(offset, i - 1)
        }
    }

    /// The token at `offset` with the greatest arena index: the token starting
    /// at the offset when the cursor sits on a boundary.
    pub open spec fn spec_right_biased(self, offset: int) -> Option<usize> {
        self.spec_last_token_down(offset, self.nodes.len() - 1)
    }

    fn first_token_from(&self, offset: usize, i: usize) -> (r: Option<usize>)
        ensures
            r == self.spec_first_token_from(offset as int, i as int),
            r is Some ==> r->0 < self.nodes.len(),
        decreases self.nodes.len() - i,
    {
        if i >= self.nodes.len() {
            None
        } else if self.nodes[i].is_token && self.nodes[i].range.contains_offset(offset) {
            Some(i)
        } else {
            self.first_token_from(offset, i + 1)
        }
    }

    /// Token lookup at an offset, preferring the token that ends there.
    pub fn token_at_offset_left_biased(&self, offset: usize) -> (r: Option<usize>)
        ensures
            r == self.spec_left_biased(offset as int),
            r is Some ==> r->0 < self.nodes.len(),
    {
        self.first_token_from(offset, 0)
    }

    fn last_token_down(&self, offset: usize, i: usize) -> (r: Option<usize>)
        requires
            i < self.nodes.len(),
        ensures
            r == self.spec_last_token_down(offset as int, i as int),
            r is Some ==> r->0 < self.nodes.len(),
        decreases i,
    {
        if self.nodes[i].is_token && self.nodes[i].range.contains_offset(offset) {
            Some(i)
        } else if i == 0 {
            proof {
                reveal_with_fuel(SynTree::spec_last_token_down, 2);
            }
            None
        } else {
            self.last_token_down(offset, i - 1)
        }
    }

    /// Token lookup at an offset, preferring the token that starts there.
    pub fn token_at_offset_right_biased(&self, offset: usize) -> (r: Option<usize>)
        ensures
            r == self.spec_right_biased(offset as int),
            r is Some ==> r->0 < self.nodes.len(),
    {
        if self.nodes.len() == 0 {
            return None;
        }
        self.last_token_down(offset, self.nodes.len() - 1)
    }

    /// The nearest node in the parent chain of `i` (including `i` itself)
    /// whose kind belongs to `class`.
    pub open spec fn spec_find_ancestor(self, i: int, class: KindClass) -> Option<usize>
        decreases i + 1,
        when -1 <= i < self.nodes.len()
    {
        if i < 0 {
            Option::None
        } else if spec_kind_in_class(self.nodes[i].kind, class) {
            Option::Some(i as usize)
        } else {
            let p = self.parent_of(i);
            if -1 <= p < i {
                self.spec_find_ancestor(p, class)
            } else {
                Option::None
            }
        }
    }

    pub fn find_ancestor(&self, i: usize, class: KindClass) -> (r: Option<usize>)
        requires
            self.wf(),
            i < self.nodes.len(),
        ensures
            r == self.spec_find_ancestor(i as int, class),
            r is Some ==> r->0 < self.nodes.len(),
        decreases i,
    {
        proof {
            assert(self.wf_node(i as int));
        }
        if kind_in_class(self.nodes[i].kind, class) {
            Some(i)
        } else {
            match self.nodes[i].parent {
                Option::None => {
                    proof {
                        reveal_with_fuel(SynTree::spec_find_ancestor, 2);
                    }
                    None
                },
                Option::Some(p) => self.find_ancestor(p, class),
            }
        }
    }

    /// Upper bound on a successful ancestor search: the match lies at or
    /// below the start.
    pub proof fn lemma_find_ancestor_le(self, i: int, class: KindClass)
        requires
            -1 <= i < self.nodes.len(),
            self.spec_find_ancestor(i, class) is Some,
        ensures
            self.spec_find_ancestor(i, class)->0 <= i,
        decreases i + 1,
    {
        if i < 0 {
        } else if spec_kind_in_class(self.nodes[i].kind, class) {
        } else {
            let p = self.parent_of(i);
            if -1 <= p < i {
                self.lemma_find_ancestor_le(p, class);
            }
        }
    }

    /// The parent of `i`, as an `Option`.
    pub fn parent(&self, i: usize) -> (r: Option<usize>)
        requires
            self.wf(),
            i < self.nodes.len(),
        ensures
            r is Some <==> self.parent_of(i as int) >= 0,
            r is Some ==> r->0 == self.parent_of(i as int) && r->0 < i,
    {
        proof {
            assert(self.wf_node(i as int));
        }
        self.nodes[i].parent
    }

    /// The kind of node `i`.
    pub fn kind(&self, i: usize) -> (r: SyntaxKind)
        requires
            i < self.nodes.len(),
        ensures
            r == self.nodes[i as int].kind,
    {
        self.nodes[i].kind
    }

    /// The range of node `i`.
    pub fn range(&self, i: usize) -> (r: TextRange)
        requires
            i < self.nodes.len(),
        ensures
            r == self.nodes[i as int].range,
    {
        self.nodes[i].range
    }

    /// The first child of `p` (in arena order) at or after index `i` whose
    /// kind is `k`.
    pub open spec fn spec_child_of_kind_from(self, p: int, k: SyntaxKind, i: int) -> Option<usize>
        decreases self.nodes.len() - i,
    {
        if i < 0 || i >= self.nodes.len() {
            Option::None
        } else if self.parent_of(i) == p && self.nodes[i].kind == k {
            Option::Some(i as usize)
        } else {
            self.spec_child_of_kind_from(p, k, i + 1)
        }
    }

    /// The first child of `p` whose kind is `k`.
    pub open spec fn spec_child_of_kind(self, p: int, k: SyntaxKind) -> Option<usize> {
        self.spec_child_of_kind_from(p, k, p + 1)
    }

    fn child_of_kind_from(&self, p: usize, k: SyntaxKind, i: usize) -> (r: Option<usize>)
        ensures
            r == self.spec_child_of_kind_from(p as int, k, i as int),
            r is Some ==> r->0 < self.nodes.len(),
        decreases self.nodes.len() - i,
    {
        if i >= self.nodes.len() {
            None
        } else if match self.nodes[i].parent {
            Option::Some(q) => q == p,
            Option::None => false,
        } && self.nodes[i].kind == k {
            Some(i)
        } else {
            self.child_of_kind_from(p, k, i + 1)
        }
    }

    pub fn child_of_kind(&self, p: usize, k: SyntaxKind) -> (r: Option<usize>)
        requires
            p < self.nodes.len(),
        ensures
            r == self.spec_child_of_kind(p as int, k),
            r is Some ==> r->0 < self.nodes.len(),
    {
        self.child_of_kind_from(p, k, p + 1)
    }

    /// Lower bound on a successful child-of-kind scan: the match lies at or
    /// after the scan start.
    pub proof fn lemma_child_of_kind_from_bounds(self, p: int, k: SyntaxKind, i: int)
        requires
            self.spec_child_of_kind_from(p, k, i) is Some,
        ensures
            i <= self.spec_child_of_kind_from(p, k, i)->0 < self.nodes.len(),
        decreases self.nodes.len() - i,
    {
        if i < 0 || i >= self.nodes.len() {
        } else if self.parent_of(i) == p && self.nodes[i].kind == k {
        } else {
            self.lemma_child_of_kind_from_bounds(p, k, i + 1);
        }
    }

    /// The first child of `p` at or after index `i` whose kind belongs to
    /// `class`.
    pub open spec fn spec_child_in_class_from(self, p: int, class: KindClass, i: int) -> Option<
        usize,
    >
        decreases self.nodes.len() - i,
    {
        if i < 0 || i >= self.nodes.len() {
            Option::None
        } else if self.parent_of(i) == p && spec_kind_in_class(self.nodes[i].kind, class) {
            Option::Some(i as usize)
        } else {
            self.spec_child_in_class_from(p, class, i + 1)
        }
    }

    /// The first child of `p` whose kind belongs to `class`.
    pub open spec fn spec_child_in_class(self, p: int, class: KindClass) -> Option<usize> {
        self.spec_child_in_class_from(p, class, p + 1)
    }

    fn child_in_class_from(&self, p: usize, class: KindClass, i: usize) -> (r: Option<usize>)
        ensures
            r == self.spec_child_in_class_from(p as int, class, i as int),
            r is Some ==> r->0 < self.nodes.len(),
        decreases self.nodes.len() - i,
    {
        if i >= self.nodes.len() {
            None
        } else if match self.nodes[i].parent {
            Option::Some(q) => q == p,
            Option::None => false,
        } && kind_in_class(self.nodes[i].kind, class) {
            Some(i)
        } else {
            self.child_in_class_from(p, class, i + 1)
        }
    }

    pub fn child_in_class(&self, p: usize, class: KindClass) -> (r: Option<usize>)
        requires
            p < self.nodes.len(),
        ensures
            r == self.spec_child_in_class(p as int, class),
            r is Some ==> r->0 < self.nodes.len(),
    {
        self.child_in_class_from(p, class, p + 1)
    }

    /// The greatest index at or below `i` that is a child of `p`: the
    /// previous sibling when scanning from a node's own index.
    pub open spec fn spec_prev_child_upto(self, p: int, i: int) -> Option<usize>
        decreases i + 1,
    {
        if i < 0 || i >= self.nodes.len() {
            Option::None
        } else if self.parent_of(i) == p {
            Option::Some(i as usize)
        } else {
            self.spec_prev_child_upto(p, i - 1)
        }
    }

    /// The sibling (node or token) immediately before `i` in arena order.
    pub open spec fn spec_prev_sibling_or_token(self, i: int) -> Option<usize> {
        self.spec_prev_child_upto(self.parent_of(i), i - 1)
    }

    fn prev_child_upto(&self, p: usize, i: usize) -> (r: Option<usize>)
        requires
            i < self.nodes.len(),
        ensures
            r == self.spec_prev_child_upto(p as int, i as int),
            r is Some ==> r->0 < self.nodes.len(),
        decreases i,
    {
        if match self.nodes[i].parent {
            Option::Some(q) => q == p,
            Option::None => false,
        } {
            Some(i)
        } else if i == 0 {
            proof {
                reveal_with_fuel(SynTree::spec_prev_child_upto, 2);
            }
            None
        } else {
            self.prev_child_upto(p, i - 1)
        }
    }

    pub fn prev_sibling_or_token(&self, i: usize) -> (r: Option<usize>)
        requires
            self.wf(),
            i < self.nodes.len(),
        ensures
            r == self.spec_prev_sibling_or_token(i as int),
            r is Some ==> r->0 < self.nodes.len(),
    {
        proof {
            assert(self.wf_node(i as int));
        }
        match self.nodes[i].parent {
            Option::None => {
                // Only the root lacks a parent, and the root has no earlier
                // sibling.
                assert(i == 0);
                assert(self.spec_prev_child_upto(-1, -1) is None);
                None
            },
            Option::Some(p) => {
                assert(i > 0);
                self.prev_child_upto(p, i - 1)
            },
        }
    }

    /// The next non-trivia sibling of `i`, at or after index `j`.
    pub open spec fn spec_next_nontrivia_sibling_from(self, p: int, j: int) -> Option<usize>
        decreases self.nodes.len() - j,
    {
        if j < 0 || j >= self.nodes.len() {
            Option::None
        } else if self.parent_of(j) == p && !self.nodes[j].kind.spec_is_trivia() {
            Option::Some(j as usize)
        } else {
            self.spec_next_nontrivia_sibling_from(p, j + 1)
        }
    }

    /// The non-trivia sibling following `i` in arena order.
    pub open spec fn spec_next_nontrivia_sibling(self, i: int) -> Option<usize> {
        self.spec_next_nontrivia_sibling_from(self.parent_of(i), i + 1)
    }

    fn next_nontrivia_sibling_from(&self, p: usize, j: usize) -> (r: Option<usize>)
        ensures
            r == self.spec_next_nontrivia_sibling_from(p as int, j as int),
            r is Some ==> r->0 < self.nodes.len(),
        decreases self.nodes.len() - j,
    {
        if j >= self.nodes.len() {
            None
        } else if match self.nodes[j].parent {
            Option::Some(q) => q == p,
            Option::None => false,
        } && !self.nodes[j].kind.is_trivia() {
            Some(j)
        } else {
            self.next_nontrivia_sibling_from(p, j + 1)
        }
    }

    pub fn next_nontrivia_sibling(&self, i: usize) -> (r: Option<usize>)
        requires
            self.wf(),
            i < self.nodes.len(),
        ensures
            r == self.spec_next_nontrivia_sibling(i as int),
            r is Some ==> r->0 < self.nodes.len(),
    {
        proof {
            assert(self.wf_node(i as int));
        }
        match self.nodes[i].parent {
            Option::None => {
                assert(i == 0);
                proof {
                    assert forall|j: int| i < j < self.nodes.len() implies self.parent_of(j) != -1
                    by {
                        assert(self.wf_node(j));
                    }
                    assert(self.spec_next_nontrivia_sibling_from(-1, i + 1) is None) by {
                        self.lemma_next_sibling_none(-1, i as int + 1);
                    }
                }
                None
            },
            Option::Some(p) => self.next_nontrivia_sibling_from(p, i + 1),
        }
    }

    proof fn lemma_next_sibling_none(self, p: int, j: int)
        requires
            forall|k: int| j <= k < self.nodes.len() ==> self.parent_of(k) != p,
        ensures
            self.spec_next_nontrivia_sibling_from(p, j) is None,
        decreases self.nodes.len() - j,
    {
        if j < 0 || j >= self.nodes.len() {
        } else {
            self.lemma_next_sibling_none(p, j + 1);
        }
    }

    /// The last token at or below index `i`.
    pub open spec fn spec_last_token_upto(self, i: int) -> Option<usize>
        decreases i + 1,
    {
        if i < 0 || i >= self.nodes.len() {
            Option::None
        } else if self.nodes[i].is_token {
            Option::Some(i as usize)
        } else {
            self.spec_last_token_upto(i - 1)
        }
    }

    /// The token preceding token `i` in document order.
    pub open spec fn spec_prev_token(self, i: int) -> Option<usize> {
        self.spec_last_token_upto(i - 1)
    }

    pub fn prev_token(&self, i: usize) -> (r: Option<usize>)
        requires
            i < self.nodes.len(),
        ensures
            r == self.spec_prev_token(i as int),
            r is Some ==> r->0 < self.nodes.len(),
    {
        if i == 0 {
            return None;
        }
        let mut j: usize = i - 1;
        loop
            invariant
                j < i <= self.nodes.len(),
                self.spec_last_token_upto(i - 1) == self.spec_last_token_upto(j as int),
            decreases j,
        {
            if self.nodes[j].is_token {
                return Some(j);
            }
            if j == 0 {
                proof {
                    reveal_with_fuel(SynTree::spec_last_token_upto, 2);
                }
                return None;
            }
            j = j - 1;
        }
    }

    /// The last token at or below `i` whose kind is not trivia.
    pub open spec fn spec_last_nontrivia_token_upto(self, i: int) -> Option<usize>
        decreases i + 1,
    {
        if i < 0 || i >= self.nodes.len() {
            Option::None
        } else if self.nodes[i].is_token && !self.nodes[i].kind.spec_is_trivia() {
            Option::Some(i as usize)
        } else {
            self.spec_last_nontrivia_token_upto(i - 1)
        }
    }

    /// The non-trivia token preceding token `i` in document order.
    pub open spec fn spec_prev_nontrivia_token(self, i: int) -> Option<usize> {
        self.spec_last_nontrivia_token_upto(i - 1)
    }

    /// The length of node `i`'s range.
    pub open spec fn spec_len_of(self, i: int) -> int {
        self.nodes[i].range.spec_len()
    }

    /// The first match in the two ancestor chains `a` and `b`, visited
    /// shortest-range first (ties yield the second chain's node first), as
    /// the node search at a boundary offset does: the chains belong to the
    /// token ending and the token starting at the offset. `-1` marks an
    /// exhausted chain.
    pub open spec fn spec_merged_find(self, a: int, b: int, class: KindClass) -> Option<usize>
        decreases a + b + 2,
        when -1 <= a < self.nodes.len() && -1 <= b < self.nodes.len()
    {
        if a < 0 && b < 0 {
            Option::None
        } else if b < 0 {
            if spec_kind_in_class(self.nodes[a].kind, class) {
                Option::Some(a as usize)
            } else {
                let p = self.parent_of(a);
                if -1 <= p < a {
                    self.spec_merged_find(p, b, class)
                } else {
                    Option::None
                }
            }
        } else if a >= 0 && self.spec_len_of(a) < self.spec_len_of(b) {
            if spec_kind_in_class(self.nodes[a].kind, class) {
                Option::Some(a as usize)
            } else {
                let p = self.parent_of(a);
                if -1 <= p < a {
                    self.spec_merged_find(p, b, class)
                } else {
                    Option::None
                }
            }
        } else {
            if spec_kind_in_class(self.nodes[b].kind, class) {
                Option::Some(b as usize)
            } else {
                let p = self.parent_of(b);
                if -1 <= p < b {
                    self.spec_merged_find(a, p, class)
                } else {
                    Option::None
                }
            }
        }
    }

    /// Exec mirror of `spec_merged_find`; `a`/`b` use `None` for an
    /// exhausted chain.
    fn merged_find(&self, a: Option<usize>, b: Option<usize>, class: KindClass) -> (r: Option<
        usize,
    >)
        requires
            self.wf(),
            a is Some ==> a->0 < self.nodes.len(),
            b is Some ==> b->0 < self.nodes.len(),
        ensures
            r == self.spec_merged_find(
                if a is Some { a->0 as int } else { -1 },
                if b is Some { b->0 as int } else { -1 },
                class,
            ),
            r is Some ==> r->0 < self.nodes.len(),
        decreases (if a is Some { a->0 as int } else { -1 }) + (if b is Some {
            b->0 as int
        } else {
            -1
        }) + 2,
    {
        proof {
            if a is Some {
                assert(self.wf_node(a->0 as int));
            }
            if b is Some {
                assert(self.wf_node(b->0 as int));
            }
        }
        match (a, b) {
            (Option::None, Option::None) => None,
            (Option::Some(x), Option::None) => {
                if kind_in_class(self.nodes[x].kind, class) {
                    Some(x)
                } else {
                    proof {
                        reveal_with_fuel(SynTree::spec_merged_find, 2);
                    }
                    self.merged_find(self.nodes[x].parent, None, class)
                }
            },
            (an, Option::Some(y)) => {
                let take_a = match an {
                    Option::Some(x) => {
                        let la = self.nodes[x].range.len();
                        let lb = self.nodes[y].range.len();
                        la < lb
                    },
                    Option::None => false,
                };
                if take_a {
                    let x = match an {
                        Option::Some(x) => x,
                        Option::None => 0,
                    };
                    if kind_in_class(self.nodes[x].kind, class) {
                        Some(x)
                    } else {
                        proof {
                            reveal_with_fuel(SynTree::spec_merged_find, 2);
                        }
                        self.merged_find(self.nodes[x].parent, b, class)
                    }
                } else {
                    if kind_in_class(self.nodes[y].kind, class) {
                        Some(y)
                    } else {
                        proof {
                            reveal_with_fuel(SynTree::spec_merged_find, 2);
                        }
                        self.merged_find(an, self.nodes[y].parent, class)
                    }
                }
            },
        }
    }

    /// The innermost node of class `class` at `offset`: ancestors of the
    /// boundary tokens at the offset, visited shortest-range first.
    pub open spec fn spec_find_node_at_offset(self, offset: int, class: KindClass) -> Option<
        usize,
    > {
        match (self.spec_left_biased(offset), self.spec_right_biased(offset)) {
            (Option::Some(lt), Option::Some(rt)) => self.spec_merged_find(
                self.parent_of(lt as int),
                self.parent_of(rt as int),
                class,
            ),
            _ => Option::None,
        }
    }

    pub fn find_node_at_offset(&self, offset: usize, class: KindClass) -> (r: Option<usize>)
        requires
            self.wf(),
        ensures
            r == self.spec_find_node_at_offset(offset as int, class),
            r is Some ==> r->0 < self.nodes.len(),
    {
        let lt = match self.token_at_offset_left_biased(offset) {
            Option::Some(t) => t,
            Option::None => {
                return None;
            },
        };
        let rt = match self.token_at_offset_right_biased(offset) {
            Option::Some(t) => t,
            Option::None => {
                return None;
            },
        };
        proof {
            assert(self.wf_node(lt as int));
            assert(self.wf_node(rt as int));
        }
        self.merged_find(self.nodes[lt].parent, self.nodes[rt].parent, class)
    }

    /// The first child of `p` at or after index `i` whose range contains `r`.
    pub open spec fn spec_child_containing_from(self, p: int, r: TextRange, i: int) -> Option<
        usize,
    >
        decreases self.nodes.len() - i,
    {
        if i < 0 || i >= self.nodes.len() {
            Option::None
        } else if self.parent_of(i) == p && self.nodes[i].range.spec_contains_range(r) {
            Option::Some(i as usize)
        } else {
            self.spec_child_containing_from(p, r, i + 1)
        }
    }

    fn child_containing(&self, p: usize, r: &TextRange, i: usize) -> (res: Option<usize>)
        ensures
            res == self.spec_child_containing_from(p as int, *r, i as int),
            res is Some ==> res->0 < self.nodes.len(),
        decreases self.nodes.len() - i,
    {
        if i >= self.nodes.len() {
            None
        } else if match self.nodes[i].parent {
            Option::Some(q) => q == p,
            Option::None => false,
        } && self.nodes[i].range.contains_range(r) {
            Some(i)
        } else {
            self.child_containing(p, r, i + 1)
        }
    }

    /// The deepest node below `cur` whose range contains `r`, descending
    /// into the first containing child at each step.
    pub open spec fn spec_covering_from(self, cur: int, r: TextRange) -> int
        decreases self.nodes.len() - cur,
        when 0 <= cur < self.nodes.len()
    {
        match self.spec_child_containing_from(cur, r, cur + 1) {
            Option::Some(c) => {
                if cur < c < self.nodes.len() {
                    self.spec_covering_from(c as int, r)
                } else {
                    cur
                }
            },
            Option::None => cur,
        }
    }

    proof fn lemma_child_containing_bounds(self, p: int, r: TextRange, i: int)
        requires
            self.spec_child_containing_from(p, r, i) is Some,
        ensures
            i <= self.spec_child_containing_from(p, r, i)->0 < self.nodes.len(),
        decreases self.nodes.len() - i,
    {
        if i < 0 || i >= self.nodes.len() {
        } else if self.parent_of(i) == p && self.nodes[i].range.spec_contains_range(r) {
        } else {
            self.lemma_child_containing_bounds(p, r, i + 1);
        }
    }

    /// The deepest node whose range contains `r`, or `None` when even the
    /// root does not contain it.
    pub open spec fn spec_covering(self, r: TextRange) -> Option<usize> {
        if self.nodes.len() > 0 && self.nodes[0].range.spec_contains_range(r) {
            Option::Some(self.spec_covering_from(0, r) as usize)
        } else {
            Option::None
        }
    }

    fn covering_from(&self, cur: usize, r: &TextRange) -> (res: usize)
        requires
            self.wf(),
            cur < self.nodes.len(),
        ensures
            res == self.spec_covering_from(cur as int, *r),
            res < self.nodes.len(),
        decreases self.nodes.len() - cur,
    {
        match self.child_containing(cur, r, cur + 1) {
            Option::Some(c) => {
                proof {
                    self.lemma_child_containing_bounds(cur as int, *r, cur as int + 1);
                }
                self.covering_from(c, r)
            },
            Option::None => cur,
        }
    }

    /// The deepest node (possibly a token) whose range contains `r`.
    pub fn covering(&self, r: &TextRange) -> (res: Option<usize>)
        requires
            self.wf(),
        ensures
            res == self.spec_covering(*r),
            res is Some ==> res->0 < self.nodes.len(),
    {
        if self.nodes[0].range.contains_range(r) {
            Some(self.covering_from(0, r))
        } else {
            None
        }
    }

    /// The first ancestor (inclusive) of the node covering `r` that belongs
    /// to `class`: how a node is re-located in the other tree of the pair
    /// from its byte range alone.
    pub open spec fn spec_find_covering_ancestor(self, r: TextRange, class: KindClass) -> Option<
        usize,
    > {
        match self.spec_covering(r) {
            Option::Some(c) => self.spec_find_ancestor(c as int, class),
            Option::None => Option::None,
        }
    }

    pub fn find_covering_ancestor(&self, r: &TextRange, class: KindClass) -> (res: Option<usize>)
        requires
            self.wf(),
        ensures
            res == self.spec_find_covering_ancestor(*r, class),
            res is Some ==> res->0 < self.nodes.len(),
    {
        match self.covering(r) {
            Option::Some(c) => self.find_ancestor(c, class),
            Option::None => None,
        }
    }

    /// The texts of the tokens among the first `i` nodes whose ranges lie
    /// within `r`, in document order.
    pub open spec fn spec_token_texts_upto(self, r: TextRange, i: int) -> Seq<Seq<char>>
        decreases i,
    {
        if i <= 0 || i > self.nodes.len() {
            Seq::empty()
        } else {
            let rest = self.spec_token_texts_upto(r, i - 1);
            if self.nodes[i - 1].is_token && r.spec_contains_range(self.nodes[i - 1].range) {
                rest.push(self.nodes[i - 1].text@)
            } else {
                rest
            }
        }
    }

    /// The texts of all tokens lying within `r`, in document order: the
    /// text of the node spanning `r`, token by token.
    pub open spec fn spec_token_texts_in(self, r: TextRange) -> Seq<Seq<char>> {
        self.spec_token_texts_upto(r, self.nodes.len() as int)
    }

    pub fn token_texts_in(&self, r: &TextRange) -> (res: Vec<String>)
        ensures
            res@.map_values(|s: String| s@) == self.spec_token_texts_in(*r),
    {
        let mut acc: Vec<String> = Vec::new();
        let mut i: usize = 0;
        proof {
            assert(acc@.map_values(|s: String| s@) =~= self.spec_token_texts_upto(*r, 0));
        }
        while i < self.nodes.len()
            invariant
                i <= self.nodes.len(),
                acc@.map_values(|s: String| s@) == self.spec_token_texts_upto(*r, i as int),
            decreases self.nodes.len() - i,
        {
            if self.nodes[i].is_token && r.contains_range(&self.nodes[i].range) {
                let t = self.nodes[i].text.clone();
                acc.push(t);
                proof {
                    assert(acc@.map_values(|s: String| s@) =~= self.spec_token_texts_upto(
                        *r,
                        i as int + 1,
                    ));
                }
            } else {
                proof {
                    assert(acc@.map_values(|s: String| s@) =~= self.spec_token_texts_upto(
                        *r,
                        i as int + 1,
                    ));
                }
            }
            i = i + 1;
        }
        acc
    }

    /// The last token (in document order) whose range lies within `r`.
    pub open spec fn spec_last_token_in_upto(self, r: TextRange, i: int) -> Option<usize>
        decreases i + 1,
    {
        if i < 0 || i >= self.nodes.len() {
            Option::None
        } else if self.nodes[i].is_token && r.spec_contains_range(self.nodes[i].range) {
            Option::Some(i as usize)
        } else {
            self.spec_last_token_in_upto(r, i - 1)
        }
    }

    pub open spec fn spec_last_token_in(self, r: TextRange) -> Option<usize> {
        self.spec_last_token_in_upto(r, self.nodes.len() - 1)
    }

    pub fn last_token_in(&self, r: &TextRange) -> (res: Option<usize>)
        ensures
            res == self.spec_last_token_in(*r),
            res is Some ==> res->0 < self.nodes.len(),
    {
        if self.nodes.len() == 0 {
            return None;
        }
        let mut j: usize = self.nodes.len() - 1;
        loop
            invariant
                j < self.nodes.len(),
                self.spec_last_token_in(*r) == self.spec_last_token_in_upto(*r, j as int),
            decreases j,
        {
            if self.nodes[j].is_token && r.contains_range(&self.nodes[j].range) {
                return Some(j);
            }
            if j == 0 {
                proof {
                    reveal_with_fuel(SynTree::spec_last_token_in_upto, 2);
                }
                return None;
            }
            j = j - 1;
        }
    }

    pub fn prev_nontrivia_token(&self, i: usize) -> (r: Option<usize>)
        requires
            i < self.nodes.len(),
        ensures
            r == self.spec_prev_nontrivia_token(i as int),
            r is Some ==> r->0 < self.nodes.len(),
    {
        if i == 0 {
            return None;
        }
        let mut j: usize = i - 1;
        loop
            invariant
                j < i <= self.nodes.len(),
                self.spec_last_nontrivia_token_upto(i - 1) == self.spec_last_nontrivia_token_upto(
                    j as int,
                ),
            decreases j,
        {
            if self.nodes[j].is_token && !self.nodes[j].kind.is_trivia() {
                return Some(j);
            }
            if j == 0 {
                proof {
                    reveal_with_fuel(SynTree::spec_last_nontrivia_token_upto, 2);
                }
                return None;
            }
            j = j - 1;
        }
    }
}

} // verus!
