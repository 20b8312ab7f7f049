//! Syntactic surroundings of the completion token: the immediate location
//! and previous-sibling classifications consumed by the context accessors,
//! and the small token-level probes used while filling the context.

use vstd::prelude::*;

use crate::kind::SyntaxKind;
use crate::tree::SynTree;

verus! {

/// The immediate syntactic location of the completion token, as classified
/// by the surrounding completion framework.
#[derive(Clone, Copy, Debug, PartialEq, Eq, Structural)]
pub enum ImmediateLocation {
    Trait,
    Impl,
    ItemList,
    StmtList,
    RefExpr,
    /// A tuple-struct field position.
    TupleField,
    /// Payloads carry the arena index of the relevant node in the
    /// speculative tree.
    GenericArgList(usize),
    RecordPat(usize),
    RecordExpr(usize),
}

/// The classification of the token's previous sibling, as supplied by the
/// surrounding completion framework.
#[derive(Clone, Copy, Debug, PartialEq, Eq, Structural)]
pub enum ImmediatePrevSibling {
    IfExpr,
    TraitDefName,
    ImplDefType,
    Visibility,
    Attribute,
}

/// Whether the node `i` sits inside the body of an enclosing loop, without
/// leaving the enclosing function or closure.
pub open spec fn spec_is_in_loop_body(tree: SynTree, i: int) -> bool
    decreases i + 1,
    when -1 <= i < tree.nodes.len()
{
    if i < 0 {
        false
    } else {
        let here = i;
        let a = tree.parent_of(i);
        if -1 <= a < here {
            spec_loop_scan(tree, a, tree.nodes[i].range)
        } else {
            false
        }
    }
}

/// Ancestor scan for `spec_is_in_loop_body`, carrying the starting node's
/// range: true when a loop ancestor's body block contains it.
pub open spec fn spec_loop_scan(tree: SynTree, a: int, r: crate::text::TextRange) -> bool
    decreases a + 1,
    when -1 <= a < tree.nodes.len()
{
    if a < 0 {
        false
    } else if tree.nodes[a].kind == SyntaxKind::Fn || tree.nodes[a].kind
        == SyntaxKind::ClosureExpr {
        false
    } else {
        let body_hit = (tree.nodes[a].kind == SyntaxKind::ForExpr || tree.nodes[a].kind
            == SyntaxKind::WhileExpr || tree.nodes[a].kind == SyntaxKind::LoopExpr)
            && match tree.spec_child_of_kind(a, SyntaxKind::BlockExpr) {
            Option::Some(b) => tree.nodes[b as int].range.spec_contains_range(r),
            Option::None => false,
        };
        if body_hit {
            true
        } else {
            let p = tree.parent_of(a);
            if -1 <= p < a {
                spec_loop_scan(tree, p, r)
            } else {
                false
            }
        }
    }
}

fn loop_scan(tree: &SynTree, a: usize, r: &crate::text::TextRange) -> (res: bool)
    requires
        tree.wf(),
        a < tree.nodes.len(),
    ensures
        res == spec_loop_scan(*tree, a as int, *r),
    decreases a,
{
    proof {
        assert(tree.wf_node(a as int));
    }
    let k = tree.nodes[a].kind;
    if k == SyntaxKind::Fn || k == SyntaxKind::ClosureExpr {
        return false;
    }
    if k == SyntaxKind::ForExpr || k == SyntaxKind::WhileExpr || k == SyntaxKind::LoopExpr {
        match tree.child_of_kind(a, SyntaxKind::BlockExpr) {
            Option::Some(b) => {
                if tree.nodes[b].range.contains_range(r) {
                    return true;
                }
            },
            Option::None => {},
        }
    }
    match tree.nodes[a].parent {
        Option::Some(p) => loop_scan(tree, p, r),
        Option::None => {
            proof {
                reveal_with_fuel(spec_loop_scan, 2);
            }
            false
        },
    }
}

pub fn is_in_loop_body(tree: &SynTree, i: usize) -> (res: bool)
    requires
        tree.wf(),
        i < tree.nodes.len(),
    ensures
        res == spec_is_in_loop_body(*tree, i as int),
{
    proof {
        assert(tree.wf_node(i as int));
    }
    match tree.nodes[i].parent {
        Option::Some(a) => loop_scan(tree, a, &tree.nodes[i].range),
        Option::None => false,
    }
}

/// Whether the token `tok` sits in the keyword slot of a `for` loop: after
/// the pattern, where only `in` may follow. Such a position is deliberately
/// left without a context.
pub open spec fn spec_for_loop_slot(tree: SynTree, tok: int) -> bool {
    let range = tree.nodes[tok].range;
    match spec_for_expr_ancestor(tree, tree.parent_of(tok)) {
        Option::None => false,
        Option::Some(f) => {
            match tree.spec_child_of_kind(f as int, SyntaxKind::InKw) {
                Option::Some(in_tok) => in_tok == tok,
                Option::None => {
                    match spec_pat_child(tree, f as int) {
                        Option::None => false,
                        Option::Some(p) => {
                            if range.end < tree.nodes[p as int].range.end {
                                false
                            } else {
                                match tree.spec_next_nontrivia_sibling(p as int) {
                                    Option::None => false,
                                    Option::Some(s) => tree.nodes[s as int].range.start
                                        >= range.end,
                                }
                            }
                        },
                    }
                },
            }
        },
    }
}

/// The nearest `for`-expression in the parent chain starting at `i`.
pub open spec fn spec_for_expr_ancestor(tree: SynTree, i: int) -> Option<usize>
    decreases i + 1,
    when -1 <= i < tree.nodes.len()
{
    if i < 0 {
        Option::None
    } else if tree.nodes[i].kind == SyntaxKind::ForExpr {
        Option::Some(i as usize)
    } else {
        let p = tree.parent_of(i);
        if -1 <= p < i {
            spec_for_expr_ancestor(tree, p)
        } else {
            Option::None
        }
    }
}

fn for_expr_ancestor(tree: &SynTree, i: usize) -> (res: Option<usize>)
    requires
        tree.wf(),
        i < tree.nodes.len(),
    ensures
        res == spec_for_expr_ancestor(*tree, i as int),
        res is Some ==> res->0 < tree.nodes.len(),
    decreases i,
{
    proof {
        assert(tree.wf_node(i as int));
    }
    if tree.nodes[i].kind == SyntaxKind::ForExpr {
        Some(i)
    } else {
        match tree.nodes[i].parent {
            Option::Some(p) => for_expr_ancestor(tree, p),
            Option::None => {
                proof {
                    reveal_with_fuel(spec_for_expr_ancestor, 2);
                }
                None
            },
        }
    }
}

/// The first pattern-kind child of `p`.
pub open spec fn spec_pat_child_from(tree: SynTree, p: int, i: int) -> Option<usize>
    decreases tree.nodes.len() - i,
{
    if i < 0 || i >= tree.nodes.len() {
        Option::None
    } else if tree.parent_of(i) == p && tree.nodes[i].kind.spec_is_pat() {
        Option::Some(i as usize)
    } else {
        spec_pat_child_from(tree, p, i + 1)
    }
}

pub open spec fn spec_pat_child(tree: SynTree, p: int) -> Option<usize> {
    spec_pat_child_from(tree, p, p + 1)
}

pub fn pat_child(tree: &SynTree, p: usize) -> (res: Option<usize>)
    requires
        p < tree.nodes.len(),
    ensures
        res == spec_pat_child(*tree, p as int),
        res is Some ==> res->0 < tree.nodes.len(),
{
    let mut i: usize = p + 1;
    while i < tree.nodes.len()
        invariant
            p < i <= tree.nodes.len(),
            spec_pat_child(*tree, p as int) == spec_pat_child_from(*tree, p as int, i as int),
        decreases tree.nodes.len() - i,
    {
        if match tree.nodes[i].parent {
            Option::Some(q) => q == p,
            Option::None => false,
        } && tree.nodes[i].kind.is_pat() {
            return Some(i);
        }
        i = i + 1;
    }
    None
}

pub fn is_in_token_of_for_loop(tree: &SynTree, tok: usize) -> (res: bool)
    requires
        tree.wf(),
        tok < tree.nodes.len(),
    ensures
        res == spec_for_loop_slot(*tree, tok as int),
{
    proof {
        assert(tree.wf_node(tok as int));
    }
    let range = tree.nodes[tok].range;
    let f = match tree.nodes[tok].parent {
        Option::Some(a) => {
            match for_expr_ancestor(tree, a) {
                Option::Some(f) => f,
                Option::None => {
                    return false;
                },
            }
        },
        Option::None => {
            return false;
        },
    };
    match tree.child_of_kind(f, SyntaxKind::InKw) {
        Option::Some(in_tok) => in_tok == tok,
        Option::None => {
            match pat_child(tree, f) {
                Option::None => false,
                Option::Some(p) => {
                    if range.end < tree.nodes[p].range.end {
                        false
                    } else {
                        match tree.next_nontrivia_sibling(p) {
                            Option::None => false,
                            Option::Some(s) => tree.nodes[s].range.start >= range.end,
                        }
                    }
                },
            }
        },
    }
}

} // verus!
