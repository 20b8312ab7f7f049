//! Expected type and name inference: ascend from the cursor token through a
//! fixed priority list of container shapes, each yielding a (type, name)
//! pair from semantic-model queries, stopping at statement, item and
//! parameter-list boundaries.

use vstd::prelude::*;

use crate::context::ExpectedNameInfo;
use crate::kind::{KindClass, SyntaxKind};
use crate::sema::{spec_node_key_from, node_key_get, NodeLoc, Semantics};
use crate::tree::SynTree;

verus! {

/// Whether the token is preceded by a reference marker: the token itself,
/// then one optional identifier, whitespace and `mut` are skipped in that
/// order, and the token before them must be `&`.
pub open spec fn spec_has_ref(tree: SynTree, tok: int) -> bool {
    let t0 = if 0 <= tok < tree.nodes.len() && tree.nodes[tok].kind == SyntaxKind::Ident {
        tree.spec_prev_token(tok)
    } else if 0 <= tok < tree.nodes.len() {
        Option::Some(tok as usize)
    } else {
        Option::None
    };
    match t0 {
        Option::None => false,
        Option::Some(t0v) => {
            let t1 = if tree.nodes[t0v as int].kind == SyntaxKind::Whitespace {
                tree.spec_prev_token(t0v as int)
            } else {
                Option::Some(t0v)
            };
            match t1 {
                Option::None => false,
                Option::Some(t1v) => {
                    let t2 = if tree.nodes[t1v as int].kind == SyntaxKind::MutKw {
                        tree.spec_prev_token(t1v as int)
                    } else {
                        Option::Some(t1v)
                    };
                    match t2 {
                        Option::None => false,
                        Option::Some(t2v) => tree.nodes[t2v as int].kind == SyntaxKind::Amp,
                    }
                },
            }
        },
    }
}

pub fn has_ref(tree: &SynTree, tok: usize) -> (res: bool)
    requires
        tok < tree.nodes.len(),
    ensures
        res == spec_has_ref(*tree, tok as int),
{
    let t0 = if tree.nodes[tok].kind == SyntaxKind::Ident {
        tree.prev_token(tok)
    } else {
        Some(tok)
    };
    let t0v = match t0 {
        Option::Some(t) => t,
        Option::None => {
            return false;
        },
    };
    let t1 = if tree.nodes[t0v].kind == SyntaxKind::Whitespace {
        tree.prev_token(t0v)
    } else {
        Some(t0v)
    };
    let t1v = match t1 {
        Option::Some(t) => t,
        Option::None => {
            return false;
        },
    };
    let t2 = if tree.nodes[t1v].kind == SyntaxKind::MutKw {
        tree.prev_token(t1v)
    } else {
        Some(t1v)
    };
    match t2 {
        Option::Some(t2v) => tree.nodes[t2v].kind == SyntaxKind::Amp,
        Option::None => false,
    }
}

/// The display text of a name-like node: the text of the last token lying
/// within it.
pub open spec fn spec_name_text(tree: SynTree, node: int) -> Option<String> {
    match tree.spec_last_token_in(tree.nodes[node].range) {
        Option::Some(t) => Option::Some(tree.nodes[t as int].text),
        Option::None => Option::None,
    }
}

fn name_text(tree: &SynTree, node: usize) -> (res: Option<String>)
    requires
        node < tree.nodes.len(),
    ensures
        res == spec_name_text(*tree, node as int),
{
    match tree.last_token_in(&tree.nodes[node].range) {
        Option::Some(t) => Some(tree.nodes[t].text.clone()),
        Option::None => None,
    }
}

/// The expected name taken from a name-like child of `owner`, with the
/// given name-reference flag; `None` when the child or its text is absent.
pub open spec fn spec_expected_name_from(
    tree: SynTree,
    child: Option<usize>,
    is_name_ref: bool,
) -> Option<ExpectedNameInfo> {
    match child {
        Option::Some(n) => {
            if 0 <= n < tree.nodes.len() {
                match spec_name_text(tree, n as int) {
                    Option::Some(t) => Option::Some(
                        ExpectedNameInfo { is_name_ref, node: n, text: t },
                    ),
                    Option::None => Option::None,
                }
            } else {
                Option::None
            }
        },
        Option::None => Option::None,
    }
}

/// The (expected type, expected name) pair determined at ancestor `node`,
/// ascending when the node is not one of the recognized container shapes.
pub open spec fn spec_expected_at(sema: Semantics, tok: NodeLoc, node: int) -> (
    Option<usize>,
    Option<ExpectedNameInfo>,
)
    decreases node + 1,
    when 0 <= node < sema.trees[tok.tree as int].nodes.len() && 0 <= tok.tree < sema.trees.len()
{
    let tree = sema.trees[tok.tree as int];
    let k = tree.nodes[node].kind;
    if k == SyntaxKind::LetStmt {
        let ty = match tree.spec_child_in_class(node, KindClass::Pat) {
            Option::Some(p) => match spec_node_key_from(
                sema.pat_types@,
                tok.tree as int,
                p as int,
                0,
            ) {
                Option::Some(t) => Option::Some(t),
                Option::None => spec_initializer_type(sema, tok.tree as int, node),
            },
            Option::None => spec_initializer_type(sema, tok.tree as int, node),
        };
        let name = match tree.spec_child_in_class(node, KindClass::Pat) {
            Option::Some(p) => {
                if tree.nodes[p as int].kind == SyntaxKind::IdentPat {
                    spec_expected_name_from(
                        tree,
                        tree.spec_child_of_kind(p as int, SyntaxKind::Name),
                        false,
                    )
                } else {
                    Option::None
                }
            },
            Option::None => Option::None,
        };
        (ty, name)
    } else if k == SyntaxKind::LetExpr {
        let ty = match tree.spec_child_in_class(node, KindClass::Pat) {
            Option::Some(p) => match spec_node_key_from(
                sema.pat_types@,
                tok.tree as int,
                p as int,
                0,
            ) {
                Option::Some(t) => Option::Some(t),
                Option::None => spec_scrutinee_type(sema, tok.tree as int, node),
            },
            Option::None => spec_scrutinee_type(sema, tok.tree as int, node),
        };
        (ty, Option::None)
    } else if k == SyntaxKind::ArgList {
        match crate::sema::spec_active_param_from(
            sema.active_params@,
            tok.tree as int,
            tok.node as int,
            0,
        ) {
            Option::Some(i) => {
                let entry = sema.active_params@[i];
                let ty = if spec_has_ref(tree, tok.node as int) {
                    if 0 <= entry.ty < sema.types.len() {
                        sema.types@[entry.ty as int].deref_inner
                    } else {
                        Option::None
                    }
                } else {
                    Option::Some(entry.ty)
                };
                let name = match entry.name {
                    Option::Some(n) => Option::Some(
                        ExpectedNameInfo { is_name_ref: false, node: tok.node, text: n },
                    ),
                    Option::None => Option::None,
                };
                (ty, name)
            },
            Option::None => (Option::None, Option::None),
        }
    } else if k == SyntaxKind::RecordExprFieldList {
        let after_dotdot = tree.nodes[tok.node as int].kind == SyntaxKind::DotDot || match
            tree.spec_prev_token(tok.node as int) {
            Option::Some(pt) => tree.nodes[pt as int].kind == SyntaxKind::DotDot,
            Option::None => false,
        };
        if after_dotdot {
            let p = tree.parent_of(node);
            if p >= 0 && tree.nodes[p].kind == SyntaxKind::RecordExpr {
                (
                    spec_node_key_from(sema.expr_types@, tok.tree as int, p, 0),
                    Option::None::<ExpectedNameInfo>,
                )
            } else {
                (Option::None, Option::None)
            }
        } else {
            match tree.spec_prev_sibling_or_token(tok.node as int) {
                Option::Some(sib) => {
                    if !tree.nodes[sib as int].is_token && tree.nodes[sib as int].kind
                        == SyntaxKind::RecordExprField {
                        match spec_node_key_from(
                            sema.record_field_types@,
                            tok.tree as int,
                            sib as int,
                            0,
                        ) {
                            Option::Some(t) => (
                                Option::Some(t),
                                spec_expected_name_from(
                                    tree,
                                    tree.spec_child_of_kind(sib as int, SyntaxKind::NameRef),
                                    true,
                                ),
                            ),
                            Option::None => (Option::None, Option::None),
                        }
                    } else {
                        (Option::None, Option::None)
                    }
                },
                Option::None => (Option::None, Option::None),
            }
        }
    } else if k == SyntaxKind::RecordExprField {
        let name = spec_expected_name_from(
            tree,
            tree.spec_child_of_kind(node, SyntaxKind::NameRef),
            true,
        );
        match tree.spec_child_in_class(node, KindClass::Expr) {
            Option::Some(e) => (
                spec_node_key_from(sema.expr_types@, tok.tree as int, e as int, 0),
                name,
            ),
            Option::None => (
                spec_node_key_from(sema.record_field_types@, tok.tree as int, node, 0),
                name,
            ),
        }
    } else if k == SyntaxKind::MatchExpr {
        (spec_scrutinee_type(sema, tok.tree as int, node), Option::None)
    } else if k == SyntaxKind::IfExpr {
        (spec_scrutinee_type(sema, tok.tree as int, node), Option::None)
    } else if k == SyntaxKind::IdentPat {
        (spec_node_key_from(sema.pat_types@, tok.tree as int, node, 0), Option::None)
    } else if k == SyntaxKind::Fn {
        (spec_node_key_from(sema.fn_ret_types@, tok.tree as int, node, 0), Option::None)
    } else if k == SyntaxKind::ClosureExpr {
        let ty = match spec_node_key_from(sema.expr_types@, tok.tree as int, node, 0) {
            Option::Some(t) => {
                if 0 <= t < sema.types.len() {
                    sema.types@[t as int].callable_ret
                } else {
                    Option::None
                }
            },
            Option::None => Option::None,
        };
        (ty, Option::None)
    } else if k == SyntaxKind::ParamList || k == SyntaxKind::ExprStmt || k.spec_is_item() {
        (Option::None, Option::None)
    } else {
        let p = tree.parent_of(node);
        if 0 <= p < node {
            spec_expected_at(sema, tok, p)
        } else {
            (Option::None, Option::None)
        }
    }
}

/// The type of a `let` statement's initializer expression.
pub open spec fn spec_initializer_type(sema: Semantics, tree_id: int, node: int) -> Option<
    usize,
> {
    let tree = sema.trees[tree_id];
    match tree.spec_child_in_class(node, KindClass::Expr) {
        Option::Some(e) => spec_node_key_from(sema.expr_types@, tree_id, e as int, 0),
        Option::None => Option::None,
    }
}

/// The type of the first expression child: a scrutinee or condition.
pub open spec fn spec_scrutinee_type(sema: Semantics, tree_id: int, node: int) -> Option<usize> {
    spec_initializer_type(sema, tree_id, node)
}

/// The (expected type, expected name) of the completion position: the
/// ascent starts at the cursor token's parent.
pub open spec fn spec_expected_type_and_name(sema: Semantics, tok: NodeLoc) -> (
    Option<usize>,
    Option<ExpectedNameInfo>,
) {
    if 0 <= tok.tree < sema.trees.len() && 0 <= tok.node < sema.trees[tok.tree as int].nodes.len()
    {
        let tree = sema.trees[tok.tree as int];
        let p = tree.parent_of(tok.node as int);
        if 0 <= p < tree.nodes.len() {
            spec_expected_at(sema, tok, p)
        } else {
            (Option::None, Option::None)
        }
    } else {
        (Option::None, Option::None)
    }
}

fn expected_at(sema: &Semantics, tok: NodeLoc, node: usize) -> (res: (
    Option<usize>,
    Option<ExpectedNameInfo>,
))
    requires
        tok.tree < sema.trees.len(),
        sema.trees[tok.tree as int].wf(),
        node < sema.trees[tok.tree as int].nodes.len(),
        tok.node < sema.trees[tok.tree as int].nodes.len(),
    ensures
        res == spec_expected_at(*sema, tok, node as int),
    decreases node,
{
    let tree = &sema.trees[tok.tree];
    proof {
        assert(tree.wf_node(node as int));
    }
    let k = tree.nodes[node].kind;
    if k == SyntaxKind::LetStmt {
        let pat = tree.child_in_class(node, KindClass::Pat);
        let ty = match pat {
            Option::Some(p) => match node_key_get(&sema.pat_types, tok.tree, p) {
                Option::Some(t) => Some(t),
                Option::None => initializer_type(sema, tok.tree, node),
            },
            Option::None => initializer_type(sema, tok.tree, node),
        };
        let name = match pat {
            Option::Some(p) => {
                if tree.nodes[p].kind == SyntaxKind::IdentPat {
                    expected_name_from(tree, tree.child_of_kind(p, SyntaxKind::Name), false)
                } else {
                    None
                }
            },
            Option::None => None,
        };
        (ty, name)
    } else if k == SyntaxKind::LetExpr {
        let ty = match tree.child_in_class(node, KindClass::Pat) {
            Option::Some(p) => match node_key_get(&sema.pat_types, tok.tree, p) {
                Option::Some(t) => Some(t),
                Option::None => scrutinee_type(sema, tok.tree, node),
            },
            Option::None => scrutinee_type(sema, tok.tree, node),
        };
        (ty, None)
    } else if k == SyntaxKind::ArgList {
        match sema.active_param_at(tok.tree, tok.node) {
            Option::Some(i) => {
                let entry = &sema.active_params[i];
                let ty = if has_ref(tree, tok.node) {
                    if entry.ty < sema.types.len() {
                        sema.types[entry.ty].deref_inner
                    } else {
                        None
                    }
                } else {
                    Some(entry.ty)
                };
                let name = match &entry.name {
                    Option::Some(n) => Some(
                        ExpectedNameInfo { is_name_ref: false, node: tok.node, text: n.clone() },
                    ),
                    Option::None => None,
                };
                (ty, name)
            },
            Option::None => (None, None),
        }
    } else if k == SyntaxKind::RecordExprFieldList {
        let after_dotdot = tree.nodes[tok.node].kind == SyntaxKind::DotDot || match tree.prev_token(
            tok.node,
        ) {
            Option::Some(pt) => tree.nodes[pt].kind == SyntaxKind::DotDot,
            Option::None => false,
        };
        if after_dotdot {
            match tree.nodes[node].parent {
                Option::Some(p) => {
                    if tree.nodes[p].kind == SyntaxKind::RecordExpr {
                        (node_key_get(&sema.expr_types, tok.tree, p), None)
                    } else {
                        (None, None)
                    }
                },
                Option::None => (None, None),
            }
        } else {
            match tree.prev_sibling_or_token(tok.node) {
                Option::Some(sib) => {
                    if !tree.nodes[sib].is_token && tree.nodes[sib].kind
                        == SyntaxKind::RecordExprField {
                        match node_key_get(&sema.record_field_types, tok.tree, sib) {
                            Option::Some(t) => (
                                Some(t),
                                expected_name_from(
                                    tree,
                                    tree.child_of_kind(sib, SyntaxKind::NameRef),
                                    true,
                                ),
                            ),
                            Option::None => (None, None),
                        }
                    } else {
                        (None, None)
                    }
                },
                Option::None => (None, None),
            }
        }
    } else if k == SyntaxKind::RecordExprField {
        let name = expected_name_from(tree, tree.child_of_kind(node, SyntaxKind::NameRef), true);
        match tree.child_in_class(node, KindClass::Expr) {
            Option::Some(e) => (node_key_get(&sema.expr_types, tok.tree, e), name),
            Option::None => (node_key_get(&sema.record_field_types, tok.tree, node), name),
        }
    } else if k == SyntaxKind::MatchExpr {
        (scrutinee_type(sema, tok.tree, node), None)
    } else if k == SyntaxKind::IfExpr {
        (scrutinee_type(sema, tok.tree, node), None)
    } else if k == SyntaxKind::IdentPat {
        (node_key_get(&sema.pat_types, tok.tree, node), None)
    } else if k == SyntaxKind::Fn {
        (node_key_get(&sema.fn_ret_types, tok.tree, node), None)
    } else if k == SyntaxKind::ClosureExpr {
        let ty = match node_key_get(&sema.expr_types, tok.tree, node) {
            Option::Some(t) => {
                if t < sema.types.len() {
                    sema.types[t].callable_ret
                } else {
                    None
                }
            },
            Option::None => None,
        };
        (ty, None)
    } else if k == SyntaxKind::ParamList || k == SyntaxKind::ExprStmt || k.is_item() {
        (None, None)
    } else {
        match tree.nodes[node].parent {
            Option::Some(p) => expected_at(sema, tok, p),
            Option::None => (None, None),
        }
    }
}

fn expected_name_from(tree: &SynTree, child: Option<usize>, is_name_ref: bool) -> (res: Option<
    ExpectedNameInfo,
>)
    requires
        child is Some ==> child->0 < tree.nodes.len(),
    ensures
        res == spec_expected_name_from(*tree, child, is_name_ref),
{
    match child {
        Option::Some(n) => {
            match name_text(tree, n) {
                Option::Some(t) => Some(ExpectedNameInfo { is_name_ref, node: n, text: t }),
                Option::None => None,
            }
        },
        Option::None => None,
    }
}

fn initializer_type(sema: &Semantics, tree_id: usize, node: usize) -> (res: Option<usize>)
    requires
        tree_id < sema.trees.len(),
        node < sema.trees[tree_id as int].nodes.len(),
    ensures
        res == spec_initializer_type(*sema, tree_id as int, node as int),
{
    let tree = &sema.trees[tree_id];
    match tree.child_in_class(node, KindClass::Expr) {
        Option::Some(e) => node_key_get(&sema.expr_types, tree_id, e),
        Option::None => None,
    }
}

fn scrutinee_type(sema: &Semantics, tree_id: usize, node: usize) -> (res: Option<usize>)
    requires
        tree_id < sema.trees.len(),
        node < sema.trees[tree_id as int].nodes.len(),
    ensures
        res == spec_scrutinee_type(*sema, tree_id as int, node as int),
{
    initializer_type(sema, tree_id, node)
}

/// Expected type and name at the cursor: the ascent starts at the parent
/// of the (macro-descended) cursor token.
pub fn expected_type_and_name(sema: &Semantics, tok: NodeLoc) -> (res: (
    Option<usize>,
    Option<ExpectedNameInfo>,
))
    requires
        tok.tree < sema.trees.len(),
        sema.trees[tok.tree as int].wf(),
        tok.node < sema.trees[tok.tree as int].nodes.len(),
    ensures
        res == spec_expected_type_and_name(*sema, tok),
{
    let tree = &sema.trees[tok.tree];
    proof {
        assert(tree.wf_node(tok.node as int));
    }
    match tree.nodes[tok.node].parent {
        Option::Some(p) => expected_at(sema, tok, p),
        Option::None => (None, None),
    }
}

} // verus!
