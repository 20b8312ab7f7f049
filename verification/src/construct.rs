//! Construction of the completion context: the speculative lookup of the
//! boundary tokens, the expansion walk, and the final classification fill.
//! Every failure is silent absence: a position that cannot be classified
//! yields no context.

use vstd::prelude::*;

use crate::classify::{
    classify_lifetime, classify_name, classify_name_ref, spec_classify_lifetime,
    spec_classify_name, spec_classify_name_ref,
};
use crate::context::{
    CompletionConfig, CompletionContext, CtxView, FilePosition, IdentContext, LocalEntry,
    NameRefContext, PathCompletionCtx, PathKind, PatternContext, TokenInfo,
};
use crate::patterns::{ImmediateLocation, ImmediatePrevSibling};
use crate::expand::{expand_loop, spec_expand_loop, DeriveCtx, WalkState};
use crate::expect::{expected_type_and_name, spec_expected_type_and_name};
use crate::kind::{KindClass, SyntaxKind};
use crate::patterns::{is_in_token_of_for_loop, spec_for_loop_slot};
use crate::sema::{clone_u64s, NodeLoc, ScopeEntry, Semantics};
use crate::tree::SynTree;

verus! {

/// The local bindings among the scope entries, in scope order, over the
/// first `i` entries.
pub open spec fn spec_locals_upto(entries: Seq<ScopeEntry>, i: int) -> Seq<LocalEntry>
    decreases i,
{
    if i <= 0 || i > entries.len() {
        Seq::empty()
    } else {
        let rest = spec_locals_upto(entries, i - 1);
        if entries[i - 1].is_local {
            rest.push(LocalEntry { name: entries[i - 1].name, local: entries[i - 1].local })
        } else {
            rest
        }
    }
}

/// The local bindings among the scope entries.
pub open spec fn spec_locals(entries: Seq<ScopeEntry>) -> Seq<LocalEntry> {
    spec_locals_upto(entries, entries.len() as int)
}

fn locals_of(entries: &Vec<ScopeEntry>) -> (r: Vec<LocalEntry>)
    ensures
        r@ == spec_locals(entries@),
{
    let mut acc: Vec<LocalEntry> = Vec::new();
    let mut i: usize = 0;
    while i < entries.len()
        invariant
            i <= entries.len(),
            acc@ == spec_locals_upto(entries@, i as int),
        decreases entries.len() - i,
    {
        if entries[i].is_local {
            let name = entries[i].name.clone();
            acc.push(LocalEntry { name, local: entries[i].local });
        }
        i = i + 1;
    }
    acc
}

/// The nearest `let` statement within the first `fuel` ancestors of `i`.
pub open spec fn spec_letstmt_near(tree: SynTree, i: int, fuel: nat) -> Option<usize>
    decreases fuel,
{
    if fuel == 0 || i < 0 || i >= tree.nodes.len() {
        Option::None
    } else if tree.nodes[i].kind == SyntaxKind::LetStmt {
        Option::Some(i as usize)
    } else {
        spec_letstmt_near(tree, tree.parent_of(i), (fuel - 1) as nat)
    }
}

fn letstmt_near(tree: &SynTree, i: usize, fuel: usize) -> (res: Option<usize>)
    requires
        tree.wf(),
        i < tree.nodes.len(),
    ensures
        res == spec_letstmt_near(*tree, i as int, fuel as nat),
        res is Some ==> res->0 < tree.nodes.len(),
    decreases fuel,
{
    proof {
        assert(tree.wf_node(i as int));
    }
    if fuel == 0 {
        None
    } else if tree.nodes[i].kind == SyntaxKind::LetStmt {
        Some(i)
    } else {
        match tree.nodes[i].parent {
            Option::Some(p) => letstmt_near(tree, p, fuel - 1),
            Option::None => {
                proof {
                    reveal_with_fuel(spec_letstmt_near, 2);
                }
                None
            },
        }
    }
}

/// Whether the cursor sits in a `let` statement that misses its semicolon:
/// the statement's range ends exactly at the cursor token.
pub open spec fn spec_incomplete_let(tree: SynTree, tok: int) -> bool {
    match spec_letstmt_near(tree, tree.parent_of(tok), 6) {
        Option::Some(ls) => tree.nodes[ls as int].range.end == tree.nodes[tok].range.end,
        Option::None => false,
    }
}

fn incomplete_let(tree: &SynTree, tok: usize) -> (res: bool)
    requires
        tree.wf(),
        tok < tree.nodes.len(),
    ensures
        res == spec_incomplete_let(*tree, tok as int),
{
    proof {
        assert(tree.wf_node(tok as int));
    }
    match tree.nodes[tok].parent {
        Option::Some(p) => {
            match letstmt_near(tree, p, 6) {
                Option::Some(ls) => tree.nodes[ls].range.end == tree.nodes[tok].range.end,
                Option::None => false,
            }
        },
        Option::None => {
            proof {
                reveal_with_fuel(spec_letstmt_near, 1);
            }
            false
        },
    }
}

/// The nearest enclosing node of kind `target` in the parent chain of `i`,
/// stopping (without a match) at a source-file or module boundary.
pub open spec fn spec_enclosing_until_boundary(tree: SynTree, i: int, target: SyntaxKind)
    -> Option<usize>
    decreases i + 1,
    when -1 <= i < tree.nodes.len()
{
    if i < 0 {
        Option::None
    } else if tree.nodes[i].kind == SyntaxKind::SourceFile || tree.nodes[i].kind
        == SyntaxKind::Module {
        Option::None
    } else if tree.nodes[i].kind == target {
        Option::Some(i as usize)
    } else {
        let p = tree.parent_of(i);
        if -1 <= p < i {
            spec_enclosing_until_boundary(tree, p, target)
        } else {
            Option::None
        }
    }
}

fn enclosing_until_boundary(tree: &SynTree, i: usize, target: SyntaxKind) -> (res: Option<usize>)
    requires
        tree.wf(),
        i < tree.nodes.len(),
    ensures
        res == spec_enclosing_until_boundary(*tree, i as int, target),
        res is Some ==> res->0 < tree.nodes.len(),
    decreases i,
{
    proof {
        assert(tree.wf_node(i as int));
    }
    let k = tree.nodes[i].kind;
    if k == SyntaxKind::SourceFile || k == SyntaxKind::Module {
        None
    } else if k == target {
        Some(i)
    } else {
        match tree.nodes[i].parent {
            Option::Some(p) => enclosing_until_boundary(tree, p, target),
            Option::None => {
                proof {
                    reveal_with_fuel(spec_enclosing_until_boundary, 2);
                }
                None
            },
        }
    }
}

/// The enclosing function or impl of the cursor token, in the expanded
/// file, bounded by the nearest source-file or module node.
pub open spec fn spec_enclosing_def(sema: Semantics, token: NodeLoc, target: SyntaxKind)
    -> Option<NodeLoc> {
    let tree = sema.trees[token.tree as int];
    let p = tree.parent_of(token.node as int);
    if 0 <= p < tree.nodes.len() {
        match spec_enclosing_until_boundary(tree, p, target) {
            Option::Some(n) => Option::Some(NodeLoc { tree: token.tree, node: n }),
            Option::None => Option::None,
        }
    } else {
        Option::None
    }
}

fn enclosing_def(sema: &Semantics, token: NodeLoc, target: SyntaxKind) -> (res: Option<NodeLoc>)
    requires
        token.tree < sema.trees.len(),
        sema.trees[token.tree as int].wf(),
        token.node < sema.trees[token.tree as int].nodes.len(),
    ensures
        res == spec_enclosing_def(*sema, token, target),
{
    let tree = &sema.trees[token.tree];
    proof {
        assert(tree.wf_node(token.node as int));
    }
    match tree.nodes[token.node].parent {
        Option::Some(p) => {
            match enclosing_until_boundary(tree, p, target) {
                Option::Some(n) => Some(NodeLoc { tree: token.tree, node: n }),
                Option::None => None,
            }
        },
        Option::None => None,
    }
}

/// The classification fill, as a function of the model: `None` is silent
/// absence of a context. The walker's final state supplies the tree pair;
/// the vectors already gathered by the construction are threaded through
/// unchanged.
pub open spec fn spec_fill(
    sema: Semantics,
    config: CompletionConfig,
    position: FilePosition,
    original_token: TokenInfo,
    token: TokenInfo,
    krate: u32,
    module: u32,
    locals: Seq<LocalEntry>,
    scope_entries: Seq<ScopeEntry>,
    visible_traits: Seq<u32>,
    existing_derives: Seq<u64>,
    st: WalkState,
    derive: Option<DeriveCtx>,
) -> Option<CtxView> {
    let sp = sema.trees[st.spec_tree as int];
    match sp.spec_right_biased(st.offset as int) {
        Option::None => Option::None,
        Option::Some(fake_tok2) => {
            if spec_for_loop_slot(sp, fake_tok2 as int) {
                // Only the `in` keyword can follow here; deliberately no
                // context.
                Option::None
            } else {
                let previous_token = match sp.spec_prev_nontrivia_token(fake_tok2 as int) {
                    Option::Some(pt) => Option::Some(
                        spec_token_info(sema, st.spec_tree, pt),
                    ),
                    Option::None => Option::None,
                };
                let inc_let = spec_incomplete_let(sp, fake_tok2 as int);
                let (expected_type, expected_name) = spec_expected_type_and_name(sema, token.loc);
                let base = CtxView {
                    config,
                    position,
                    original_token,
                    token,
                    krate,
                    module,
                    expected_name,
                    expected_type,
                    function_def: Option::None,
                    impl_def: Option::None,
                    incomplete_let: inc_let,
                    completion_location: Option::None,
                    prev_sibling: Option::None,
                    previous_token,
                    ident_ctx: IdentContext::UnexpandedAttrTT {
                        fake_attribute_under_caret: Option::None,
                    },
                    pattern_ctx: Option::None,
                    existing_derives,
                    locals,
                    scope_entries,
                    visible_traits,
                    famous_drop: sema.famous_drop,
                };
                match derive {
                    Option::Some(d) => spec_fill_derive(sema, config, base, d),
                    Option::None => spec_fill_name_like(
                        sema,
                        config,
                        base,
                        st,
                        fake_tok2 as int,
                    ),
                }
            }
        },
    }
}

/// The derive branch of the fill: the path kind of the placeholder's
/// name reference is forced to the derive slot.
pub open spec fn spec_fill_derive(
    sema: Semantics,
    config: CompletionConfig,
    base: CtxView,
    d: DeriveCtx,
) -> Option<CtxView> {
    if !(sema.spec_tree_ok(d.orig_exp as int) && sema.spec_tree_ok(d.spec_exp as int)) {
        Option::None
    } else {
        let dtree = sema.trees[d.spec_exp as int];
        match dtree.spec_find_node_at_offset(d.offset as int, KindClass::NameLike) {
            Option::Some(nl) => {
                if 0 <= nl < dtree.nodes.len() && dtree.nodes[nl as int].kind
                    == SyntaxKind::NameRef {
                    let parent = dtree.parent_of(nl as int);
                    if parent < 0 {
                        Option::None
                    } else {
                        let (nr, _pat) = spec_classify_name_ref(
                            sema,
                            d.orig_exp as int,
                            d.spec_exp as int,
                            nl as int,
                            parent,
                            config.marker_len as int,
                        );
                        let nr2 = NameRefContext {
                            nameref: nr.nameref,
                            dot_access: nr.dot_access,
                            path_ctx: match nr.path_ctx {
                                Option::Some(p) => Option::Some(
                                    PathCompletionCtx { kind: PathKind::Derive, ..p },
                                ),
                                Option::None => Option::None,
                            },
                        };
                        Option::Some(CtxView { ident_ctx: IdentContext::NameRef(nr2), ..base })
                    }
                } else {
                    Option::None
                }
            },
            Option::None => Option::None,
        }
    }
}

/// The ordinary branch of the fill: classify the name-like node at the
/// final offset, or fall back to the string-literal and unexpanded-
/// annotation classifications.
pub open spec fn spec_fill_name_like(
    sema: Semantics,
    config: CompletionConfig,
    base: CtxView,
    st: WalkState,
    fake_tok2: int,
) -> Option<CtxView> {
    let orig = sema.trees[st.orig as int];
    let sp = sema.trees[st.spec_tree as int];
    match sp.spec_find_node_at_offset(st.offset as int, KindClass::NameLike) {
        Option::None => {
            if base.original_token.kind == SyntaxKind::StringLit {
                Option::Some(
                    CtxView {
                        ident_ctx: IdentContext::StringLit {
                            original: base.original_token.loc.node,
                            expanded: if base.token.kind == SyntaxKind::StringLit {
                                Option::Some(base.token.loc.node)
                            } else {
                                Option::None
                            },
                        },
                        ..base
                    },
                )
            } else {
                // Trailing-whitespace fixup: an annotation's token tree may
                // end before the cursor.
                let ti = if base.token.kind == SyntaxKind::Whitespace {
                    base.previous_token
                } else {
                    Option::Some(base.token)
                };
                match ti {
                    Option::None => Option::None,
                    Option::Some(t) => {
                        if !(sema.spec_tree_ok(t.loc.tree as int) && (t.loc.node as int)
                            < sema.trees[t.loc.tree as int].nodes.len()) {
                            Option::None
                        } else {
                            let tt = sema.trees[t.loc.tree as int];
                            let p = tt.parent_of(t.loc.node as int);
                            if p >= 0 && tt.nodes[p].kind == SyntaxKind::TokenTree
                                && tt.spec_find_ancestor(p, KindClass::MetaOnly) is Some {
                                let fake_attr = sp.spec_find_ancestor(
                                    sp.parent_of(fake_tok2),
                                    KindClass::Attr,
                                );
                                Option::Some(
                                    CtxView {
                                        ident_ctx: IdentContext::UnexpandedAttrTT {
                                            fake_attribute_under_caret: fake_attr,
                                        },
                                        ..base
                                    },
                                )
                            } else {
                                Option::None
                            }
                        }
                    },
                }
            }
        },
        Option::Some(nl) => {
            if !(0 <= nl < sp.nodes.len()) {
                Option::None
            } else {
                let with_loc = CtxView {
                    completion_location: sema.spec_determine_location(
                        st.orig as int,
                        st.offset as int,
                        nl as int,
                    ),
                    prev_sibling: sema.spec_determine_prev_sibling(
                        st.spec_tree as int,
                        nl as int,
                    ),
                    impl_def: spec_enclosing_def(sema, base.token.loc, SyntaxKind::Impl),
                    function_def: spec_enclosing_def(sema, base.token.loc, SyntaxKind::Fn),
                    ..base
                };
                let k = sp.nodes[nl as int].kind;
                if k == SyntaxKind::Lifetime {
                    match spec_classify_lifetime(orig, sp, nl as int) {
                        Option::Some(lc) => Option::Some(
                            CtxView { ident_ctx: IdentContext::Lifetime(lc), ..with_loc },
                        ),
                        Option::None => Option::None,
                    }
                } else if k == SyntaxKind::NameRef {
                    let parent = sp.parent_of(nl as int);
                    if parent < 0 {
                        Option::None
                    } else {
                        let (nr, pat) = spec_classify_name_ref(
                            sema,
                            st.orig as int,
                            st.spec_tree as int,
                            nl as int,
                            parent,
                            config.marker_len as int,
                        );
                        Option::Some(
                            CtxView {
                                ident_ctx: IdentContext::NameRef(nr),
                                pattern_ctx: pat,
                                ..with_loc
                            },
                        )
                    }
                } else if k == SyntaxKind::Name {
                    match spec_classify_name(
                        orig,
                        sp,
                        nl as int,
                        config.marker_len as int,
                    ) {
                        Option::Some((nc, pat)) => Option::Some(
                            CtxView {
                                ident_ctx: IdentContext::Name(nc),
                                pattern_ctx: pat,
                                ..with_loc
                            },
                        ),
                        Option::None => Option::None,
                    }
                } else {
                    Option::None
                }
            }
        },
    }
}

/// The token info of token `t` in tree `tree_id`.
pub open spec fn spec_token_info(sema: Semantics, tree_id: usize, t: usize) -> TokenInfo {
    TokenInfo {
        loc: NodeLoc { tree: tree_id, node: t },
        kind: sema.trees[tree_id as int].nodes[t as int].kind,
        range: sema.trees[tree_id as int].nodes[t as int].range,
    }
}

fn token_info(sema: &Semantics, tree_id: usize, t: usize) -> (res: TokenInfo)
    requires
        tree_id < sema.trees.len(),
        t < sema.trees[tree_id as int].nodes.len(),
    ensures
        res == spec_token_info(*sema, tree_id, t),
{
    TokenInfo {
        loc: NodeLoc { tree: tree_id, node: t },
        kind: sema.trees[tree_id].nodes[t].kind,
        range: sema.trees[tree_id].nodes[t].range,
    }
}

#[verifier::rlimit(60)]
fn fill(
    sema: &Semantics,
    config: CompletionConfig,
    position: FilePosition,
    original_token: TokenInfo,
    token: TokenInfo,
    krate: u32,
    module: u32,
    locals: Vec<LocalEntry>,
    scope_entries: Vec<ScopeEntry>,
    visible_traits: Vec<u32>,
    existing_derives: Vec<u64>,
    st: WalkState,
    derive: Option<DeriveCtx>,
) -> (res: Option<CompletionContext>)
    requires
        st.ok(*sema),
        sema.spec_tree_ok(token.loc.tree as int),
        (token.loc.node as int) < sema.trees[token.loc.tree as int].nodes.len(),
    ensures
        match res {
            Option::Some(c) => Option::Some(c@) == spec_fill(
                *sema,
                config,
                position,
                original_token,
                token,
                krate,
                module,
                locals@,
                scope_entries@,
                visible_traits@,
                existing_derives@,
                st,
                derive,
            ),
            Option::None => spec_fill(
                *sema,
                config,
                position,
                original_token,
                token,
                krate,
                module,
                locals@,
                scope_entries@,
                visible_traits@,
                existing_derives@,
                st,
                derive,
            ) is None,
        },
{
    let ghost spec_res = spec_fill(
        *sema,
        config,
        position,
        original_token,
        token,
        krate,
        module,
        locals@,
        scope_entries@,
        visible_traits@,
        existing_derives@,
        st,
        derive,
    );
    let sp = &sema.trees[st.spec_tree];
    let fake_tok2 = match sp.token_at_offset_right_biased(st.offset) {
        Option::Some(t) => t,
        Option::None => {
            return None;
        },
    };
    if is_in_token_of_for_loop(sp, fake_tok2) {
        return None;
    }
    let previous_token = match sp.prev_nontrivia_token(fake_tok2) {
        Option::Some(pt) => Some(token_info(sema, st.spec_tree, pt)),
        Option::None => None,
    };
    let inc_let = incomplete_let(sp, fake_tok2);
    let (expected_type, expected_name) = expected_type_and_name(sema, token.loc);
    // The six classification outputs, decided branch by branch below.
    let ident_ctx: IdentContext;
    let mut pattern_ctx: Option<PatternContext> = None;
    let mut completion_location: Option<ImmediateLocation> = None;
    let mut prev_sibling: Option<ImmediatePrevSibling> = None;
    let mut impl_def: Option<NodeLoc> = None;
    let mut function_def: Option<NodeLoc> = None;
    match derive {
        Option::Some(d) => {
            let ok = sema.tree_checked(d.orig_exp).is_some() && sema.tree_checked(
                d.spec_exp,
            ).is_some();
            if !ok {
                return None;
            }
            let dtree = &sema.trees[d.spec_exp];
            let nl = match dtree.find_node_at_offset(d.offset, KindClass::NameLike) {
                Option::Some(nl) => nl,
                Option::None => {
                    return None;
                },
            };
            if !(dtree.nodes[nl].kind == SyntaxKind::NameRef) {
                return None;
            }
            proof {
                assert(dtree.wf_node(nl as int));
            }
            let parent = match dtree.nodes[nl].parent {
                Option::Some(p) => p,
                Option::None => {
                    return None;
                },
            };
            let (nr, _pat) = classify_name_ref(
                sema,
                d.orig_exp,
                d.spec_exp,
                nl,
                parent,
                config.marker_len,
            );
            let path_ctx = match nr.path_ctx {
                Option::Some(p) => Some(PathCompletionCtx { kind: PathKind::Derive, ..p }),
                Option::None => None,
            };
            ident_ctx = IdentContext::NameRef(
                NameRefContext { nameref: nr.nameref, dot_access: nr.dot_access, path_ctx },
            );
        },
        Option::None => {
            let orig = &sema.trees[st.orig];
            match sp.find_node_at_offset(st.offset, KindClass::NameLike) {
                Option::None => {
                    if original_token.kind == SyntaxKind::StringLit {
                        ident_ctx = IdentContext::StringLit {
                            original: original_token.loc.node,
                            expanded: if token.kind == SyntaxKind::StringLit {
                                Some(token.loc.node)
                            } else {
                                None
                            },
                        };
                    } else {
                        let ti = if token.kind == SyntaxKind::Whitespace {
                            match previous_token {
                                Option::Some(pt) => pt,
                                Option::None => {
                                    return None;
                                },
                            }
                        } else {
                            token
                        };
                        let tt_ok = match sema.tree_checked(ti.loc.tree) {
                            Option::Some(tr) => ti.loc.node < tr.nodes.len(),
                            Option::None => false,
                        };
                        if !tt_ok {
                            return None;
                        }
                        let tt = &sema.trees[ti.loc.tree];
                        proof {
                            assert(tt.wf_node(ti.loc.node as int));
                        }
                        let p = match tt.nodes[ti.loc.node].parent {
                            Option::Some(p) => p,
                            Option::None => {
                                return None;
                            },
                        };
                        if tt.nodes[p].kind == SyntaxKind::TokenTree && tt.find_ancestor(
                            p,
                            KindClass::MetaOnly,
                        ).is_some() {
                            proof {
                                assert(sp.wf_node(fake_tok2 as int));
                            }
                            let fake_attr = match sp.nodes[fake_tok2].parent {
                                Option::Some(fp) => sp.find_ancestor(fp, KindClass::Attr),
                                Option::None => None,
                            };
                            ident_ctx = IdentContext::UnexpandedAttrTT {
                                fake_attribute_under_caret: fake_attr,
                            };
                        } else {
                            return None;
                        }
                    }
                },
                Option::Some(nl) => {
                    completion_location = sema.determine_location(st.orig, st.offset, nl);
                    prev_sibling = sema.determine_prev_sibling(st.spec_tree, nl);
                    impl_def = enclosing_def(sema, token.loc, SyntaxKind::Impl);
                    function_def = enclosing_def(sema, token.loc, SyntaxKind::Fn);
                    let k = sp.nodes[nl].kind;
                    if k == SyntaxKind::Lifetime {
                        match classify_lifetime(orig, sp, nl) {
                            Option::Some(lc) => {
                                ident_ctx = IdentContext::Lifetime(lc);
                            },
                            Option::None => {
                                return None;
                            },
                        }
                    } else if k == SyntaxKind::NameRef {
                        proof {
                            assert(sp.wf_node(nl as int));
                        }
                        let parent = match sp.nodes[nl].parent {
                            Option::Some(p) => p,
                            Option::None => {
                                return None;
                            },
                        };
                        let (nr, pat) = classify_name_ref(
                            sema,
                            st.orig,
                            st.spec_tree,
                            nl,
                            parent,
                            config.marker_len,
                        );
                        ident_ctx = IdentContext::NameRef(nr);
                        pattern_ctx = pat;
                    } else if k == SyntaxKind::Name {
                        match classify_name(orig, sp, nl, config.marker_len) {
                            Option::Some((nc, pat)) => {
                                ident_ctx = IdentContext::Name(nc);
                                pattern_ctx = pat;
                            },
                            Option::None => {
                                return None;
                            },
                        }
                    } else {
                        return None;
                    }
                },
            }
        },
    }
    let ctx = CompletionContext {
        config,
        position,
        original_token,
        token,
        krate,
        module,
        expected_name,
        expected_type,
        function_def,
        impl_def,
        incomplete_let: inc_let,
        completion_location,
        prev_sibling,
        previous_token,
        ident_ctx,
        pattern_ctx,
        existing_derives,
        locals,
        scope_entries,
        visible_traits,
        famous_drop: sema.famous_drop,
    };
    proof {
        assert(spec_res matches Option::Some(v) && ctx@ =~= v);
    }
    Some(ctx)
}

/// The construction of a completion context, as a function of the model:
/// parse both trees, locate the boundary tokens, walk the expansions in
/// lock-step, and classify the final placeholder position. Failure of any
/// lookup is silent absence of a context.
pub open spec fn spec_new(
    sema: Semantics,
    position: FilePosition,
    config: CompletionConfig,
) -> Option<CtxView> {
    match sema.spec_parse(position.file) {
        Option::None => Option::None,
        Option::Some(orig_id) => {
            if !sema.spec_tree_ok(orig_id as int) {
                Option::None
            } else {
                match sema.spec_speculative_parse(position.file, position.offset as int) {
                    Option::None => Option::None,
                    Option::Some(spec_id) => {
                        if !sema.spec_tree_ok(spec_id as int) {
                            Option::None
                        } else {
                            spec_new_with_trees(sema, position, config, orig_id, spec_id)
                        }
                    },
                }
            }
        },
    }
}

/// The construction after both parses succeeded: without a token at the
/// cursor in either tree there is no context.
pub open spec fn spec_new_with_trees(
    sema: Semantics,
    position: FilePosition,
    config: CompletionConfig,
    orig_id: usize,
    spec_id: usize,
) -> Option<CtxView> {
    let ot = sema.trees[orig_id as int];
    let sp = sema.trees[spec_id as int];
    match sp.spec_right_biased(position.offset as int) {
        Option::None => Option::None,
        Option::Some(fake) => {
            match ot.spec_left_biased(position.offset as int) {
                Option::None => Option::None,
                Option::Some(orig_tok) => {
                    if !((fake as int) < sp.nodes.len() && (orig_tok as int) < ot.nodes.len()) {
                        Option::None
                    } else {
                        let token_loc = sema.spec_descend_single(
                            NodeLoc { tree: orig_id, node: orig_tok },
                        );
                        if !(sema.spec_tree_ok(token_loc.tree as int) && (token_loc.node as int)
                            < sema.trees[token_loc.tree as int].nodes.len()) {
                            Option::None
                        } else {
                            let token = spec_token_info(sema, token_loc.tree, token_loc.node);
                            let original_token = spec_token_info(sema, orig_id, orig_tok);
                            let tp = sema.trees[token_loc.tree as int].parent_of(
                                token_loc.node as int,
                            );
                            if tp < 0 {
                                Option::None
                            } else {
                                match sema.spec_scope_at(
                                    token_loc.tree as int,
                                    tp,
                                    position.offset as int,
                                ) {
                                    Option::None => Option::None,
                                    Option::Some(k) => {
                                        let scope = sema.scopes@[k];
                                        let st0 = WalkState {
                                            orig: orig_id,
                                            spec_tree: spec_id,
                                            offset: position.offset,
                                            fake_tok: fake,
                                        };
                                        let (stf, derive) = spec_expand_loop(sema, st0);
                                        let existing = match derive {
                                            Option::Some(d) => match sema.spec_derive_resolution(
                                                d.origin_attr.tree as int,
                                                d.origin_attr.node as int,
                                            ) {
                                                Option::Some(i) => sema.derive_resolutions@[i].macros@,
                                                Option::None => Seq::empty(),
                                            },
                                            Option::None => Seq::empty(),
                                        };
                                        spec_fill(
                                            sema,
                                            config,
                                            position,
                                            original_token,
                                            token,
                                            scope.krate,
                                            scope.module,
                                            spec_locals(scope.entries@),
                                            scope.entries@,
                                            scope.visible_traits@,
                                            existing,
                                            stf,
                                            derive,
                                        )
                                    },
                                }
                            }
                        }
                    }
                },
            }
        },
    }
}

/// Failed token lookup means no context: when both parses exist but no
/// token lookup succeeds at the offset in either the original tree
/// (left-biased) or the speculative tree (right-biased), context
/// construction fails.
pub proof fn lemma_no_token_no_context(
    sema: Semantics,
    position: FilePosition,
    config: CompletionConfig,
    orig_id: usize,
    spec_id: usize,
)
    requires
        sema.spec_parse(position.file) == Option::Some(orig_id),
        sema.spec_tree_ok(orig_id as int),
        sema.spec_speculative_parse(position.file, position.offset as int) == Option::Some(
            spec_id,
        ),
        sema.spec_tree_ok(spec_id as int),
        sema.trees[spec_id as int].spec_right_biased(position.offset as int) is None || sema.trees[
            orig_id as int
        ].spec_left_biased(position.offset as int) is None,
    ensures
        spec_new(sema, position, config) is None,
{
}

/// Determinism: identical (model, position, configuration) inputs produce
/// structurally equal results — two constructions agreeing with the
/// specification agree with each other, view for view.
pub proof fn lemma_new_deterministic(
    r1: Option<CompletionContext>,
    r2: Option<CompletionContext>,
    sema: Semantics,
    position: FilePosition,
    config: CompletionConfig,
)
    requires
        (match r1 {
            Option::Some(c) => Option::Some(c@) == spec_new(sema, position, config),
            Option::None => spec_new(sema, position, config) is None,
        }),
        (match r2 {
            Option::Some(c) => Option::Some(c@) == spec_new(sema, position, config),
            Option::None => spec_new(sema, position, config) is None,
        }),
    ensures
        r1 is Some <==> r2 is Some,
        r1 is Some ==> r1->0@ == r2->0@,
{
}

impl CompletionContext {
    /// Resolve a completion request: where exactly is the cursor,
    /// syntax-wise. `None` means no completions are offered there. Two
    /// calls with equal inputs produce structurally equal results, and
    /// without a token at the cursor in either the original or the
    /// speculative tree there is no context.
    pub fn new(sema: &Semantics, position: FilePosition, config: &CompletionConfig) -> (res:
        Option<CompletionContext>)
        ensures
            match res {
                Option::Some(c) => Option::Some(c@) == spec_new(*sema, position, *config),
                Option::None => spec_new(*sema, position, *config) is None,
            },
    {
        let orig_id = match sema.parse(position.file) {
            Option::Some(t) => t,
            Option::None => {
                return None;
            },
        };
        if sema.tree_checked(orig_id).is_none() {
            return None;
        }
        let spec_id = match sema.speculative_parse(position.file, position.offset) {
            Option::Some(t) => t,
            Option::None => {
                return None;
            },
        };
        if sema.tree_checked(spec_id).is_none() {
            return None;
        }
        let ot = &sema.trees[orig_id];
        let sp = &sema.trees[spec_id];
        let fake = match sp.token_at_offset_right_biased(position.offset) {
            Option::Some(t) => t,
            Option::None => {
                return None;
            },
        };
        let orig_tok = match ot.token_at_offset_left_biased(position.offset) {
            Option::Some(t) => t,
            Option::None => {
                return None;
            },
        };
        let token_loc = sema.descend_into_macros_single(
            NodeLoc { tree: orig_id, node: orig_tok },
        );
        let tl_ok = match sema.tree_checked(token_loc.tree) {
            Option::Some(tr) => token_loc.node < tr.nodes.len(),
            Option::None => false,
        };
        if !tl_ok {
            return None;
        }
        let token = token_info(sema, token_loc.tree, token_loc.node);
        let original_token = token_info(sema, orig_id, orig_tok);
        proof {
            assert(sema.trees[token_loc.tree as int].wf_node(token_loc.node as int));
        }
        let tp = match sema.trees[token_loc.tree].nodes[token_loc.node].parent {
            Option::Some(p) => p,
            Option::None => {
                return None;
            },
        };
        let scope_idx = match sema.scope_at(token_loc.tree, tp, position.offset) {
            Option::Some(k) => k,
            Option::None => {
                return None;
            },
        };
        let krate = sema.scopes[scope_idx].krate;
        let module = sema.scopes[scope_idx].module;
        let scope_entries = sema.scope_entries_at(scope_idx);
        let visible_traits = crate::sema::clone_u32s(&sema.scopes[scope_idx].visible_traits);
        let locals = locals_of(&scope_entries);
        let st0 = WalkState {
            orig: orig_id,
            spec_tree: spec_id,
            offset: position.offset,
            fake_tok: fake,
        };
        let (stf, derive) = expand_loop(sema, st0);
        let existing_derives: Vec<u64> = match derive {
            Option::Some(d) => {
                match sema.derive_resolution_at(d.origin_attr.tree, d.origin_attr.node) {
                    Option::Some(i) => clone_u64s(&sema.derive_resolutions[i].macros),
                    Option::None => Vec::new(),
                }
            },
            Option::None => Vec::new(),
        };
        fill(
            sema,
            *config,
            position,
            original_token,
            token,
            krate,
            module,
            locals,
            scope_entries,
            visible_traits,
            existing_derives,
            stf,
            derive,
        )
    }
}

} // verus!
