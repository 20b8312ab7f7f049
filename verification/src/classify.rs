//! Classification of the placeholder position: re-locating nodes across the
//! tree pair by byte range, path shape analysis, and the pattern-context
//! builder.

use vstd::prelude::*;

use crate::context::{
    AttrKind, DotAccess, ItemListKind, LifetimeContext, LifetimeKind, NameContext, NameKind,
    NameRefContext, ParamCtx, ParamKind, PathCompletionCtx, PathKind, PathQualifierCtx,
    PatternContext, PatternRefutability,
};
use crate::kind::{KindClass, SyntaxKind};
use crate::patterns::{is_in_loop_body, spec_is_in_loop_body};
use crate::sema::{spec_node_key_from, node_key_get, Semantics};
use crate::text::TextRange;
use crate::tree::SynTree;

verus! {

/// A node of `class` found in `tree` from a byte range of the other tree:
/// the intersection with the tree's full range is covered, then the walk
/// goes outward to the first node of the class.
pub open spec fn spec_find_node_in_file(tree: SynTree, r: TextRange, class: KindClass) -> Option<
    usize,
> {
    if tree.nodes.len() == 0 {
        Option::None
    } else {
        match r.spec_intersect(tree.nodes[0].range) {
            Option::Some(ir) => tree.spec_find_covering_ancestor(ir, class),
            Option::None => Option::None,
        }
    }
}

pub fn find_node_in_file(tree: &SynTree, r: &TextRange, class: KindClass) -> (res: Option<usize>)
    requires
        tree.wf(),
    ensures
        res == spec_find_node_in_file(*tree, *r, class),
        res is Some ==> res->0 < tree.nodes.len(),
{
    match r.intersect(&tree.nodes[0].range) {
        Option::Some(ir) => tree.find_covering_ancestor(&ir, class),
        Option::None => None,
    }
}

/// As `spec_find_node_in_file`, compensating the range's end for the byte
/// length of the inserted placeholder. Wrong for nodes that come before the
/// insertion point, which use the plain lookup instead.
pub open spec fn spec_find_node_in_file_compensated(
    tree: SynTree,
    r: TextRange,
    marker_len: int,
    class: KindClass,
) -> Option<usize> {
    if r.end < marker_len {
        Option::None
    } else {
        let end = r.end - marker_len;
        if end < r.start {
            Option::None
        } else {
            spec_find_node_in_file(tree, TextRange { start: r.start, end: end as usize }, class)
        }
    }
}

pub fn find_node_in_file_compensated(
    tree: &SynTree,
    r: &TextRange,
    marker_len: usize,
    class: KindClass,
) -> (res: Option<usize>)
    requires
        tree.wf(),
    ensures
        res == spec_find_node_in_file_compensated(*tree, *r, marker_len as int, class),
        res is Some ==> res->0 < tree.nodes.len(),
{
    if r.end < marker_len {
        return None;
    }
    let end = r.end - marker_len;
    if end < r.start {
        return None;
    }
    find_node_in_file(tree, &TextRange { start: r.start, end }, class)
}

/// The outermost path node reached from `p` by walking parent paths.
pub open spec fn spec_top_path(tree: SynTree, p: int) -> int
    decreases p + 1,
    when 0 <= p < tree.nodes.len()
{
    let par = tree.parent_of(p);
    if 0 <= par < p && tree.nodes[par].kind == SyntaxKind::Path {
        spec_top_path(tree, par)
    } else {
        p
    }
}

pub fn top_path(tree: &SynTree, p: usize) -> (res: usize)
    requires
        tree.wf(),
        p < tree.nodes.len(),
    ensures
        res == spec_top_path(*tree, p as int),
        res < tree.nodes.len(),
    decreases p,
{
    proof {
        assert(tree.wf_node(p as int));
    }
    match tree.nodes[p].parent {
        Option::Some(par) => {
            if tree.nodes[par].kind == SyntaxKind::Path {
                top_path(tree, par)
            } else {
                p
            }
        },
        Option::None => p,
    }
}

/// Whether every path from `p` down its qualifier chain consists of a
/// segment that is literally `super`.
pub open spec fn spec_is_super_chain(tree: SynTree, p: int) -> bool
    decreases tree.nodes.len() - p,
    when 0 <= p < tree.nodes.len()
{
    let seg_ok = match tree.spec_child_of_kind(p, SyntaxKind::PathSegment) {
        Option::Some(s) => tree.spec_child_of_kind(s as int, SyntaxKind::SuperKw) is Some,
        Option::None => false,
    };
    if !seg_ok {
        false
    } else {
        match tree.spec_child_of_kind(p, SyntaxKind::Path) {
            Option::Some(q) => if p < q < tree.nodes.len() {
                spec_is_super_chain(tree, q as int)
            } else {
                true
            },
            Option::None => true,
        }
    }
}

pub fn is_super_chain(tree: &SynTree, p: usize) -> (res: bool)
    requires
        tree.wf(),
        p < tree.nodes.len(),
    ensures
        res == spec_is_super_chain(*tree, p as int),
    decreases tree.nodes.len() - p,
{
    let seg_ok = match tree.child_of_kind(p, SyntaxKind::PathSegment) {
        Option::Some(s) => tree.child_of_kind(s, SyntaxKind::SuperKw).is_some(),
        Option::None => false,
    };
    if !seg_ok {
        return false;
    }
    match tree.child_of_kind(p, SyntaxKind::Path) {
        Option::Some(q) => {
            proof {
                tree.lemma_child_of_kind_from_bounds(p as int, SyntaxKind::Path, p as int + 1);
            }
            is_super_chain(tree, q)
        },
        Option::None => true,
    }
}

/// Whether the segment of `p` is a bare inferred-type qualifier (`<_>`)
/// with no further trait qualification.
pub open spec fn spec_is_infer_qualifier(tree: SynTree, p: int) -> bool {
    if tree.spec_child_of_kind(p, SyntaxKind::Path) is Some {
        false
    } else {
        match tree.spec_child_of_kind(p, SyntaxKind::PathSegment) {
            Option::Some(s) => tree.spec_child_of_kind(s as int, SyntaxKind::InferType) is Some
                && tree.spec_child_of_kind(s as int, SyntaxKind::PathType) is None,
            Option::None => false,
        }
    }
}

pub fn is_infer_qualifier(tree: &SynTree, p: usize) -> (res: bool)
    requires
        tree.wf(),
        p < tree.nodes.len(),
    ensures
        res == spec_is_infer_qualifier(*tree, p as int),
{
    if tree.child_of_kind(p, SyntaxKind::Path).is_some() {
        return false;
    }
    match tree.child_of_kind(p, SyntaxKind::PathSegment) {
        Option::Some(s) => tree.child_of_kind(s, SyntaxKind::InferType).is_some()
            && tree.child_of_kind(s, SyntaxKind::PathType).is_none(),
        Option::None => false,
    }
}

/// The qualifier of a path: its own qualifier child, or — for a path nested
/// in a use-tree list — the parent use-tree's path, with a flag saying
/// which of the two it was.
pub open spec fn spec_path_or_use_tree_qualifier(tree: SynTree, p: int) -> Option<(usize, bool)> {
    match tree.spec_child_of_kind(p, SyntaxKind::Path) {
        Option::Some(q) => Option::Some((q, false)),
        Option::None => {
            if !(0 <= p < tree.nodes.len()) {
                Option::None
            } else {
                match tree.spec_find_ancestor(p, KindClass::UseTreeList) {
                    Option::Some(utl) => {
                        let par = tree.parent_of(utl as int);
                        if par >= 0 && tree.nodes[par].kind == SyntaxKind::UseTree {
                            match tree.spec_child_of_kind(par, SyntaxKind::Path) {
                                Option::Some(q) => Option::Some((q, true)),
                                Option::None => Option::None,
                            }
                        } else {
                            Option::None
                        }
                    },
                    Option::None => Option::None,
                }
            }
        },
    }
}

pub fn path_or_use_tree_qualifier(tree: &SynTree, p: usize) -> (res: Option<(usize, bool)>)
    requires
        tree.wf(),
        p < tree.nodes.len(),
    ensures
        res == spec_path_or_use_tree_qualifier(*tree, p as int),
        res is Some ==> (res->0).0 < tree.nodes.len(),
{
    match tree.child_of_kind(p, SyntaxKind::Path) {
        Option::Some(q) => Some((q, false)),
        Option::None => {
            match tree.find_ancestor(p, KindClass::UseTreeList) {
                Option::Some(utl) => {
                    proof {
                        assert(tree.wf_node(utl as int));
                    }
                    match tree.nodes[utl].parent {
                        Option::Some(par) => {
                            if tree.nodes[par].kind == SyntaxKind::UseTree {
                                match tree.child_of_kind(par, SyntaxKind::Path) {
                                    Option::Some(q) => Some((q, true)),
                                    Option::None => None,
                                }
                            } else {
                                None
                            }
                        },
                        Option::None => None,
                    }
                },
                Option::None => None,
            }
        },
    }
}

/// The first non-pattern node in the parent chain of `i` (starting at `i`
/// itself).
pub open spec fn spec_first_non_pat_ancestor(tree: SynTree, i: int) -> Option<usize>
    decreases i + 1,
    when -1 <= i < tree.nodes.len()
{
    if i < 0 {
        Option::None
    } else if !tree.nodes[i].kind.spec_is_pat() {
        Option::Some(i as usize)
    } else {
        let p = tree.parent_of(i);
        if -1 <= p < i {
            spec_first_non_pat_ancestor(tree, p)
        } else {
            Option::None
        }
    }
}

fn first_non_pat_ancestor(tree: &SynTree, i: usize) -> (res: Option<usize>)
    requires
        tree.wf(),
        i < tree.nodes.len(),
    ensures
        res == spec_first_non_pat_ancestor(*tree, i as int),
        res is Some ==> res->0 < tree.nodes.len(),
    decreases i,
{
    proof {
        assert(tree.wf_node(i as int));
    }
    if !tree.nodes[i].kind.is_pat() {
        Some(i)
    } else {
        match tree.nodes[i].parent {
            Option::Some(p) => first_non_pat_ancestor(tree, p),
            Option::None => {
                proof {
                    reveal_with_fuel(spec_first_non_pat_ancestor, 2);
                }
                None
            },
        }
    }
}

/// The parameter-position information of a pattern whose first non-pattern
/// ancestor is the parameter `param` (in the speculative tree): the owning
/// parameter list and parameter re-located in the original tree, and
/// whether the owner is a closure or a function.
pub open spec fn spec_param_ctx(
    orig: SynTree,
    spec_tree: SynTree,
    param: int,
    marker_len: int,
) -> Option<ParamCtx> {
    let fpl = spec_tree.parent_of(param);
    if !(fpl >= 0 && spec_tree.nodes[fpl].kind == SyntaxKind::ParamList) {
        Option::None
    } else {
        match spec_find_node_in_file_compensated(
            orig,
            spec_tree.nodes[fpl].range,
            marker_len,
            KindClass::ParamList,
        ) {
            Option::None => Option::None,
            Option::Some(pl) => {
                let owner = orig.parent_of(pl as int);
                if owner < 0 {
                    Option::None
                } else {
                    let kind = if orig.nodes[owner].kind == SyntaxKind::ClosureExpr {
                        Option::Some(ParamKind::Closure(owner as usize))
                    } else if orig.nodes[owner].kind == SyntaxKind::Fn {
                        Option::Some(ParamKind::Function(owner as usize))
                    } else {
                        Option::None
                    };
                    match kind {
                        Option::None => Option::None,
                        Option::Some(k) => {
                            match spec_find_node_in_file_compensated(
                                orig,
                                spec_tree.nodes[param].range,
                                marker_len,
                                KindClass::ParamOnly,
                            ) {
                                Option::Some(pr) => Option::Some(
                                    ParamCtx { param_list: pl, param: pr, kind: k },
                                ),
                                Option::None => Option::None,
                            }
                        },
                    }
                }
            },
        }
    }
}

fn param_ctx_for(orig: &SynTree, spec_tree: &SynTree, param: usize, marker_len: usize) -> (res:
    Option<ParamCtx>)
    requires
        orig.wf(),
        spec_tree.wf(),
        param < spec_tree.nodes.len(),
    ensures
        res == spec_param_ctx(*orig, *spec_tree, param as int, marker_len as int),
{
    proof {
        assert(spec_tree.wf_node(param as int));
    }
    let fpl = match spec_tree.nodes[param].parent {
        Option::Some(p) => p,
        Option::None => {
            return None;
        },
    };
    if !(spec_tree.nodes[fpl].kind == SyntaxKind::ParamList) {
        return None;
    }
    let pl = match find_node_in_file_compensated(
        orig,
        &spec_tree.nodes[fpl].range,
        marker_len,
        KindClass::ParamList,
    ) {
        Option::Some(pl) => pl,
        Option::None => {
            return None;
        },
    };
    let owner = match orig.nodes[pl].parent {
        Option::Some(o) => o,
        Option::None => {
            return None;
        },
    };
    proof {
        assert(orig.wf_node(pl as int));
    }
    let kind = if orig.nodes[owner].kind == SyntaxKind::ClosureExpr {
        ParamKind::Closure(owner)
    } else if orig.nodes[owner].kind == SyntaxKind::Fn {
        ParamKind::Function(owner)
    } else {
        return None;
    };
    match find_node_in_file_compensated(
        orig,
        &spec_tree.nodes[param].range,
        marker_len,
        KindClass::ParamOnly,
    ) {
        Option::Some(pr) => Some(ParamCtx { param_list: pl, param: pr, kind }),
        Option::None => None,
    }
}

/// The pattern context of the pattern `pat` in the speculative tree:
/// refutability from the first non-pattern ancestor, parameter-position
/// information re-located in the original tree, type-ascription and
/// binding-modifier flags, and the re-located parent pattern.
pub open spec fn spec_pattern_context_for(
    orig: SynTree,
    spec_tree: SynTree,
    pat: int,
    marker_len: int,
) -> PatternContext {
    let anc = spec_first_non_pat_ancestor(spec_tree, pat);
    let refutability = match anc {
        Option::Some(a) => {
            if spec_tree.nodes[a as int].kind == SyntaxKind::MatchArm || spec_tree.nodes[
                a as int
            ].kind == SyntaxKind::LetExpr {
                PatternRefutability::Refutable
            } else {
                PatternRefutability::Irrefutable
            }
        },
        Option::None => PatternRefutability::Irrefutable,
    };
    let has_type_ascription = match anc {
        Option::Some(a) => {
            (spec_tree.nodes[a as int].kind == SyntaxKind::LetStmt || spec_tree.nodes[
                a as int
            ].kind == SyntaxKind::Param) && spec_tree.spec_child_in_class(
                a as int,
                KindClass::TypeNode,
            ) is Some
        },
        Option::None => false,
    };
    let param_ctx = match anc {
        Option::Some(a) => {
            if spec_tree.nodes[a as int].kind == SyntaxKind::Param {
                spec_param_ctx(orig, spec_tree, a as int, marker_len)
            } else {
                Option::None
            }
        },
        Option::None => Option::None,
    };
    let has_ref_token = spec_tree.nodes[pat].kind == SyntaxKind::IdentPat
        && spec_tree.spec_child_of_kind(pat, SyntaxKind::RefKw) is Some;
    let has_mut_token = spec_tree.nodes[pat].kind == SyntaxKind::IdentPat
        && spec_tree.spec_child_of_kind(pat, SyntaxKind::MutKw) is Some;
    let parent_pat = {
        let pp = spec_tree.parent_of(pat);
        if pp >= 0 && spec_tree.nodes[pp].kind.spec_is_pat() {
            spec_find_node_in_file_compensated(
                orig,
                spec_tree.nodes[pp].range,
                marker_len,
                KindClass::Pat,
            )
        } else {
            Option::None
        }
    };
    PatternContext {
        refutability,
        param_ctx,
        has_type_ascription,
        parent_pat,
        has_ref_token,
        has_mut_token,
    }
}

pub fn pattern_context_for(
    orig: &SynTree,
    spec_tree: &SynTree,
    pat: usize,
    marker_len: usize,
) -> (res: PatternContext)
    requires
        orig.wf(),
        spec_tree.wf(),
        pat < spec_tree.nodes.len(),
    ensures
        res == spec_pattern_context_for(*orig, *spec_tree, pat as int, marker_len as int),
{
    let anc = first_non_pat_ancestor(spec_tree, pat);
    let refutability = match anc {
        Option::Some(a) => {
            let k = spec_tree.nodes[a].kind;
            if k == SyntaxKind::MatchArm || k == SyntaxKind::LetExpr {
                PatternRefutability::Refutable
            } else {
                PatternRefutability::Irrefutable
            }
        },
        Option::None => PatternRefutability::Irrefutable,
    };
    let has_type_ascription = match anc {
        Option::Some(a) => {
            let k = spec_tree.nodes[a].kind;
            (k == SyntaxKind::LetStmt || k == SyntaxKind::Param) && spec_tree.child_in_class(
                a,
                KindClass::TypeNode,
            ).is_some()
        },
        Option::None => false,
    };
    let param_ctx = match anc {
        Option::Some(a) => {
            if spec_tree.nodes[a].kind == SyntaxKind::Param {
                param_ctx_for(orig, spec_tree, a, marker_len)
            } else {
                None
            }
        },
        Option::None => None,
    };
    let is_ident_pat = spec_tree.nodes[pat].kind == SyntaxKind::IdentPat;
    let has_ref_token = is_ident_pat && spec_tree.child_of_kind(pat, SyntaxKind::RefKw).is_some();
    let has_mut_token = is_ident_pat && spec_tree.child_of_kind(pat, SyntaxKind::MutKw).is_some();
    proof {
        assert(spec_tree.wf_node(pat as int));
    }
    let parent_pat = match spec_tree.nodes[pat].parent {
        Option::Some(pp) => {
            if spec_tree.nodes[pp].kind.is_pat() {
                find_node_in_file_compensated(
                    orig,
                    &spec_tree.nodes[pp].range,
                    marker_len,
                    KindClass::Pat,
                )
            } else {
                None
            }
        },
        Option::None => None,
    };
    PatternContext {
        refutability,
        param_ctx,
        has_type_ascription,
        parent_pat,
        has_ref_token,
        has_mut_token,
    }
}

/// The lifetime classification at the placeholder. The re-located lifetime
/// node comes from the original tree; an error-node parent produces no
/// context.
pub open spec fn spec_classify_lifetime(orig: SynTree, sp: SynTree, lt: int) -> Option<
    LifetimeContext,
> {
    let par = sp.parent_of(lt);
    if par < 0 || sp.nodes[par].kind == SyntaxKind::Error {
        Option::None
    } else {
        let kind = if sp.nodes[par].kind == SyntaxKind::LifetimeParam {
            LifetimeKind::LifetimeParam {
                is_decl: sp.spec_child_of_kind(par, SyntaxKind::Lifetime) == Option::Some(
                    lt as usize,
                ),
            }
        } else if sp.nodes[par].kind == SyntaxKind::BreakExpr || sp.nodes[par].kind
            == SyntaxKind::ContinueExpr {
            LifetimeKind::LabelRef
        } else if sp.nodes[par].kind == SyntaxKind::Label {
            LifetimeKind::LabelDef
        } else {
            LifetimeKind::Lifetime
        };
        Option::Some(
            LifetimeContext {
                lifetime: orig.spec_find_node_at_offset(
                    sp.nodes[lt].range.start as int,
                    KindClass::LifetimeOnly,
                ),
                kind,
            },
        )
    }
}

pub fn classify_lifetime(orig: &SynTree, sp: &SynTree, lt: usize) -> (res: Option<
    LifetimeContext,
>)
    requires
        orig.wf(),
        sp.wf(),
        lt < sp.nodes.len(),
    ensures
        res == spec_classify_lifetime(*orig, *sp, lt as int),
{
    proof {
        assert(sp.wf_node(lt as int));
    }
    let par = match sp.nodes[lt].parent {
        Option::Some(p) => p,
        Option::None => {
            return None;
        },
    };
    if sp.nodes[par].kind == SyntaxKind::Error {
        return None;
    }
    let kind = if sp.nodes[par].kind == SyntaxKind::LifetimeParam {
        let decl = match sp.child_of_kind(par, SyntaxKind::Lifetime) {
            Option::Some(l) => l == lt,
            Option::None => false,
        };
        LifetimeKind::LifetimeParam { is_decl: decl }
    } else if sp.nodes[par].kind == SyntaxKind::BreakExpr || sp.nodes[par].kind
        == SyntaxKind::ContinueExpr {
        LifetimeKind::LabelRef
    } else if sp.nodes[par].kind == SyntaxKind::Label {
        LifetimeKind::LabelDef
    } else {
        LifetimeKind::Lifetime
    };
    let lifetime = orig.find_node_at_offset(sp.nodes[lt].range.start, KindClass::LifetimeOnly);
    Some(LifetimeContext { lifetime, kind })
}

/// The parent kind of a declared name, as a `NameKind`; `None` for parents
/// outside the closed set.
pub open spec fn spec_name_kind_of(k: SyntaxKind) -> Option<NameKind> {
    match k {
        SyntaxKind::Const => Option::Some(NameKind::Const),
        SyntaxKind::ConstParam => Option::Some(NameKind::ConstParam),
        SyntaxKind::Enum => Option::Some(NameKind::Enum),
        SyntaxKind::Fn => Option::Some(NameKind::Function),
        SyntaxKind::IdentPat => Option::Some(NameKind::IdentPat),
        SyntaxKind::MacroDef => Option::Some(NameKind::MacroDef),
        SyntaxKind::MacroRules => Option::Some(NameKind::MacroRules),
        SyntaxKind::Module => Option::Some(NameKind::Module),
        SyntaxKind::RecordField => Option::Some(NameKind::RecordField),
        SyntaxKind::Rename => Option::Some(NameKind::Rename),
        SyntaxKind::SelfParam => Option::Some(NameKind::SelfParam),
        SyntaxKind::Static => Option::Some(NameKind::Static),
        SyntaxKind::Struct => Option::Some(NameKind::Struct),
        SyntaxKind::Trait => Option::Some(NameKind::Trait),
        SyntaxKind::TypeAlias => Option::Some(NameKind::TypeAlias),
        SyntaxKind::TypeParam => Option::Some(NameKind::TypeParam),
        SyntaxKind::Union => Option::Some(NameKind::Union),
        SyntaxKind::Variant => Option::Some(NameKind::Variant),
        _ => Option::None,
    }
}

fn name_kind_of(k: SyntaxKind) -> (res: Option<NameKind>)
    ensures
        res == spec_name_kind_of(k),
{
    match k {
        SyntaxKind::Const => Some(NameKind::Const),
        SyntaxKind::ConstParam => Some(NameKind::ConstParam),
        SyntaxKind::Enum => Some(NameKind::Enum),
        SyntaxKind::Fn => Some(NameKind::Function),
        SyntaxKind::IdentPat => Some(NameKind::IdentPat),
        SyntaxKind::MacroDef => Some(NameKind::MacroDef),
        SyntaxKind::MacroRules => Some(NameKind::MacroRules),
        SyntaxKind::Module => Some(NameKind::Module),
        SyntaxKind::RecordField => Some(NameKind::RecordField),
        SyntaxKind::Rename => Some(NameKind::Rename),
        SyntaxKind::SelfParam => Some(NameKind::SelfParam),
        SyntaxKind::Static => Some(NameKind::Static),
        SyntaxKind::Struct => Some(NameKind::Struct),
        SyntaxKind::Trait => Some(NameKind::Trait),
        SyntaxKind::TypeAlias => Some(NameKind::TypeAlias),
        SyntaxKind::TypeParam => Some(NameKind::TypeParam),
        SyntaxKind::Union => Some(NameKind::Union),
        SyntaxKind::Variant => Some(NameKind::Variant),
        _ => None,
    }
}

/// The declared-name classification at the placeholder: a parent-kind
/// dispatch into the closed set, a pattern context for identifier-pattern
/// bindings that are not field-pattern shorthands, and the re-located name
/// node from the original tree.
pub open spec fn spec_classify_name(
    orig: SynTree,
    sp: SynTree,
    name: int,
    marker_len: int,
) -> Option<(NameContext, Option<PatternContext>)> {
    let par = sp.parent_of(name);
    if par < 0 {
        Option::None
    } else {
        match spec_name_kind_of(sp.nodes[par].kind) {
            Option::None => Option::None,
            Option::Some(kind) => {
                let pat_ctx = if sp.nodes[par].kind == SyntaxKind::IdentPat {
                    let gp = sp.parent_of(par);
                    let is_name_in_field_pat = gp >= 0 && sp.nodes[gp].kind
                        == SyntaxKind::RecordPatField && sp.spec_child_of_kind(
                        gp,
                        SyntaxKind::NameRef,
                    ) is None;
                    if !is_name_in_field_pat {
                        Option::Some(spec_pattern_context_for(orig, sp, par, marker_len))
                    } else {
                        Option::None
                    }
                } else {
                    Option::None
                };
                let name_node = orig.spec_find_node_at_offset(
                    sp.nodes[name].range.start as int,
                    KindClass::NameOnly,
                );
                Option::Some((NameContext { name: name_node, kind }, pat_ctx))
            },
        }
    }
}

pub fn classify_name(orig: &SynTree, sp: &SynTree, name: usize, marker_len: usize) -> (res:
    Option<(NameContext, Option<PatternContext>)>)
    requires
        orig.wf(),
        sp.wf(),
        name < sp.nodes.len(),
    ensures
        res == spec_classify_name(*orig, *sp, name as int, marker_len as int),
{
    proof {
        assert(sp.wf_node(name as int));
    }
    let par = match sp.nodes[name].parent {
        Option::Some(p) => p,
        Option::None => {
            return None;
        },
    };
    let kind = match name_kind_of(sp.nodes[par].kind) {
        Option::Some(k) => k,
        Option::None => {
            return None;
        },
    };
    let pat_ctx = if sp.nodes[par].kind == SyntaxKind::IdentPat {
        proof {
            assert(sp.wf_node(par as int));
        }
        let is_name_in_field_pat = match sp.nodes[par].parent {
            Option::Some(gp) => sp.nodes[gp].kind == SyntaxKind::RecordPatField
                && sp.child_of_kind(gp, SyntaxKind::NameRef).is_none(),
            Option::None => false,
        };
        if !is_name_in_field_pat {
            Some(pattern_context_for(orig, sp, par, marker_len))
        } else {
            None
        }
    } else {
        None
    };
    let name_node = orig.find_node_at_offset(sp.nodes[name].range.start, KindClass::NameOnly);
    Some((NameContext { name: name_node, kind }, pat_ctx))
}

/// The outcome of the walk up a path's ancestors looking for its syntactic
/// slot: no recognized ancestor, a structurally ambiguous position, or a
/// slot kind together with the flags and pattern node recorded by the
/// matching ancestor.
#[derive(Clone, Copy, Debug, PartialEq, Eq, Structural)]
pub enum SlotSearch {
    NotFound,
    Ambiguous { has_macro_bang: bool },
    Found { kind: PathKind, has_call_parens: bool, has_macro_bang: bool, pat_node: Option<usize> },
}

/// Whether the node sits directly in a statement position of a block.
pub open spec fn spec_in_block(tree: SynTree, it: int) -> bool {
    let p = tree.parent_of(it);
    p >= 0 && (tree.nodes[p].kind == SyntaxKind::ExprStmt || tree.nodes[p].kind
        == SyntaxKind::StmtList)
}

/// Whether the node sits in a record expression's functional-update
/// position.
pub open spec fn spec_in_func_update(tree: SynTree, it: int) -> bool {
    let p = tree.parent_of(it);
    p >= 0 && tree.nodes[p].kind == SyntaxKind::RecordExprFieldList
}

/// The expression-slot kind at node `it`.
pub open spec fn spec_expr_slot(tree: SynTree, it: int) -> PathKind {
    PathKind::Expr {
        in_block_expr: spec_in_block(tree, it),
        in_loop_body: spec_is_in_loop_body(tree, it),
        in_functional_update: spec_in_func_update(tree, it),
    }
}

/// The item-list kind of an associated-item list, judged by its owner;
/// `None` when the owner is neither a trait nor an impl.
pub open spec fn spec_assoc_owner_kind(tree: SynTree, al: int) -> Option<ItemListKind> {
    let p = tree.parent_of(al);
    if p >= 0 && tree.nodes[p].kind == SyntaxKind::Trait {
        Option::Some(ItemListKind::Trait)
    } else if p >= 0 && tree.nodes[p].kind == SyntaxKind::Impl {
        Option::Some(ItemListKind::Impl)
    } else {
        Option::None
    }
}

/// One ancestor walk step of the slot search, as a fixed dispatch on the
/// ancestor's kind.
pub open spec fn spec_slot_search(tree: SynTree, it: int) -> SlotSearch
    decreases it + 1,
    when 0 <= it < tree.nodes.len()
{
    let k = tree.nodes[it].kind;
    if k == SyntaxKind::PathType {
        SlotSearch::Found {
            kind: PathKind::Type,
            has_call_parens: false,
            has_macro_bang: false,
            pat_node: Option::None,
        }
    } else if k == SyntaxKind::PathExpr {
        let p = tree.parent_of(it);
        SlotSearch::Found {
            kind: spec_expr_slot(tree, it),
            has_call_parens: p >= 0 && tree.nodes[p].kind == SyntaxKind::CallExpr,
            has_macro_bang: false,
            pat_node: Option::None,
        }
    } else if k == SyntaxKind::TupleStructPat || k == SyntaxKind::RecordPat {
        SlotSearch::Found {
            kind: PathKind::Pat,
            has_call_parens: true,
            has_macro_bang: false,
            pat_node: Option::Some(it as usize),
        }
    } else if k == SyntaxKind::PathPat {
        SlotSearch::Found {
            kind: PathKind::Pat,
            has_call_parens: false,
            has_macro_bang: false,
            pat_node: Option::Some(it as usize),
        }
    } else if k == SyntaxKind::MacroCall {
        let bang = tree.spec_child_of_kind(it, SyntaxKind::Bang) is Some;
        let p = tree.parent_of(it);
        if p < 0 {
            SlotSearch::Ambiguous { has_macro_bang: bang }
        } else if tree.nodes[p].kind == SyntaxKind::MacroPat {
            SlotSearch::Found {
                kind: PathKind::Pat,
                has_call_parens: false,
                has_macro_bang: bang,
                pat_node: Option::None,
            }
        } else if tree.nodes[p].kind == SyntaxKind::MacroType {
            SlotSearch::Found {
                kind: PathKind::Type,
                has_call_parens: false,
                has_macro_bang: bang,
                pat_node: Option::None,
            }
        } else if tree.nodes[p].kind == SyntaxKind::ItemList {
            SlotSearch::Found {
                kind: PathKind::Item { kind: ItemListKind::Module },
                has_call_parens: false,
                has_macro_bang: bang,
                pat_node: Option::None,
            }
        } else if tree.nodes[p].kind == SyntaxKind::AssocItemList {
            match spec_assoc_owner_kind(tree, p) {
                Option::Some(ik) => SlotSearch::Found {
                    kind: PathKind::Item { kind: ik },
                    has_call_parens: false,
                    has_macro_bang: bang,
                    pat_node: Option::None,
                },
                Option::None => SlotSearch::Ambiguous { has_macro_bang: bang },
            }
        } else if tree.nodes[p].kind == SyntaxKind::ExternItemList {
            SlotSearch::Found {
                kind: PathKind::Item { kind: ItemListKind::ExternBlock },
                has_call_parens: false,
                has_macro_bang: bang,
                pat_node: Option::None,
            }
        } else if tree.nodes[p].kind == SyntaxKind::SourceFile {
            SlotSearch::Found {
                kind: PathKind::Item { kind: ItemListKind::SourceFile },
                has_call_parens: false,
                has_macro_bang: bang,
                pat_node: Option::None,
            }
        } else if tree.nodes[p].kind == SyntaxKind::MacroExpr {
            SlotSearch::Found {
                kind: spec_expr_slot(tree, p),
                has_call_parens: false,
                has_macro_bang: bang,
                pat_node: Option::None,
            }
        } else {
            SlotSearch::Ambiguous { has_macro_bang: bang }
        }
    } else if k == SyntaxKind::Meta {
        let attr = tree.parent_of(it);
        if !(attr >= 0 && tree.nodes[attr].kind == SyntaxKind::Attr) {
            SlotSearch::Ambiguous { has_macro_bang: false }
        } else {
            let attached = tree.parent_of(attr);
            if attached < 0 {
                SlotSearch::Ambiguous { has_macro_bang: false }
            } else {
                let akind = if tree.spec_child_of_kind(attr, SyntaxKind::Bang) is Some {
                    AttrKind::Inner
                } else {
                    AttrKind::Outer
                };
                let trailing = akind != AttrKind::Inner && tree.spec_next_nontrivia_sibling(
                    attr,
                ) is None;
                let annotated = if trailing {
                    Option::None
                } else {
                    Option::Some(tree.nodes[attached].kind)
                };
                SlotSearch::Found {
                    kind: PathKind::Attr { kind: akind, annotated_item_kind: annotated },
                    has_call_parens: false,
                    has_macro_bang: false,
                    pat_node: Option::None,
                }
            }
        }
    } else if k == SyntaxKind::Visibility {
        SlotSearch::Found {
            kind: PathKind::Vis {
                has_in_token: tree.spec_child_of_kind(it, SyntaxKind::InKw) is Some,
            },
            has_call_parens: false,
            has_macro_bang: false,
            pat_node: Option::None,
        }
    } else if k == SyntaxKind::UseTree {
        SlotSearch::Found {
            kind: PathKind::Use,
            has_call_parens: false,
            has_macro_bang: false,
            pat_node: Option::None,
        }
    } else if k == SyntaxKind::ItemList {
        SlotSearch::Found {
            kind: PathKind::Item { kind: ItemListKind::Module },
            has_call_parens: false,
            has_macro_bang: false,
            pat_node: Option::None,
        }
    } else if k == SyntaxKind::AssocItemList {
        match spec_assoc_owner_kind(tree, it) {
            Option::Some(ik) => SlotSearch::Found {
                kind: PathKind::Item { kind: ik },
                has_call_parens: false,
                has_macro_bang: false,
                pat_node: Option::None,
            },
            Option::None => {
                // An associated-item list without a trait or impl owner is
                // skipped; the walk goes on outward.
                let p = tree.parent_of(it);
                if -1 <= p < it {
                    if p < 0 {
                        SlotSearch::NotFound
                    } else {
                        spec_slot_search(tree, p)
                    }
                } else {
                    SlotSearch::NotFound
                }
            },
        }
    } else if k == SyntaxKind::ExternItemList {
        SlotSearch::Found {
            kind: PathKind::Item { kind: ItemListKind::ExternBlock },
            has_call_parens: false,
            has_macro_bang: false,
            pat_node: Option::None,
        }
    } else if k == SyntaxKind::SourceFile {
        SlotSearch::Found {
            kind: PathKind::Item { kind: ItemListKind::SourceFile },
            has_call_parens: false,
            has_macro_bang: false,
            pat_node: Option::None,
        }
    } else {
        let p = tree.parent_of(it);
        if -1 <= p < it {
            if p < 0 {
                SlotSearch::NotFound
            } else {
                spec_slot_search(tree, p)
            }
        } else {
            SlotSearch::NotFound
        }
    }
}

fn slot_search(tree: &SynTree, it: usize) -> (res: SlotSearch)
    requires
        tree.wf(),
        it < tree.nodes.len(),
    ensures
        res == spec_slot_search(*tree, it as int),
        res matches SlotSearch::Found { pat_node: Option::Some(n), .. } ==> n < tree.nodes.len(),
    decreases it,
{
    proof {
        assert(tree.wf_node(it as int));
    }
    let k = tree.nodes[it].kind;
    if k == SyntaxKind::PathType {
        SlotSearch::Found {
            kind: PathKind::Type,
            has_call_parens: false,
            has_macro_bang: false,
            pat_node: None,
        }
    } else if k == SyntaxKind::PathExpr {
        let hcp = match tree.nodes[it].parent {
            Option::Some(p) => tree.nodes[p].kind == SyntaxKind::CallExpr,
            Option::None => false,
        };
        SlotSearch::Found {
            kind: expr_slot(tree, it),
            has_call_parens: hcp,
            has_macro_bang: false,
            pat_node: None,
        }
    } else if k == SyntaxKind::TupleStructPat || k == SyntaxKind::RecordPat {
        SlotSearch::Found {
            kind: PathKind::Pat,
            has_call_parens: true,
            has_macro_bang: false,
            pat_node: Some(it),
        }
    } else if k == SyntaxKind::PathPat {
        SlotSearch::Found {
            kind: PathKind::Pat,
            has_call_parens: false,
            has_macro_bang: false,
            pat_node: Some(it),
        }
    } else if k == SyntaxKind::MacroCall {
        let bang = tree.child_of_kind(it, SyntaxKind::Bang).is_some();
        match tree.nodes[it].parent {
            Option::None => SlotSearch::Ambiguous { has_macro_bang: bang },
            Option::Some(p) => {
                let pk = tree.nodes[p].kind;
                if pk == SyntaxKind::MacroPat {
                    SlotSearch::Found {
                        kind: PathKind::Pat,
                        has_call_parens: false,
                        has_macro_bang: bang,
                        pat_node: None,
                    }
                } else if pk == SyntaxKind::MacroType {
                    SlotSearch::Found {
                        kind: PathKind::Type,
                        has_call_parens: false,
                        has_macro_bang: bang,
                        pat_node: None,
                    }
                } else if pk == SyntaxKind::ItemList {
                    SlotSearch::Found {
                        kind: PathKind::Item { kind: ItemListKind::Module },
                        has_call_parens: false,
                        has_macro_bang: bang,
                        pat_node: None,
                    }
                } else if pk == SyntaxKind::AssocItemList {
                    match assoc_owner_kind(tree, p) {
                        Option::Some(ik) => SlotSearch::Found {
                            kind: PathKind::Item { kind: ik },
                            has_call_parens: false,
                            has_macro_bang: bang,
                            pat_node: None,
                        },
                        Option::None => SlotSearch::Ambiguous { has_macro_bang: bang },
                    }
                } else if pk == SyntaxKind::ExternItemList {
                    SlotSearch::Found {
                        kind: PathKind::Item { kind: ItemListKind::ExternBlock },
                        has_call_parens: false,
                        has_macro_bang: bang,
                        pat_node: None,
                    }
                } else if pk == SyntaxKind::SourceFile {
                    SlotSearch::Found {
                        kind: PathKind::Item { kind: ItemListKind::SourceFile },
                        has_call_parens: false,
                        has_macro_bang: bang,
                        pat_node: None,
                    }
                } else if pk == SyntaxKind::MacroExpr {
                    SlotSearch::Found {
                        kind: expr_slot(tree, p),
                        has_call_parens: false,
                        has_macro_bang: bang,
                        pat_node: None,
                    }
                } else {
                    SlotSearch::Ambiguous { has_macro_bang: bang }
                }
            },
        }
    } else if k == SyntaxKind::Meta {
        let attr = match tree.nodes[it].parent {
            Option::Some(a) => a,
            Option::None => {
                return SlotSearch::Ambiguous { has_macro_bang: false };
            },
        };
        if !(tree.nodes[attr].kind == SyntaxKind::Attr) {
            return SlotSearch::Ambiguous { has_macro_bang: false };
        }
        proof {
            assert(tree.wf_node(attr as int));
        }
        let attached = match tree.nodes[attr].parent {
            Option::Some(a) => a,
            Option::None => {
                return SlotSearch::Ambiguous { has_macro_bang: false };
            },
        };
        let akind = if tree.child_of_kind(attr, SyntaxKind::Bang).is_some() {
            AttrKind::Inner
        } else {
            AttrKind::Outer
        };
        let trailing = akind != AttrKind::Inner && tree.next_nontrivia_sibling(attr).is_none();
        let annotated = if trailing {
            None
        } else {
            Some(tree.nodes[attached].kind)
        };
        SlotSearch::Found {
            kind: PathKind::Attr { kind: akind, annotated_item_kind: annotated },
            has_call_parens: false,
            has_macro_bang: false,
            pat_node: None,
        }
    } else if k == SyntaxKind::Visibility {
        SlotSearch::Found {
            kind: PathKind::Vis {
                has_in_token: tree.child_of_kind(it, SyntaxKind::InKw).is_some(),
            },
            has_call_parens: false,
            has_macro_bang: false,
            pat_node: None,
        }
    } else if k == SyntaxKind::UseTree {
        SlotSearch::Found {
            kind: PathKind::Use,
            has_call_parens: false,
            has_macro_bang: false,
            pat_node: None,
        }
    } else if k == SyntaxKind::ItemList {
        SlotSearch::Found {
            kind: PathKind::Item { kind: ItemListKind::Module },
            has_call_parens: false,
            has_macro_bang: false,
            pat_node: None,
        }
    } else if k == SyntaxKind::AssocItemList {
        match assoc_owner_kind(tree, it) {
            Option::Some(ik) => SlotSearch::Found {
                kind: PathKind::Item { kind: ik },
                has_call_parens: false,
                has_macro_bang: false,
                pat_node: None,
            },
            Option::None => {
                match tree.nodes[it].parent {
                    Option::Some(p) => slot_search(tree, p),
                    Option::None => SlotSearch::NotFound,
                }
            },
        }
    } else if k == SyntaxKind::ExternItemList {
        SlotSearch::Found {
            kind: PathKind::Item { kind: ItemListKind::ExternBlock },
            has_call_parens: false,
            has_macro_bang: false,
            pat_node: None,
        }
    } else if k == SyntaxKind::SourceFile {
        SlotSearch::Found {
            kind: PathKind::Item { kind: ItemListKind::SourceFile },
            has_call_parens: false,
            has_macro_bang: false,
            pat_node: None,
        }
    } else {
        match tree.nodes[it].parent {
            Option::Some(p) => slot_search(tree, p),
            Option::None => SlotSearch::NotFound,
        }
    }
}

fn expr_slot(tree: &SynTree, it: usize) -> (res: PathKind)
    requires
        tree.wf(),
        it < tree.nodes.len(),
    ensures
        res == spec_expr_slot(*tree, it as int),
{
    proof {
        assert(tree.wf_node(it as int));
    }
    let (in_block, in_fu) = match tree.nodes[it].parent {
        Option::Some(p) => (
            tree.nodes[p].kind == SyntaxKind::ExprStmt || tree.nodes[p].kind
                == SyntaxKind::StmtList,
            tree.nodes[p].kind == SyntaxKind::RecordExprFieldList,
        ),
        Option::None => (false, false),
    };
    PathKind::Expr {
        in_block_expr: in_block,
        in_loop_body: is_in_loop_body(tree, it),
        in_functional_update: in_fu,
    }
}

/// Whether the last character of `s` is a bare dot.
pub open spec fn spec_ends_with_dot(s: Seq<char>) -> bool {
    s.len() > 0 && s[s.len() - 1] == '.'
}

fn ends_with_dot(s: &String) -> (r: bool)
    ensures
        r == spec_ends_with_dot(s@),
{
    let n = s.as_str().unicode_len();
    if n == 0 {
        false
    } else {
        let c = s.as_str().get_char(n - 1);
        c == '.'
    }
}

/// Whether the re-located receiver is an integer literal whose text still
/// ends in a bare dot: syntactically ambiguous with a float literal.
pub open spec fn spec_receiver_is_ambiguous_float(orig: SynTree, receiver: Option<usize>) -> bool {
    match receiver {
        Option::Some(r) => {
            0 <= r < orig.nodes.len() && orig.nodes[r as int].kind == SyntaxKind::Literal && match
                orig.spec_last_token_in(orig.nodes[r as int].range) {
                Option::Some(t) => orig.nodes[t as int].kind == SyntaxKind::FloatNumber
                    && spec_ends_with_dot(orig.nodes[t as int].text@),
                Option::None => false,
            }
        },
        Option::None => false,
    }
}

fn receiver_is_ambiguous_float(orig: &SynTree, receiver: Option<usize>) -> (res: bool)
    requires
        orig.wf(),
        receiver is Some ==> receiver->0 < orig.nodes.len(),
    ensures
        res == spec_receiver_is_ambiguous_float(*orig, receiver),
{
    match receiver {
        Option::Some(r) => {
            if !(orig.nodes[r].kind == SyntaxKind::Literal) {
                return false;
            }
            match orig.last_token_in(&orig.nodes[r].range) {
                Option::Some(t) => orig.nodes[t].kind == SyntaxKind::FloatNumber && ends_with_dot(
                    &orig.nodes[t].text,
                ),
                Option::None => false,
            }
        },
        Option::None => false,
    }
}

/// The receiver of a dot access: the expression child of the access node
/// in the speculative tree, re-located in the original tree.
pub open spec fn spec_relocated_receiver(orig: SynTree, sp: SynTree, access: int) -> Option<
    usize,
> {
    match sp.spec_child_in_class(access, KindClass::Expr) {
        Option::Some(e) => spec_find_node_in_file(orig, sp.nodes[e as int].range, KindClass::Expr),
        Option::None => Option::None,
    }
}

fn relocated_receiver(orig: &SynTree, sp: &SynTree, access: usize) -> (res: Option<usize>)
    requires
        orig.wf(),
        sp.wf(),
        access < sp.nodes.len(),
    ensures
        res == spec_relocated_receiver(*orig, *sp, access as int),
        res is Some ==> res->0 < orig.nodes.len(),
{
    match sp.child_in_class(access, KindClass::Expr) {
        Option::Some(e) => find_node_in_file(orig, &sp.nodes[e].range, KindClass::Expr),
        Option::None => None,
    }
}

/// The resolved qualifier context of the completed path, built from the
/// qualifier's segment re-located in the original tree.
pub open spec fn spec_qualifier_ctx(
    sema: Semantics,
    orig: SynTree,
    sp: SynTree,
    orig_id: int,
    qual: int,
    use_tree_parent: bool,
) -> Option<PathQualifierCtx> {
    match sp.spec_child_of_kind(qual, SyntaxKind::PathSegment) {
        Option::None => Option::None,
        Option::Some(qseg) => {
            match spec_find_node_in_file(
                orig,
                sp.nodes[qseg as int].range,
                KindClass::PathSegment,
            ) {
                Option::None => Option::None,
                Option::Some(oseg) => {
                    let opath = orig.parent_of(oseg as int);
                    if opath >= 0 && orig.nodes[opath].kind == SyntaxKind::Path {
                        Option::Some(
                            PathQualifierCtx {
                                path: opath as usize,
                                resolution: spec_node_key_from(
                                    sema.path_resolutions@,
                                    orig_id,
                                    opath,
                                    0,
                                ),
                                is_super_chain: spec_is_super_chain(orig, opath),
                                use_tree_parent,
                                is_infer_qualifier: spec_is_infer_qualifier(orig, opath),
                            },
                        )
                    } else {
                        Option::None
                    }
                },
            }
        },
    }
}

fn qualifier_ctx(
    sema: &Semantics,
    orig: &SynTree,
    sp: &SynTree,
    orig_id: usize,
    qual: usize,
    use_tree_parent: bool,
) -> (res: Option<PathQualifierCtx>)
    requires
        orig.wf(),
        sp.wf(),
        qual < sp.nodes.len(),
    ensures
        res == spec_qualifier_ctx(*sema, *orig, *sp, orig_id as int, qual as int, use_tree_parent),
{
    let qseg = match sp.child_of_kind(qual, SyntaxKind::PathSegment) {
        Option::Some(s) => s,
        Option::None => {
            return None;
        },
    };
    let oseg = match find_node_in_file(orig, &sp.nodes[qseg].range, KindClass::PathSegment) {
        Option::Some(s) => s,
        Option::None => {
            return None;
        },
    };
    proof {
        assert(orig.wf_node(oseg as int));
    }
    let opath = match orig.nodes[oseg].parent {
        Option::Some(p) => p,
        Option::None => {
            return None;
        },
    };
    if !(orig.nodes[opath].kind == SyntaxKind::Path) {
        return None;
    }
    let resolution = node_key_get(&sema.path_resolutions, orig_id, opath);
    Some(
        PathQualifierCtx {
            path: opath,
            resolution,
            is_super_chain: is_super_chain(orig, opath),
            use_tree_parent,
            is_infer_qualifier: is_infer_qualifier(orig, opath),
        },
    )
}

/// Whether a path's segment carries a leading path separator.
pub open spec fn spec_segment_has_leading_sep(tree: SynTree, path: int) -> bool {
    match tree.spec_child_of_kind(path, SyntaxKind::PathSegment) {
        Option::Some(s) => tree.spec_child_of_kind(s as int, SyntaxKind::ColonColon) is Some,
        Option::None => false,
    }
}

fn segment_has_leading_sep(tree: &SynTree, path: usize) -> (res: bool)
    requires
        path < tree.nodes.len(),
    ensures
        res == spec_segment_has_leading_sep(*tree, path as int),
{
    match tree.child_of_kind(path, SyntaxKind::PathSegment) {
        Option::Some(s) => tree.child_of_kind(s, SyntaxKind::ColonColon).is_some(),
        Option::None => false,
    }
}

/// The name-reference classification at the placeholder. Dot accesses are
/// classified as field or method accesses with their receiver re-located
/// in the original tree; path segments walk the path's ancestors for their
/// syntactic slot, then resolve the qualifier. An unmatched ancestor leaves
/// the reference unslotted rather than failing.
pub open spec fn spec_classify_name_ref(
    sema: Semantics,
    orig_id: int,
    spec_id: int,
    name_ref: int,
    parent: int,
    marker_len: int,
) -> (NameRefContext, Option<PatternContext>) {
    let orig = sema.trees[orig_id];
    let sp = sema.trees[spec_id];
    let nameref = orig.spec_find_node_at_offset(
        sp.nodes[name_ref].range.start as int,
        KindClass::NameRefOnly,
    );
    let k = sp.nodes[parent].kind;
    if k == SyntaxKind::FieldExpr {
        let receiver = spec_relocated_receiver(orig, sp, parent);
        (
            NameRefContext {
                nameref,
                dot_access: Option::Some(
                    DotAccess::Field {
                        receiver,
                        receiver_is_ambiguous_float_literal: spec_receiver_is_ambiguous_float(
                            orig,
                            receiver,
                        ),
                    },
                ),
                path_ctx: Option::None,
            },
            Option::None,
        )
    } else if k == SyntaxKind::MethodCallExpr {
        let receiver = spec_relocated_receiver(orig, sp, parent);
        let has_parens = match sp.spec_child_of_kind(parent, SyntaxKind::ArgList) {
            Option::Some(al) => sp.spec_child_of_kind(al as int, SyntaxKind::LParen) is Some,
            Option::None => false,
        };
        (
            NameRefContext {
                nameref,
                dot_access: Option::Some(DotAccess::Method { receiver, has_parens }),
                path_ctx: Option::None,
            },
            Option::None,
        )
    } else if k == SyntaxKind::PathSegment {
        let path = sp.parent_of(parent);
        if !(path >= 0 && sp.nodes[path].kind == SyntaxKind::Path) {
            (NameRefContext { nameref, dot_access: Option::None, path_ctx: Option::None },
            Option::None)
        } else {
            match spec_slot_search(sp, path) {
                SlotSearch::Found { kind, has_call_parens, has_macro_bang, pat_node } => {
                    let pat_ctx = match pat_node {
                        Option::Some(n) => Option::Some(
                            spec_pattern_context_for(orig, sp, n as int, marker_len),
                        ),
                        Option::None => Option::None,
                    };
                    let has_type_args = sp.spec_child_of_kind(
                        parent,
                        SyntaxKind::GenericArgList,
                    ) is Some;
                    let parent_path = {
                        let pp = sp.parent_of(path);
                        if pp >= 0 && sp.nodes[pp].kind == SyntaxKind::Path {
                            Option::Some(pp as usize)
                        } else {
                            Option::None
                        }
                    };
                    let (is_absolute_path, qualifier) = match spec_path_or_use_tree_qualifier(
                        sp,
                        path,
                    ) {
                        Option::Some((qual, use_tree_parent)) => {
                            let abs = if !use_tree_parent && 0 <= qual < sp.nodes.len() {
                                spec_segment_has_leading_sep(sp, spec_top_path(sp, qual as int))
                            } else {
                                false
                            };
                            (
                                abs,
                                spec_qualifier_ctx(
                                    sema,
                                    orig,
                                    sp,
                                    orig_id,
                                    qual as int,
                                    use_tree_parent,
                                ),
                            )
                        },
                        Option::None => (
                            spec_segment_has_leading_sep(sp, path),
                            Option::None::<PathQualifierCtx>,
                        ),
                    };
                    (
                        NameRefContext {
                            nameref,
                            dot_access: Option::None,
                            path_ctx: Option::Some(
                                PathCompletionCtx {
                                    has_call_parens,
                                    has_macro_bang,
                                    is_absolute_path,
                                    qualifier,
                                    parent_path,
                                    kind,
                                    has_type_args,
                                },
                            ),
                        },
                        pat_ctx,
                    )
                },
                _ => (
                    NameRefContext { nameref, dot_access: Option::None, path_ctx: Option::None },
                    Option::None,
                ),
            }
        }
    } else {
        (NameRefContext { nameref, dot_access: Option::None, path_ctx: Option::None },
        Option::None)
    }
}

pub fn classify_name_ref(
    sema: &Semantics,
    orig_id: usize,
    spec_id: usize,
    name_ref: usize,
    parent: usize,
    marker_len: usize,
) -> (res: (NameRefContext, Option<PatternContext>))
    requires
        sema.spec_tree_ok(orig_id as int),
        sema.spec_tree_ok(spec_id as int),
        name_ref < sema.trees[spec_id as int].nodes.len(),
        parent < sema.trees[spec_id as int].nodes.len(),
    ensures
        res == spec_classify_name_ref(
            *sema,
            orig_id as int,
            spec_id as int,
            name_ref as int,
            parent as int,
            marker_len as int,
        ),
{
    let orig = &sema.trees[orig_id];
    let sp = &sema.trees[spec_id];
    let nameref = orig.find_node_at_offset(sp.nodes[name_ref].range.start, KindClass::NameRefOnly);
    let k = sp.nodes[parent].kind;
    if k == SyntaxKind::FieldExpr {
        let receiver = relocated_receiver(orig, sp, parent);
        let ambiguous = receiver_is_ambiguous_float(orig, receiver);
        (
            NameRefContext {
                nameref,
                dot_access: Some(
                    DotAccess::Field { receiver, receiver_is_ambiguous_float_literal: ambiguous },
                ),
                path_ctx: None,
            },
            None,
        )
    } else if k == SyntaxKind::MethodCallExpr {
        let receiver = relocated_receiver(orig, sp, parent);
        let has_parens = match sp.child_of_kind(parent, SyntaxKind::ArgList) {
            Option::Some(al) => sp.child_of_kind(al, SyntaxKind::LParen).is_some(),
            Option::None => false,
        };
        (
            NameRefContext {
                nameref,
                dot_access: Some(DotAccess::Method { receiver, has_parens }),
                path_ctx: None,
            },
            None,
        )
    } else if k == SyntaxKind::PathSegment {
        proof {
            assert(sp.wf_node(parent as int));
        }
        let path = match sp.nodes[parent].parent {
            Option::Some(p) => p,
            Option::None => {
                return (NameRefContext { nameref, dot_access: None, path_ctx: None }, None);
            },
        };
        if !(sp.nodes[path].kind == SyntaxKind::Path) {
            return (NameRefContext { nameref, dot_access: None, path_ctx: None }, None);
        }
        match slot_search(sp, path) {
            SlotSearch::Found { kind, has_call_parens, has_macro_bang, pat_node } => {
                let pat_ctx = match pat_node {
                    Option::Some(n) => Some(pattern_context_for(orig, sp, n, marker_len)),
                    Option::None => None,
                };
                let has_type_args = sp.child_of_kind(parent, SyntaxKind::GenericArgList).is_some();
                let parent_path = match sp.nodes[path].parent {
                    Option::Some(pp) => {
                        if sp.nodes[pp].kind == SyntaxKind::Path {
                            Some(pp)
                        } else {
                            None
                        }
                    },
                    Option::None => None,
                };
                proof {
                    assert(sp.wf_node(path as int));
                }
                let (is_absolute_path, qualifier) = match path_or_use_tree_qualifier(sp, path) {
                    Option::Some((qual, use_tree_parent)) => {
                        let abs = if !use_tree_parent {
                            let top = top_path(sp, qual);
                            segment_has_leading_sep(sp, top)
                        } else {
                            false
                        };
                        (abs, qualifier_ctx(sema, orig, sp, orig_id, qual, use_tree_parent))
                    },
                    Option::None => (segment_has_leading_sep(sp, path), None),
                };
                (
                    NameRefContext {
                        nameref,
                        dot_access: None,
                        path_ctx: Some(
                            PathCompletionCtx {
                                has_call_parens,
                                has_macro_bang,
                                is_absolute_path,
                                qualifier,
                                parent_path,
                                kind,
                                has_type_args,
                            },
                        ),
                    },
                    pat_ctx,
                )
            },
            _ => (NameRefContext { nameref, dot_access: None, path_ctx: None }, None),
        }
    } else {
        (NameRefContext { nameref, dot_access: None, path_ctx: None }, None)
    }
}

fn assoc_owner_kind(tree: &SynTree, al: usize) -> (res: Option<ItemListKind>)
    requires
        tree.wf(),
        al < tree.nodes.len(),
    ensures
        res == spec_assoc_owner_kind(*tree, al as int),
{
    proof {
        assert(tree.wf_node(al as int));
    }
    match tree.nodes[al].parent {
        Option::Some(p) => {
            if tree.nodes[p].kind == SyntaxKind::Trait {
                Some(ItemListKind::Trait)
            } else if tree.nodes[p].kind == SyntaxKind::Impl {
                Some(ItemListKind::Impl)
            } else {
                None
            }
        },
        Option::None => None,
    }
}

} // verus!
