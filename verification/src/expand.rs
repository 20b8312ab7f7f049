//! The dual-tree expansion walker.
//!
//! Attribute macros, derive-style pseudo-macros and function-like macro
//! calls are expanded in lock-step across the original and speculative
//! trees, remapping the cursor offset at each step. The walk stops at the
//! first point where the two trees disagree about which macro fired, where
//! the remapped offset leaves the original expansion, or where nothing
//! changes; stopping is a recoverable condition and classification proceeds
//! on the last mutually consistent pair.

use vstd::prelude::*;

use crate::kind::{KindClass, SyntaxKind};
use crate::sema::{
    spec_node_key_from, spec_spec_exp_from, node_key_get, spec_exp_get, NodeLoc, Semantics,
};
use crate::tree::SynTree;

verus! {

/// The walker's state: the current tree pair, the cursor offset, and the
/// placeholder token in the speculative tree.
#[derive(Clone, Copy, Debug, PartialEq, Eq, Structural)]
pub struct WalkState {
    pub orig: usize,
    pub spec_tree: usize,
    pub offset: usize,
    pub fake_tok: usize,
}

impl WalkState {
    /// Validity of a walker state against the model: both trees exist and
    /// are well-formed, and the placeholder token lies in the speculative
    /// tree.
    pub open spec fn ok(self, sema: Semantics) -> bool {
        &&& sema.spec_tree_ok(self.orig as int)
        &&& sema.spec_tree_ok(self.spec_tree as int)
        &&& (self.fake_tok as int) < sema.trees[self.spec_tree as int].nodes.len()
    }
}

/// The derive context recorded when the cursor sits inside a derive-style
/// annotation: both pseudo-expansions, the mapped offset, and the
/// originating annotation.
#[derive(Clone, Copy, Debug, PartialEq, Eq, Structural)]
pub struct DeriveCtx {
    pub orig_exp: usize,
    pub spec_exp: usize,
    pub offset: usize,
    pub origin_attr: NodeLoc,
}

/// The outcome of the attribute phase of one walker iteration.
#[derive(Clone, Copy, Debug, PartialEq, Eq, Structural)]
pub enum AttrPhase {
    /// No attribute expanded anywhere up the ancestor chain.
    NoChange,
    /// Inconsistent or out-of-range expansion: the walk stops here.
    Stop,
    /// Both sides expanded; the new state is adopted.
    Adopt(WalkState),
}

/// Whether an adopted state is a valid strict successor of `st`: the
/// original-side tree moved strictly forward in the model's arena, and the
/// new state is valid.
pub open spec fn spec_adopt_ok(sema: Semantics, st: WalkState, st2: WalkState) -> bool {
    &&& st.orig < st2.orig
    &&& st2.ok(sema)
}

/// One attempted lock-step expansion: the real expansion of the original
/// item and the speculative expansion threading the placeholder. `Stop`
/// when exactly one side expands, when the model's answer is unusable, or
/// when the mapped offset exceeds the end of the original expansion.
pub open spec fn spec_try_adopt(
    sema: Semantics,
    st: WalkState,
    real_out: Option<usize>,
    spec_out: Option<NodeLoc>,
) -> AttrPhase {
    match (real_out, spec_out) {
        (Option::None, Option::None) => AttrPhase::NoChange,
        (Option::Some(out_t), Option::Some(out)) => {
            if !(st.orig < out_t && sema.spec_tree_ok(out_t as int) && sema.spec_tree_ok(
                out.tree as int,
            ) && (out.node as int) < sema.trees[out.tree as int].nodes.len()) {
                AttrPhase::Stop
            } else {
                let new_offset = sema.trees[out.tree as int].nodes[out.node as int].range.start;
                if new_offset > sema.trees[out_t as int].nodes[0].range.end {
                    // The placeholder mapped beyond the original expansion:
                    // the walk stops to keep the pair consistent.
                    AttrPhase::Stop
                } else {
                    AttrPhase::Adopt(
                        WalkState {
                            orig: out_t,
                            spec_tree: out.tree,
                            offset: new_offset,
                            fake_tok: out.node,
                        },
                    )
                }
            }
        },
        _ => AttrPhase::Stop,
    }
}

/// The attribute scan over one synchronized ancestor-item pair, walking
/// outward one item parent at a time while neither side expands.
pub open spec fn spec_attr_scan(sema: Semantics, st: WalkState, a: int, b: int) -> AttrPhase
    decreases a + 1,
    when st.ok(sema) && 0 <= a < sema.trees[st.orig as int].nodes.len() && 0 <= b < sema.trees[
        st.spec_tree as int
    ].nodes.len()
{
    let real_out = spec_node_key_from(sema.attr_expansions@, st.orig as int, a, 0);
    let spec_out = spec_spec_exp_from(
        sema.spec_attr_expansions@,
        st.orig as int,
        a,
        st.spec_tree as int,
        b,
        st.fake_tok as int,
        0,
    );
    match (real_out, spec_out) {
        (Option::None, Option::None) => {
            // Maybe an enclosing item carries the attribute: continue with
            // the parent items.
            let ot = sema.trees[st.orig as int];
            let sp = sema.trees[st.spec_tree as int];
            let pa = ot.spec_find_ancestor(ot.parent_of(a), KindClass::Item);
            let pb = sp.spec_find_ancestor(sp.parent_of(b), KindClass::Item);
            match (pa, pb) {
                (Option::Some(na), Option::Some(nb)) => {
                    if 0 <= na < a && 0 <= nb < sp.nodes.len() {
                        spec_attr_scan(sema, st, na as int, nb as int)
                    } else {
                        AttrPhase::NoChange
                    }
                },
                _ => AttrPhase::NoChange,
            }
        },
        _ => spec_try_adopt(sema, st, real_out, spec_out),
    }
}

/// The attribute phase: start from the nearest enclosing items at the
/// offset in both trees.
pub open spec fn spec_attr_phase(sema: Semantics, st: WalkState) -> AttrPhase {
    let ot = sema.trees[st.orig as int];
    let sp = sema.trees[st.spec_tree as int];
    match (
        ot.spec_find_node_at_offset(st.offset as int, KindClass::Item),
        sp.spec_find_node_at_offset(st.offset as int, KindClass::Item),
    ) {
        (Option::Some(a), Option::Some(b)) => {
            if 0 <= a < ot.nodes.len() && 0 <= b < sp.nodes.len() {
                spec_attr_scan(sema, st, a as int, b as int)
            } else {
                AttrPhase::NoChange
            }
        },
        _ => AttrPhase::NoChange,
    }
}

/// The annotation enclosing a macro-argument token tree, when the token
/// tree sits directly under a meta node of an attribute.
pub open spec fn spec_tt_attr(tree: SynTree, tt: int) -> Option<usize> {
    let m = tree.parent_of(tt);
    if m >= 0 && tree.nodes[m].kind == SyntaxKind::Meta {
        let a = tree.parent_of(m);
        if a >= 0 && tree.nodes[a].kind == SyntaxKind::Attr {
            Option::Some(a as usize)
        } else {
            Option::None
        }
    } else {
        Option::None
    }
}

fn tt_attr(tree: &SynTree, tt: usize) -> (res: Option<usize>)
    requires
        tree.wf(),
        tt < tree.nodes.len(),
    ensures
        res == spec_tt_attr(*tree, tt as int),
        res is Some ==> res->0 < tree.nodes.len(),
{
    proof {
        assert(tree.wf_node(tt as int));
    }
    match tree.nodes[tt].parent {
        Option::Some(m) => {
            if tree.nodes[m].kind == SyntaxKind::Meta {
                proof {
                    assert(tree.wf_node(m as int));
                }
                match tree.nodes[m].parent {
                    Option::Some(a) => {
                        if tree.nodes[a].kind == SyntaxKind::Attr {
                            Some(a)
                        } else {
                            None
                        }
                    },
                    Option::None => None,
                }
            } else {
                None
            }
        },
        Option::None => None,
    }
}

/// Whether the invocation paths of the two macro calls carry the same
/// token texts.
pub open spec fn spec_macro_paths_agree(ot: SynTree, sp: SynTree, oc: int, sc: int) -> bool {
    match (
        ot.spec_child_of_kind(oc, SyntaxKind::Path),
        sp.spec_child_of_kind(sc, SyntaxKind::Path),
    ) {
        (Option::None, Option::None) => true,
        (Option::Some(op), Option::Some(sps)) => {
            if 0 <= op < ot.nodes.len() && 0 <= sps < sp.nodes.len() {
                ot.spec_token_texts_in(ot.nodes[op as int].range) == sp.spec_token_texts_in(
                    sp.nodes[sps as int].range,
                )
            } else {
                false
            }
        },
        _ => false,
    }
}

/// Whether two token-text sequences are equal.
fn texts_eq(a: &Vec<String>, b: &Vec<String>) -> (r: bool)
    ensures
        r == (a@.map_values(|s: String| s@) == b@.map_values(|s: String| s@)),
{
    let av = Ghost(a@.map_values(|s: String| s@));
    let bv = Ghost(b@.map_values(|s: String| s@));
    if a.len() != b.len() {
        proof {
            assert(av@.len() != bv@.len());
        }
        return false;
    }
    let mut i: usize = 0;
    while i < a.len()
        invariant
            a@.len() == b@.len(),
            i <= a.len(),
            av@ == a@.map_values(|s: String| s@),
            bv@ == b@.map_values(|s: String| s@),
            forall|k: int| 0 <= k < i ==> av@[k] == bv@[k],
        decreases a.len() - i,
    {
        if !a[i].eq(&b[i]) {
            proof {
                assert(av@[i as int] != bv@[i as int]);
            }
            return false;
        }
        i = i + 1;
    }
    proof {
        assert(av@ =~= bv@);
    }
    true
}

fn macro_paths_agree(ot: &SynTree, sp: &SynTree, oc: usize, sc: usize) -> (r: bool)
    requires
        ot.wf(),
        sp.wf(),
        oc < ot.nodes.len(),
        sc < sp.nodes.len(),
    ensures
        r == spec_macro_paths_agree(*ot, *sp, oc as int, sc as int),
{
    match (ot.child_of_kind(oc, SyntaxKind::Path), sp.child_of_kind(sc, SyntaxKind::Path)) {
        (Option::None, Option::None) => true,
        (Option::Some(op), Option::Some(sps)) => {
            let ta = ot.token_texts_in(&ot.nodes[op].range);
            let tb = sp.token_texts_in(&sp.nodes[sps].range);
            texts_eq(&ta, &tb)
        },
        _ => false,
    }
}

/// The walk itself. Each iteration first tries attribute expansion up the
/// ancestor-item chain, then looks for a macro-argument token tree: a
/// derive-style annotation records the derive context and always ends the
/// walk; a function-like call is expanded when its path text agrees across
/// the pair. The walk ends the first iteration nothing changes, and the
/// result is the last consistent state.
pub open spec fn spec_expand_loop(sema: Semantics, st: WalkState) -> (WalkState, Option<
    DeriveCtx,
>)
    decreases sema.trees.len() - st.orig, 1int,
    when st.ok(sema)
{
    match spec_attr_phase(sema, st) {
        AttrPhase::Stop => (st, Option::None),
        AttrPhase::Adopt(st2) => {
            if spec_adopt_ok(sema, st, st2) && st2.orig < sema.trees.len() {
                spec_expand_loop(sema, st2)
            } else {
                (st, Option::None)
            }
        },
        AttrPhase::NoChange => {
            let ot = sema.trees[st.orig as int];
            let sp = sema.trees[st.spec_tree as int];
            match (
                ot.spec_find_node_at_offset(st.offset as int, KindClass::TokenTree),
                sp.spec_find_node_at_offset(st.offset as int, KindClass::TokenTree),
            ) {
                (Option::Some(ott), Option::Some(stt)) => {
                    if !(0 <= ott < ot.nodes.len() && 0 <= stt < sp.nodes.len()) {
                        (st, Option::None)
                    } else {
                        match (
                            spec_tt_attr(ot, ott as int),
                            spec_tt_attr(sp, stt as int),
                        ) {
                            (Option::Some(oattr), Option::Some(sattr)) => {
                                // A derive-style annotation: always the last
                                // applicable step.
                                (st, spec_derive_ctx(sema, st, oattr as int, sattr as int))
                            },
                            _ => spec_macro_step(sema, st, ott as int, stt as int),
                        }
                    }
                },
                _ => (st, Option::None),
            }
        },
    }
}

/// The derive pseudo-expansion of the annotation pair, as a derive
/// context; `None` when either side fails to expand.
pub open spec fn spec_derive_ctx(sema: Semantics, st: WalkState, oattr: int, sattr: int) -> Option<
    DeriveCtx,
> {
    let real_out = spec_node_key_from(sema.derive_expansions@, st.orig as int, oattr, 0);
    let spec_out = spec_spec_exp_from(
        sema.spec_derive_expansions@,
        st.orig as int,
        oattr,
        st.spec_tree as int,
        sattr,
        st.fake_tok as int,
        0,
    );
    match (real_out, spec_out) {
        (Option::Some(out_t), Option::Some(out)) => {
            if sema.spec_tree_ok(out_t as int) && sema.spec_tree_ok(out.tree as int) && (
            out.node as int) < sema.trees[out.tree as int].nodes.len() {
                Option::Some(
                    DeriveCtx {
                        orig_exp: out_t,
                        spec_exp: out.tree,
                        offset: sema.trees[out.tree as int].nodes[out.node as int].range.start,
                        origin_attr: NodeLoc { tree: st.orig, node: oattr as usize },
                    },
                )
            } else {
                Option::None
            }
        },
        _ => Option::None,
    }
}

/// The function-like macro step: stop on diverging invocation paths,
/// otherwise expand both sides and continue on success.
pub open spec fn spec_macro_step(sema: Semantics, st: WalkState, ott: int, stt: int) -> (
    WalkState,
    Option<DeriveCtx>,
)
    decreases sema.trees.len() - st.orig, 0int,
    when st.ok(sema) && 0 <= ott < sema.trees[st.orig as int].nodes.len() && 0 <= stt
        < sema.trees[st.spec_tree as int].nodes.len()
{
    let ot = sema.trees[st.orig as int];
    let sp = sema.trees[st.spec_tree as int];
    match (
        ot.spec_find_ancestor(ott, KindClass::MacroCall),
        sp.spec_find_ancestor(stt, KindClass::MacroCall),
    ) {
        (Option::Some(oc), Option::Some(sc)) => {
            if !(0 <= oc < ot.nodes.len() && 0 <= sc < sp.nodes.len()) {
                (st, Option::None)
            } else if !spec_macro_paths_agree(ot, sp, oc as int, sc as int) {
                // The two trees disagree about which macro is invoked:
                // stop, keeping the pre-expansion pair.
                (st, Option::None)
            } else {
                match sp.spec_child_of_kind(sc as int, SyntaxKind::TokenTree) {
                    Option::None => (st, Option::None),
                    Option::Some(args) => {
                        let real_out = spec_node_key_from(
                            sema.macro_expansions@,
                            st.orig as int,
                            oc as int,
                            0,
                        );
                        let spec_out = spec_spec_exp_from(
                            sema.spec_macro_expansions@,
                            st.orig as int,
                            oc as int,
                            st.spec_tree as int,
                            args as int,
                            st.fake_tok as int,
                            0,
                        );
                        match spec_try_adopt(sema, st, real_out, spec_out) {
                            AttrPhase::Adopt(st2) => {
                                if spec_adopt_ok(sema, st, st2) && st2.orig < sema.trees.len() {
                                    spec_expand_loop(sema, st2)
                                } else {
                                    (st, Option::None)
                                }
                            },
                            _ => (st, Option::None),
                        }
                    },
                }
            }
        },
        _ => (st, Option::None),
    }
}

/// Out-of-range guard: when both sides expand but the remapped placeholder
/// offset exceeds the end of the original expansion, the step adopts
/// nothing and the walk stops.
pub proof fn lemma_out_of_range_guard(
    sema: Semantics,
    st: WalkState,
    out_t: usize,
    out: NodeLoc,
)
    requires
        st.orig < out_t,
        sema.spec_tree_ok(out_t as int),
        sema.spec_tree_ok(out.tree as int),
        (out.node as int) < sema.trees[out.tree as int].nodes.len(),
        sema.trees[out.tree as int].nodes[out.node as int].range.start > sema.trees[
            out_t as int
        ].nodes[0].range.end,
    ensures
        spec_try_adopt(sema, st, Option::Some(out_t), Option::Some(out)) == AttrPhase::Stop,
{
}

/// A stopped walk keeps the previously established trees and offset, and
/// records no derive context.
pub proof fn lemma_stop_keeps_pair(sema: Semantics, st: WalkState)
    requires
        st.ok(sema),
        spec_attr_phase(sema, st) == AttrPhase::Stop,
    ensures
        spec_expand_loop(sema, st) == (st, Option::None::<DeriveCtx>),
{
}

/// Divergence guard: when the function-like macro invocation found at the
/// cursor carries different path texts in the original and speculative
/// trees, no expansion occurs at that step and the walk ends with the
/// previously established trees and offset.
pub proof fn lemma_divergence_guard(
    sema: Semantics,
    st: WalkState,
    ott: usize,
    stt: usize,
    oc: usize,
    sc: usize,
)
    requires
        st.ok(sema),
        spec_attr_phase(sema, st) == AttrPhase::NoChange,
        sema.trees[st.orig as int].spec_find_node_at_offset(st.offset as int, KindClass::TokenTree)
            == Option::Some(ott),
        sema.trees[st.spec_tree as int].spec_find_node_at_offset(
            st.offset as int,
            KindClass::TokenTree,
        ) == Option::Some(stt),
        (ott as int) < sema.trees[st.orig as int].nodes.len(),
        (stt as int) < sema.trees[st.spec_tree as int].nodes.len(),
        !(spec_tt_attr(sema.trees[st.orig as int], ott as int) is Some && spec_tt_attr(
            sema.trees[st.spec_tree as int],
            stt as int,
        ) is Some),
        sema.trees[st.orig as int].spec_find_ancestor(ott as int, KindClass::MacroCall)
            == Option::Some(oc),
        sema.trees[st.spec_tree as int].spec_find_ancestor(stt as int, KindClass::MacroCall)
            == Option::Some(sc),
        (oc as int) < sema.trees[st.orig as int].nodes.len(),
        (sc as int) < sema.trees[st.spec_tree as int].nodes.len(),
        !spec_macro_paths_agree(
            sema.trees[st.orig as int],
            sema.trees[st.spec_tree as int],
            oc as int,
            sc as int,
        ),
    ensures
        spec_expand_loop(sema, st) == (st, Option::None::<DeriveCtx>),
{
    assert(spec_macro_step(sema, st, ott as int, stt as int) == (st, Option::None::<DeriveCtx>));
}

fn try_adopt(sema: &Semantics, st: WalkState, real_out: Option<usize>, spec_out: Option<NodeLoc>)
    -> (res: AttrPhase)
    ensures
        res == spec_try_adopt(*sema, st, real_out, spec_out),
        res matches AttrPhase::Adopt(st2) ==> spec_adopt_ok(*sema, st, st2) && st2.orig
            < sema.trees.len(),
{
    match (real_out, spec_out) {
        (Option::None, Option::None) => AttrPhase::NoChange,
        (Option::Some(out_t), Option::Some(out)) => {
            let real_ok = st.orig < out_t && sema.tree_checked(out_t).is_some();
            let spec_ok = match sema.tree_checked(out.tree) {
                Option::Some(tr) => out.node < tr.nodes.len(),
                Option::None => false,
            };
            if !(real_ok && spec_ok) {
                return AttrPhase::Stop;
            }
            let new_offset = sema.trees[out.tree].nodes[out.node].range.start;
            if new_offset > sema.trees[out_t].nodes[0].range.end {
                AttrPhase::Stop
            } else {
                AttrPhase::Adopt(
                    WalkState {
                        orig: out_t,
                        spec_tree: out.tree,
                        offset: new_offset,
                        fake_tok: out.node,
                    },
                )
            }
        },
        _ => AttrPhase::Stop,
    }
}

fn attr_scan(sema: &Semantics, st: WalkState, a: usize, b: usize) -> (res: AttrPhase)
    requires
        st.ok(*sema),
        a < sema.trees[st.orig as int].nodes.len(),
        b < sema.trees[st.spec_tree as int].nodes.len(),
    ensures
        res == spec_attr_scan(*sema, st, a as int, b as int),
        res matches AttrPhase::Adopt(st2) ==> spec_adopt_ok(*sema, st, st2) && st2.orig
            < sema.trees.len(),
    decreases a,
{
    let real_out = node_key_get(&sema.attr_expansions, st.orig, a);
    let spec_out = spec_exp_get(
        &sema.spec_attr_expansions,
        st.orig,
        a,
        st.spec_tree,
        b,
        st.fake_tok,
    );
    match (real_out, spec_out) {
        (Option::None, Option::None) => {
            let ot = &sema.trees[st.orig];
            let sp = &sema.trees[st.spec_tree];
            proof {
                assert(ot.wf_node(a as int));
                assert(sp.wf_node(b as int));
            }
            let pa = match ot.nodes[a].parent {
                Option::Some(p) => ot.find_ancestor(p, KindClass::Item),
                Option::None => None,
            };
            let pb = match sp.nodes[b].parent {
                Option::Some(p) => sp.find_ancestor(p, KindClass::Item),
                Option::None => None,
            };
            match (pa, pb) {
                (Option::Some(na), Option::Some(nb)) => {
                    proof {
                        assert(ot.spec_find_ancestor(ot.parent_of(a as int), KindClass::Item)
                            is Some);
                        ot.lemma_find_ancestor_le(ot.parent_of(a as int), KindClass::Item);
                        assert(na < a);
                    }
                    attr_scan(sema, st, na, nb)
                },
                _ => AttrPhase::NoChange,
            }
        },
        _ => try_adopt(sema, st, real_out, spec_out),
    }
}

fn attr_phase(sema: &Semantics, st: WalkState) -> (res: AttrPhase)
    requires
        st.ok(*sema),
    ensures
        res == spec_attr_phase(*sema, st),
        res matches AttrPhase::Adopt(st2) ==> spec_adopt_ok(*sema, st, st2) && st2.orig
            < sema.trees.len(),
{
    let ot = &sema.trees[st.orig];
    let sp = &sema.trees[st.spec_tree];
    let fa = ot.find_node_at_offset(st.offset, KindClass::Item);
    let fb = sp.find_node_at_offset(st.offset, KindClass::Item);
    match (fa, fb) {
        (Option::Some(a), Option::Some(b)) => attr_scan(sema, st, a, b),
        _ => AttrPhase::NoChange,
    }
}

fn derive_ctx_for(sema: &Semantics, st: WalkState, oattr: usize, sattr: usize) -> (res: Option<
    DeriveCtx,
>)
    ensures
        res == spec_derive_ctx(*sema, st, oattr as int, sattr as int),
{
    let real_out = node_key_get(&sema.derive_expansions, st.orig, oattr);
    let spec_out = spec_exp_get(
        &sema.spec_derive_expansions,
        st.orig,
        oattr,
        st.spec_tree,
        sattr,
        st.fake_tok,
    );
    match (real_out, spec_out) {
        (Option::Some(out_t), Option::Some(out)) => {
            let real_ok = sema.tree_checked(out_t).is_some();
            let spec_ok = match sema.tree_checked(out.tree) {
                Option::Some(tr) => out.node < tr.nodes.len(),
                Option::None => false,
            };
            if real_ok && spec_ok {
                Some(
                    DeriveCtx {
                        orig_exp: out_t,
                        spec_exp: out.tree,
                        offset: sema.trees[out.tree].nodes[out.node].range.start,
                        origin_attr: NodeLoc { tree: st.orig, node: oattr },
                    },
                )
            } else {
                None
            }
        },
        _ => None,
    }
}

/// The expansion walk: repeated lock-step expansion from the initial
/// state, ending in the last mutually consistent state and the derive
/// context when one was recorded.
pub fn expand_loop(sema: &Semantics, st: WalkState) -> (res: (WalkState, Option<DeriveCtx>))
    requires
        st.ok(*sema),
    ensures
        res == spec_expand_loop(*sema, st),
        res.0.ok(*sema),
    decreases sema.trees.len() - st.orig, 1int,
{
    match attr_phase(sema, st) {
        AttrPhase::Stop => (st, None),
        AttrPhase::Adopt(st2) => expand_loop(sema, st2),
        AttrPhase::NoChange => {
            let ot = &sema.trees[st.orig];
            let sp = &sema.trees[st.spec_tree];
            let ftt = ot.find_node_at_offset(st.offset, KindClass::TokenTree);
            let stt_opt = sp.find_node_at_offset(st.offset, KindClass::TokenTree);
            match (ftt, stt_opt) {
                (Option::Some(ott), Option::Some(stt)) => {
                    match (tt_attr(ot, ott), tt_attr(sp, stt)) {
                        (Option::Some(oattr), Option::Some(sattr)) => {
                            let d = derive_ctx_for(sema, st, oattr, sattr);
                            (st, d)
                        },
                        _ => macro_step(sema, st, ott, stt),
                    }
                },
                _ => (st, None),
            }
        },
    }
}

fn macro_step(sema: &Semantics, st: WalkState, ott: usize, stt: usize) -> (res: (
    WalkState,
    Option<DeriveCtx>,
))
    requires
        st.ok(*sema),
        ott < sema.trees[st.orig as int].nodes.len(),
        stt < sema.trees[st.spec_tree as int].nodes.len(),
    ensures
        res == spec_macro_step(*sema, st, ott as int, stt as int),
        res.0.ok(*sema),
    decreases sema.trees.len() - st.orig, 0int,
{
    let ot = &sema.trees[st.orig];
    let sp = &sema.trees[st.spec_tree];
    let foc = ot.find_ancestor(ott, KindClass::MacroCall);
    let fsc = sp.find_ancestor(stt, KindClass::MacroCall);
    match (foc, fsc) {
        (Option::Some(oc), Option::Some(sc)) => {
            if !macro_paths_agree(ot, sp, oc, sc) {
                return (st, None);
            }
            match sp.child_of_kind(sc, SyntaxKind::TokenTree) {
                Option::None => (st, None),
                Option::Some(args) => {
                    let real_out = node_key_get(&sema.macro_expansions, st.orig, oc);
                    let spec_out = spec_exp_get(
                        &sema.spec_macro_expansions,
                        st.orig,
                        oc,
                        st.spec_tree,
                        args,
                        st.fake_tok,
                    );
                    match try_adopt(sema, st, real_out, spec_out) {
                        AttrPhase::Adopt(st2) => expand_loop(sema, st2),
                        _ => (st, None),
                    }
                },
            }
        },
        _ => (st, None),
    }
}

} // verus!
