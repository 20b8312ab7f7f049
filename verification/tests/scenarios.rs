//! Scenario coverage: the walker guards, the classification fallbacks, the
//! qualifier flags, the field-list provider and the visibility filter.

use completion_context::context::{
    AttrKind, CompletionConfig, CompletionContext, DotAccess, FilePosition, IdentContext,
    ItemListKind, ItemVisibility, NameContext, NameKind, PathKind, TokenInfo, Visible,
};
use completion_context::fieldlist::{complete_field_list, Completions};
use completion_context::kind::SyntaxKind;
use completion_context::patterns::{ImmediateLocation, ImmediatePrevSibling};
use completion_context::sema::{
    AttrData, CrateEntry, FileRootEntry, NodeKeyEntry, NodeLoc, ParseEntry, RootEntry,
    ScopeAtEntry, ScopeEntry, Semantics, SpecExpEntry, SpecParseEntry,
};
use completion_context::text::TextRange;
use completion_context::tree::{SynNode, SynTree};

const MARKER: &str = "intellijRulezz";

enum Syn {
    Node(SyntaxKind, Vec<Syn>),
    Tok(SyntaxKind, String),
}

fn n(kind: SyntaxKind, children: Vec<Syn>) -> Syn {
    Syn::Node(kind, children)
}

fn t(kind: SyntaxKind, text: &str) -> Syn {
    Syn::Tok(kind, text.to_string())
}

fn ws(text: &str) -> Syn {
    t(SyntaxKind::Whitespace, text)
}

fn flatten(s: &Syn, parent: Option<usize>, pos: usize, out: &mut Vec<SynNode>) -> usize {
    match s {
        Syn::Tok(kind, text) => {
            out.push(SynNode {
                kind: *kind,
                range: TextRange { start: pos, end: pos + text.len() },
                parent,
                is_token: true,
                text: text.clone(),
            });
            pos + text.len()
        }
        Syn::Node(kind, children) => {
            let idx = out.len();
            out.push(SynNode {
                kind: *kind,
                range: TextRange { start: pos, end: pos },
                parent,
                is_token: false,
                text: String::new(),
            });
            let mut p = pos;
            for c in children {
                p = flatten(c, Some(idx), p, out);
            }
            out[idx].range = TextRange { start: pos, end: p };
            p
        }
    }
}

fn tree(s: Syn) -> SynTree {
    let mut out: Vec<SynNode> = Vec::new();
    flatten(&s, None, 0, &mut out);
    SynTree { nodes: out }
}

fn marker_offset(t: &SynTree) -> usize {
    for node in &t.nodes {
        if node.is_token {
            if let Some(i) = node.text.find(MARKER) {
                return node.range.start + i;
            }
        }
    }
    panic!("fixture has no placeholder token");
}

fn left_tok(t: &SynTree, offset: usize) -> usize {
    let mut i: usize = 0;
    while i < t.nodes.len() {
        if t.nodes[i].is_token && t.nodes[i].range.start <= offset && offset <= t.nodes[i].range.end
        {
            return i;
        }
        i += 1;
    }
    panic!("no token at offset");
}

fn right_tok(t: &SynTree, offset: usize) -> usize {
    let mut i: usize = t.nodes.len();
    while i > 0 {
        i -= 1;
        if t.nodes[i].is_token && t.nodes[i].range.start <= offset && offset <= t.nodes[i].range.end
        {
            return i;
        }
    }
    panic!("no token at offset");
}

fn nth_of_kind(t: &SynTree, kind: SyntaxKind, nth: usize) -> usize {
    let mut seen: usize = 0;
    let mut i: usize = 0;
    while i < t.nodes.len() {
        if t.nodes[i].kind == kind {
            if seen == nth {
                return i;
            }
            seen += 1;
        }
        i += 1;
    }
    panic!("no such node kind");
}

fn empty_sema() -> Semantics {
    Semantics {
        trees: vec![],
        types: vec![],
        parses: vec![],
        spec_parses: vec![],
        descends: vec![],
        scopes: vec![],
        expr_types: vec![],
        pat_types: vec![],
        record_field_types: vec![],
        fn_ret_types: vec![],
        path_resolutions: vec![],
        attr_expansions: vec![],
        macro_expansions: vec![],
        derive_expansions: vec![],
        spec_attr_expansions: vec![],
        spec_macro_expansions: vec![],
        spec_derive_expansions: vec![],
        active_params: vec![],
        locations: vec![],
        prev_siblings: vec![],
        derive_resolutions: vec![],
        crates: vec![],
        file_roots: vec![],
        roots: vec![],
        famous_drop: None,
    }
}

fn sema_for(orig: SynTree, spec: SynTree) -> (Semantics, usize) {
    let offset = marker_offset(&spec);
    let tok = left_tok(&orig, offset);
    let scope_node = orig.nodes[tok].parent.expect("token has a parent");
    let mut sema = empty_sema();
    sema.trees = vec![orig, spec];
    sema.parses = vec![ParseEntry { file: 0, tree: 0 }];
    sema.spec_parses = vec![SpecParseEntry { file: 0, offset, tree: 1 }];
    sema.scopes = vec![ScopeAtEntry {
        tree: 0,
        node: scope_node,
        offset,
        krate: 0,
        module: 0,
        entries: vec![],
        visible_traits: vec![],
    }];
    (sema, offset)
}

fn config() -> CompletionConfig {
    CompletionConfig { enable_private_editable: false, marker_len: MARKER.len() }
}

fn build(sema: &Semantics, offset: usize) -> Option<CompletionContext> {
    CompletionContext::new(sema, FilePosition { file: 0, offset }, &config())
}

fn base_ctx() -> CompletionContext {
    let tok = TokenInfo {
        loc: NodeLoc { tree: 0, node: 0 },
        kind: SyntaxKind::Ident,
        range: TextRange { start: 3, end: 8 },
    };
    CompletionContext {
        config: config(),
        position: FilePosition { file: 0, offset: 8 },
        original_token: tok,
        token: tok,
        krate: 0,
        module: 0,
        expected_name: None,
        expected_type: None,
        function_def: None,
        impl_def: None,
        incomplete_let: false,
        completion_location: None,
        prev_sibling: None,
        previous_token: None,
        ident_ctx: IdentContext::UnexpandedAttrTT { fake_attribute_under_caret: None },
        pattern_ctx: None,
        existing_derives: vec![],
        locals: vec![],
        scope_entries: vec![],
        visible_traits: vec![],
        famous_drop: None,
    }
}

// --- field-list provider ---

#[test]
fn tuple_struct_field_slot_offers_the_three_visibility_keywords() {
    let mut ctx = base_ctx();
    ctx.completion_location = Some(ImmediateLocation::TupleField);
    let mut acc = Completions::new();
    complete_field_list(&mut acc, &ctx);
    let labels: Vec<String> = acc.items.iter().map(|it| it.label.clone()).collect();
    assert_eq!(labels, vec!["pub(crate)", "pub(super)", "pub"]);
}

#[test]
fn preceding_visibility_token_suppresses_the_keywords() {
    let mut ctx = base_ctx();
    ctx.completion_location = Some(ImmediateLocation::TupleField);
    ctx.prev_sibling = Some(ImmediatePrevSibling::Visibility);
    let mut acc = Completions::new();
    complete_field_list(&mut acc, &ctx);
    assert_eq!(acc.items.len(), 0);
}

#[test]
fn record_field_name_offers_the_keywords_too() {
    let mut ctx = base_ctx();
    ctx.ident_ctx = IdentContext::Name(NameContext { name: None, kind: NameKind::RecordField });
    let mut acc = Completions::new();
    complete_field_list(&mut acc, &ctx);
    assert_eq!(acc.items.len(), 3);
}

// --- inferred-type qualifier ---

/// `<_>::<seg>;` as an expression statement inside `fn foo`.
fn infer_path_file(last_segment: Vec<Syn>) -> Syn {
    let infer_seg = n(
        SyntaxKind::PathSegment,
        vec![
            t(SyntaxKind::LAngle, "<"),
            n(SyntaxKind::InferType, vec![t(SyntaxKind::Underscore, "_")]),
            t(SyntaxKind::RAngle, ">"),
        ],
    );
    let mut path_children: Vec<Syn> = vec![
        n(SyntaxKind::Path, vec![infer_seg]),
        t(SyntaxKind::ColonColon, "::"),
    ];
    let mut ls = last_segment;
    path_children.append(&mut ls);
    let stmt = n(
        SyntaxKind::ExprStmt,
        vec![
            n(SyntaxKind::PathExpr, vec![n(SyntaxKind::Path, path_children)]),
            t(SyntaxKind::Semicolon, ";"),
        ],
    );
    n(
        SyntaxKind::SourceFile,
        vec![
            ws("\n"),
            n(
                SyntaxKind::Fn,
                vec![
                    t(SyntaxKind::FnKw, "fn"),
                    ws(" "),
                    n(SyntaxKind::Name, vec![t(SyntaxKind::Ident, "foo")]),
                    n(
                        SyntaxKind::ParamList,
                        vec![t(SyntaxKind::LParen, "("), t(SyntaxKind::RParen, ")")],
                    ),
                    ws(" "),
                    n(
                        SyntaxKind::BlockExpr,
                        vec![n(
                            SyntaxKind::StmtList,
                            vec![
                                t(SyntaxKind::LCurly, "{"),
                                ws(" "),
                                stmt,
                                ws(" "),
                                t(SyntaxKind::RCurly, "}"),
                            ],
                        )],
                    ),
                ],
            ),
            ws("\n"),
        ],
    )
}

#[test]
fn infer_qualifier_sets_the_flag_and_not_absolute() {
    let orig = tree(infer_path_file(vec![]));
    let spec = tree(infer_path_file(vec![n(
        SyntaxKind::PathSegment,
        vec![n(SyntaxKind::NameRef, vec![t(SyntaxKind::Ident, MARKER)])],
    )]));
    let (sema, offset) = sema_for(orig, spec);
    let ctx = build(&sema, offset).expect("a context is built");
    let pc = ctx.path_context().expect("a path context");
    assert!(!pc.is_absolute_path);
    let q = pc.qualifier.expect("a qualifier");
    assert!(q.is_infer_qualifier);
    assert!(!q.is_super_chain);
}

// --- macro expansion scenarios ---

/// `\nm!(<tt>)\n` at the top of a file; `path_text` names the macro.
fn macro_file(path_text: &str, tt: Vec<Syn>) -> Syn {
    let mut tt_children: Vec<Syn> = vec![t(SyntaxKind::LParen, "(")];
    let mut inner = tt;
    tt_children.append(&mut inner);
    tt_children.push(t(SyntaxKind::RParen, ")"));
    n(
        SyntaxKind::SourceFile,
        vec![
            ws("\n"),
            n(
                SyntaxKind::MacroCall,
                vec![
                    n(
                        SyntaxKind::Path,
                        vec![n(
                            SyntaxKind::PathSegment,
                            vec![n(SyntaxKind::NameRef, vec![t(SyntaxKind::Ident, path_text)])],
                        )],
                    ),
                    t(SyntaxKind::Bang, "!"),
                    n(SyntaxKind::TokenTree, tt_children),
                ],
            ),
            ws("\n"),
        ],
    )
}

/// `mod out { <item> }` as an expansion output file.
fn expansion_file(item: Vec<Syn>) -> Syn {
    let mut list: Vec<Syn> = vec![t(SyntaxKind::LCurly, "{"), ws(" ")];
    let mut i = item;
    list.append(&mut i);
    list.push(ws(" "));
    list.push(t(SyntaxKind::RCurly, "}"));
    n(
        SyntaxKind::SourceFile,
        vec![n(
            SyntaxKind::Module,
            vec![
                t(SyntaxKind::ModKw, "mod"),
                ws(" "),
                n(SyntaxKind::Name, vec![t(SyntaxKind::Ident, "out")]),
                ws(" "),
                n(SyntaxKind::ItemList, list),
            ],
        )],
    )
}

/// A model where `m!(…)` expands to module-level items in lock-step.
fn macro_sema(orig_path: &str, spec_path: &str, with_expansions: bool) -> (Semantics, usize) {
    let orig = tree(macro_file(orig_path, vec![]));
    let spec = tree(macro_file(spec_path, vec![t(SyntaxKind::Ident, MARKER)]));
    let offset = marker_offset(&spec);
    let fake_tok = right_tok(&spec, offset);
    let call0 = nth_of_kind(&orig, SyntaxKind::MacroCall, 0);
    let args1 = nth_of_kind(&spec, SyntaxKind::TokenTree, 0);
    let scope_node = orig.nodes[left_tok(&orig, offset)].parent.expect("parent");

    let exp_orig = tree(expansion_file(vec![]));
    let exp_spec = tree(expansion_file(vec![n(
        SyntaxKind::MacroCall,
        vec![n(
            SyntaxKind::Path,
            vec![n(
                SyntaxKind::PathSegment,
                vec![n(SyntaxKind::NameRef, vec![t(SyntaxKind::Ident, MARKER)])],
            )],
        )],
    )]));
    let mapped_tok = {
        let mut found: usize = 0;
        let mut i: usize = 0;
        while i < exp_spec.nodes.len() {
            if exp_spec.nodes[i].is_token && exp_spec.nodes[i].text == MARKER {
                found = i;
            }
            i += 1;
        }
        found
    };

    let mut sema = empty_sema();
    sema.trees = vec![orig, spec, exp_orig, exp_spec];
    sema.parses = vec![ParseEntry { file: 0, tree: 0 }];
    sema.spec_parses = vec![SpecParseEntry { file: 0, offset, tree: 1 }];
    sema.scopes = vec![ScopeAtEntry {
        tree: 0,
        node: scope_node,
        offset,
        krate: 0,
        module: 0,
        entries: vec![],
        visible_traits: vec![],
    }];
    if with_expansions {
        sema.macro_expansions = vec![NodeKeyEntry { tree: 0, node: call0, val: 2 }];
        sema.spec_macro_expansions = vec![SpecExpEntry {
            tree: 0,
            node: call0,
            spec_tree: 1,
            spec_node: args1,
            fake_tok,
            out_tree: 3,
            out_tok: mapped_tok,
        }];
    }
    (sema, offset)
}

#[test]
fn macro_expanding_to_items_classifies_module_item_slot() {
    let (sema, offset) = macro_sema("m", "m", true);
    let ctx = build(&sema, offset).expect("a context is built");
    assert_eq!(
        ctx.path_kind(),
        Some(PathKind::Item { kind: ItemListKind::Module })
    );
}

#[test]
fn failed_macro_expansion_yields_no_context() {
    let (sema, offset) = macro_sema("m", "m", false);
    assert!(build(&sema, offset).is_none());
}

#[test]
fn diverging_macro_paths_stop_the_walk() {
    // The same expansion tables as the successful run, but the speculative
    // invocation's path text differs: the walk stops before expanding, so
    // no context is produced from the expansion.
    let (sema, offset) = macro_sema("m", "k", true);
    assert!(build(&sema, offset).is_none());
}

#[test]
fn out_of_range_mapped_offset_stops_the_walk() {
    let (mut sema, offset) = macro_sema("m", "m", true);
    // Shrink the original-side expansion so the mapped placeholder offset
    // exceeds its end: the step is not adopted.
    sema.trees[2] = tree(n(SyntaxKind::SourceFile, vec![ws("\n")]));
    assert!(build(&sema, offset).is_none());
}

#[test]
fn no_token_at_offset_yields_no_context() {
    let (mut sema, offset) = macro_sema("m", "m", true);
    // Register a speculative parse at an offset beyond both trees: neither
    // token lookup can succeed there.
    let far = 1000usize;
    sema.spec_parses.push(SpecParseEntry { file: 0, offset: far, tree: 1 });
    let _ = offset;
    assert!(build(&sema, far).is_none());
}

#[test]
fn identical_inputs_build_structurally_equal_contexts() {
    let (sema, offset) = macro_sema("m", "m", true);
    let a = build(&sema, offset).expect("first context");
    let b = build(&sema, offset).expect("second context");
    assert_eq!(a, b);
}

// --- fallback classifications ---

/// `foo("…");` with the cursor inside the string literal.
fn string_file(lit: &str) -> Syn {
    n(
        SyntaxKind::SourceFile,
        vec![
            ws("\n"),
            n(
                SyntaxKind::Fn,
                vec![
                    t(SyntaxKind::FnKw, "fn"),
                    ws(" "),
                    n(SyntaxKind::Name, vec![t(SyntaxKind::Ident, "foo")]),
                    n(
                        SyntaxKind::ParamList,
                        vec![t(SyntaxKind::LParen, "("), t(SyntaxKind::RParen, ")")],
                    ),
                    ws(" "),
                    n(
                        SyntaxKind::BlockExpr,
                        vec![n(
                            SyntaxKind::StmtList,
                            vec![
                                t(SyntaxKind::LCurly, "{"),
                                ws(" "),
                                n(
                                    SyntaxKind::ExprStmt,
                                    vec![
                                        n(
                                            SyntaxKind::CallExpr,
                                            vec![
                                                n(
                                                    SyntaxKind::PathExpr,
                                                    vec![n(
                                                        SyntaxKind::Path,
                                                        vec![n(
                                                            SyntaxKind::PathSegment,
                                                            vec![n(
                                                                SyntaxKind::NameRef,
                                                                vec![t(SyntaxKind::Ident, "g")],
                                                            )],
                                                        )],
                                                    )],
                                                ),
                                                n(
                                                    SyntaxKind::ArgList,
                                                    vec![
                                                        t(SyntaxKind::LParen, "("),
                                                        n(
                                                            SyntaxKind::Literal,
                                                            vec![t(SyntaxKind::StringLit, lit)],
                                                        ),
                                                        t(SyntaxKind::RParen, ")"),
                                                    ],
                                                ),
                                            ],
                                        ),
                                        t(SyntaxKind::Semicolon, ";"),
                                    ],
                                ),
                                ws(" "),
                                t(SyntaxKind::RCurly, "}"),
                            ],
                        )],
                    ),
                ],
            ),
            ws("\n"),
        ],
    )
}

#[test]
fn cursor_in_string_literal_classifies_string_context() {
    let orig = tree(string_file("\"ab\""));
    let spec = tree(string_file(&format!("\"ab{}\"", MARKER)));
    let (sema, offset) = sema_for(orig, spec);
    let ctx = build(&sema, offset).expect("a context is built");
    assert!(matches!(ctx.ident_ctx, IdentContext::StringLit { .. }));
}

/// `#[foo(<tt>)] fn x() {}`.
fn attr_file(tt: Vec<Syn>) -> Syn {
    let mut tt_children: Vec<Syn> = vec![t(SyntaxKind::LParen, "(")];
    let mut inner = tt;
    tt_children.append(&mut inner);
    tt_children.push(t(SyntaxKind::RParen, ")"));
    n(
        SyntaxKind::SourceFile,
        vec![
            ws("\n"),
            n(
                SyntaxKind::Fn,
                vec![
                    n(
                        SyntaxKind::Attr,
                        vec![
                            t(SyntaxKind::Pound, "#"),
                            n(
                                SyntaxKind::Meta,
                                vec![
                                    n(
                                        SyntaxKind::Path,
                                        vec![n(
                                            SyntaxKind::PathSegment,
                                            vec![n(
                                                SyntaxKind::NameRef,
                                                vec![t(SyntaxKind::Ident, "foo")],
                                            )],
                                        )],
                                    ),
                                    n(SyntaxKind::TokenTree, tt_children),
                                ],
                            ),
                        ],
                    ),
                    ws(" "),
                    t(SyntaxKind::FnKw, "fn"),
                    ws(" "),
                    n(SyntaxKind::Name, vec![t(SyntaxKind::Ident, "x")]),
                    n(
                        SyntaxKind::ParamList,
                        vec![t(SyntaxKind::LParen, "("), t(SyntaxKind::RParen, ")")],
                    ),
                    ws(" "),
                    n(
                        SyntaxKind::BlockExpr,
                        vec![n(
                            SyntaxKind::StmtList,
                            vec![t(SyntaxKind::LCurly, "{"), t(SyntaxKind::RCurly, "}")],
                        )],
                    ),
                ],
            ),
            ws("\n"),
        ],
    )
}

#[test]
fn cursor_in_unexpanded_annotation_classifies_attr_token_tree() {
    let orig = tree(attr_file(vec![]));
    let spec = tree(attr_file(vec![t(SyntaxKind::Ident, MARKER)]));
    let (sema, offset) = sema_for(orig, spec);
    let ctx = build(&sema, offset).expect("a context is built");
    assert!(matches!(
        ctx.ident_ctx,
        IdentContext::UnexpandedAttrTT { fake_attribute_under_caret: Some(_) }
    ));
}

// --- dot access ---

/// `\nfn foo() { <expr>; }\n`.
fn stmt_file(expr: Syn) -> Syn {
    n(
        SyntaxKind::SourceFile,
        vec![
            ws("\n"),
            n(
                SyntaxKind::Fn,
                vec![
                    t(SyntaxKind::FnKw, "fn"),
                    ws(" "),
                    n(SyntaxKind::Name, vec![t(SyntaxKind::Ident, "foo")]),
                    n(
                        SyntaxKind::ParamList,
                        vec![t(SyntaxKind::LParen, "("), t(SyntaxKind::RParen, ")")],
                    ),
                    ws(" "),
                    n(
                        SyntaxKind::BlockExpr,
                        vec![n(
                            SyntaxKind::StmtList,
                            vec![
                                t(SyntaxKind::LCurly, "{"),
                                ws(" "),
                                n(
                                    SyntaxKind::ExprStmt,
                                    vec![expr, t(SyntaxKind::Semicolon, ";")],
                                ),
                                ws(" "),
                                t(SyntaxKind::RCurly, "}"),
                            ],
                        )],
                    ),
                ],
            ),
            ws("\n"),
        ],
    )
}

fn simple_path_expr(name: &str) -> Syn {
    n(
        SyntaxKind::PathExpr,
        vec![n(
            SyntaxKind::Path,
            vec![n(
                SyntaxKind::PathSegment,
                vec![n(SyntaxKind::NameRef, vec![t(SyntaxKind::Ident, name)])],
            )],
        )],
    )
}

#[test]
fn dot_access_relocates_the_receiver_in_the_original_tree() {
    let orig = tree(stmt_file(n(
        SyntaxKind::FieldExpr,
        vec![simple_path_expr("x"), t(SyntaxKind::Dot, ".")],
    )));
    let spec = tree(stmt_file(n(
        SyntaxKind::FieldExpr,
        vec![
            simple_path_expr("x"),
            t(SyntaxKind::Dot, "."),
            n(SyntaxKind::NameRef, vec![t(SyntaxKind::Ident, MARKER)]),
        ],
    )));
    let receiver = nth_of_kind(&orig, SyntaxKind::PathExpr, 0);
    let (sema, offset) = sema_for(orig, spec);
    let ctx = build(&sema, offset).expect("a context is built");
    assert!(ctx.has_dot_receiver());
    assert_eq!(ctx.dot_receiver(), Some(receiver));
    let nameref = ctx.nameref_ctx().expect("a name-ref context");
    assert!(matches!(
        nameref.dot_access,
        Some(DotAccess::Field { receiver_is_ambiguous_float_literal: false, .. })
    ));
}

#[test]
fn integer_receiver_with_bare_dot_is_float_ambiguous() {
    // Without the placeholder `1.` lexes as a float literal; with it the
    // dot re-tokenizes as a field access of an integer literal.
    let orig = tree(stmt_file(n(
        SyntaxKind::Literal,
        vec![t(SyntaxKind::FloatNumber, "1.")],
    )));
    let spec = tree(stmt_file(n(
        SyntaxKind::FieldExpr,
        vec![
            n(SyntaxKind::Literal, vec![t(SyntaxKind::IntNumber, "1")]),
            t(SyntaxKind::Dot, "."),
            n(SyntaxKind::NameRef, vec![t(SyntaxKind::Ident, MARKER)]),
        ],
    )));
    let (sema, offset) = sema_for(orig, spec);
    let ctx = build(&sema, offset).expect("a context is built");
    let nameref = ctx.nameref_ctx().expect("a name-ref context");
    assert!(matches!(
        nameref.dot_access,
        Some(DotAccess::Field { receiver_is_ambiguous_float_literal: true, .. })
    ));
}

// --- the visibility filter ---

#[test]
fn visible_item_is_offered() {
    let ctx = base_ctx();
    let sema = empty_sema();
    let attrs = AttrData { doc_hidden: false, lang: None };
    assert_eq!(
        ctx.is_visible_impl(&sema, &ItemVisibility::Public, &attrs, 0),
        Visible::Yes
    );
}

#[test]
fn doc_hidden_item_from_another_crate_is_hidden() {
    let ctx = base_ctx();
    let sema = empty_sema();
    let attrs = AttrData { doc_hidden: true, lang: None };
    assert_eq!(
        ctx.is_visible_impl(&sema, &ItemVisibility::Public, &attrs, 1),
        Visible::No
    );
    // In the defining crate itself the item stays visible.
    assert_eq!(
        ctx.is_visible_impl(&sema, &ItemVisibility::Public, &attrs, 0),
        Visible::Yes
    );
}

#[test]
fn invisible_item_without_private_editable_is_hidden() {
    let ctx = base_ctx();
    let sema = empty_sema();
    let attrs = AttrData { doc_hidden: false, lang: None };
    assert_eq!(
        ctx.is_visible_impl(&sema, &ItemVisibility::Restricted(vec![7]), &attrs, 0),
        Visible::No
    );
}

#[test]
fn invisible_item_in_editable_root_is_editable() {
    let mut ctx = base_ctx();
    ctx.config.enable_private_editable = true;
    let mut sema = empty_sema();
    sema.crates = vec![CrateEntry { root_file: 5 }];
    sema.file_roots = vec![FileRootEntry { file: 5, root: 2 }];
    sema.roots = vec![RootEntry { root: 2, is_library: false }];
    let attrs = AttrData { doc_hidden: false, lang: None };
    assert_eq!(
        ctx.is_visible_impl(&sema, &ItemVisibility::Restricted(vec![7]), &attrs, 0),
        Visible::Editable
    );
    sema.roots = vec![RootEntry { root: 2, is_library: true }];
    assert_eq!(
        ctx.is_visible_impl(&sema, &ItemVisibility::Restricted(vec![7]), &attrs, 0),
        Visible::No
    );
}

// --- accessors ---

#[test]
fn source_range_of_a_half_typed_lifetime_is_one_byte() {
    let mut ctx = base_ctx();
    ctx.token.kind = SyntaxKind::CharLit;
    assert_eq!(ctx.source_range(), TextRange { start: 3, end: 4 });
}

#[test]
fn source_range_of_an_identifier_is_the_original_token() {
    let ctx = base_ctx();
    assert_eq!(ctx.source_range(), TextRange { start: 3, end: 8 });
}

#[test]
fn source_range_elsewhere_is_empty_at_the_cursor() {
    let mut ctx = base_ctx();
    ctx.token.kind = SyntaxKind::Comma;
    assert_eq!(ctx.source_range(), TextRange { start: 8, end: 8 });
}

#[test]
fn operator_traits_are_recognized_by_lang_name() {
    let ctx = base_ctx();
    assert!(ctx.is_ops_trait(&AttrData { doc_hidden: false, lang: Some("add".to_string()) }));
    assert!(ctx.is_ops_trait(&AttrData { doc_hidden: false, lang: Some("fn_once".to_string()) }));
    assert!(!ctx.is_ops_trait(&AttrData { doc_hidden: false, lang: Some("drop".to_string()) }));
    assert!(!ctx.is_ops_trait(&AttrData { doc_hidden: false, lang: None }));
}

#[test]
fn traits_in_scope_removes_the_drop_trait() {
    let mut ctx = base_ctx();
    ctx.visible_traits = vec![1, 2, 3];
    ctx.famous_drop = Some(2);
    assert_eq!(ctx.traits_in_scope(), vec![1, 3]);
}

#[test]
fn process_all_names_filters_hidden_definitions() {
    let mut ctx = base_ctx();
    ctx.scope_entries = vec![
        ScopeEntry {
            name: "open".to_string(),
            is_local: false,
            local: 0,
            attrs: Some(AttrData { doc_hidden: false, lang: None }),
            krate: Some(1),
        },
        ScopeEntry {
            name: "hidden".to_string(),
            is_local: false,
            local: 0,
            attrs: Some(AttrData { doc_hidden: true, lang: None }),
            krate: Some(1),
        },
    ];
    let names: Vec<String> =
        ctx.process_all_names().iter().map(|e| e.name.clone()).collect();
    assert_eq!(names, vec!["open"]);
    assert_eq!(ctx.process_all_names_raw().len(), 2);
}

// --- further path slots ---

/// `use foo::{<seg>};`.
fn use_tree_file(inner: Vec<Syn>) -> Syn {
    let mut list: Vec<Syn> = vec![t(SyntaxKind::LCurly, "{")];
    let mut i = inner;
    list.append(&mut i);
    list.push(t(SyntaxKind::RCurly, "}"));
    n(
        SyntaxKind::SourceFile,
        vec![
            ws("\n"),
            n(
                SyntaxKind::Use,
                vec![
                    t(SyntaxKind::UseKw, "use"),
                    ws(" "),
                    n(
                        SyntaxKind::UseTree,
                        vec![
                            n(
                                SyntaxKind::Path,
                                vec![n(
                                    SyntaxKind::PathSegment,
                                    vec![n(SyntaxKind::NameRef, vec![t(SyntaxKind::Ident, "foo")])],
                                )],
                            ),
                            t(SyntaxKind::ColonColon, "::"),
                            n(SyntaxKind::UseTreeList, list),
                        ],
                    ),
                    t(SyntaxKind::Semicolon, ";"),
                ],
            ),
            ws("\n"),
        ],
    )
}

#[test]
fn use_tree_nesting_inherits_the_parent_qualifier() {
    let orig = tree(use_tree_file(vec![]));
    let spec = tree(use_tree_file(vec![n(
        SyntaxKind::UseTree,
        vec![n(
            SyntaxKind::Path,
            vec![n(
                SyntaxKind::PathSegment,
                vec![n(SyntaxKind::NameRef, vec![t(SyntaxKind::Ident, MARKER)])],
            )],
        )],
    )]));
    let qual_path = nth_of_kind(&orig, SyntaxKind::Path, 0);
    let (sema, offset) = sema_for(orig, spec);
    let ctx = build(&sema, offset).expect("a context is built");
    let pc = ctx.path_context().expect("a path context");
    assert_eq!(pc.kind, PathKind::Use);
    assert!(!pc.is_absolute_path);
    let q = pc.qualifier.expect("a qualifier");
    assert!(q.use_tree_parent);
    assert_eq!(q.path, qual_path);
}

/// `#[<name>]\nfn x() {}`.
fn outer_attr_file(name: &str) -> Syn {
    n(
        SyntaxKind::SourceFile,
        vec![
            ws("\n"),
            n(
                SyntaxKind::Fn,
                vec![
                    n(
                        SyntaxKind::Attr,
                        vec![
                            t(SyntaxKind::Pound, "#"),
                            n(
                                SyntaxKind::Meta,
                                vec![n(
                                    SyntaxKind::Path,
                                    vec![n(
                                        SyntaxKind::PathSegment,
                                        vec![n(
                                            SyntaxKind::NameRef,
                                            vec![t(SyntaxKind::Ident, name)],
                                        )],
                                    )],
                                )],
                            ),
                        ],
                    ),
                    ws("\n"),
                    t(SyntaxKind::FnKw, "fn"),
                    ws(" "),
                    n(SyntaxKind::Name, vec![t(SyntaxKind::Ident, "x")]),
                    n(
                        SyntaxKind::ParamList,
                        vec![t(SyntaxKind::LParen, "("), t(SyntaxKind::RParen, ")")],
                    ),
                    ws(" "),
                    n(
                        SyntaxKind::BlockExpr,
                        vec![n(
                            SyntaxKind::StmtList,
                            vec![t(SyntaxKind::LCurly, "{"), t(SyntaxKind::RCurly, "}")],
                        )],
                    ),
                ],
            ),
            ws("\n"),
        ],
    )
}

#[test]
fn outer_annotation_slot_names_the_annotated_item_kind() {
    let orig = tree(outer_attr_file("foo"));
    let spec = tree(outer_attr_file(&format!("foo{}", MARKER)));
    let (sema, offset) = sema_for(orig, spec);
    let ctx = build(&sema, offset).expect("a context is built");
    let pc = ctx.path_context().expect("a path context");
    assert_eq!(
        pc.kind,
        PathKind::Attr { kind: AttrKind::Outer, annotated_item_kind: Some(SyntaxKind::Fn) }
    );
}

/// `super::super::<seg>;` inside `fn foo`.
fn super_chain_file(last_segment: Vec<Syn>) -> Syn {
    let super_seg = |txt: &str| {
        n(SyntaxKind::PathSegment, vec![t(SyntaxKind::SuperKw, txt)])
    };
    let inner = n(SyntaxKind::Path, vec![super_seg("super")]);
    let middle = n(
        SyntaxKind::Path,
        vec![inner, t(SyntaxKind::ColonColon, "::"), super_seg("super")],
    );
    let mut outer_children: Vec<Syn> = vec![middle, t(SyntaxKind::ColonColon, "::")];
    let mut ls = last_segment;
    outer_children.append(&mut ls);
    stmt_file(n(SyntaxKind::PathExpr, vec![n(SyntaxKind::Path, outer_children)]))
}

#[test]
fn all_super_segments_set_the_super_chain_flag() {
    let orig = tree(super_chain_file(vec![]));
    let spec = tree(super_chain_file(vec![n(
        SyntaxKind::PathSegment,
        vec![n(SyntaxKind::NameRef, vec![t(SyntaxKind::Ident, MARKER)])],
    )]));
    let (sema, offset) = sema_for(orig, spec);
    let ctx = build(&sema, offset).expect("a context is built");
    let pc = ctx.path_context().expect("a path context");
    let q = pc.qualifier.expect("a qualifier");
    assert!(q.is_super_chain);
    assert!(!q.is_infer_qualifier);
}

/// `match e { S(x) }` with the cursor on the pattern's path.
fn tuple_pat_file(path_name: &str) -> Syn {
    let arm = n(
        SyntaxKind::MatchArm,
        vec![n(
            SyntaxKind::TupleStructPat,
            vec![
                n(
                    SyntaxKind::Path,
                    vec![n(
                        SyntaxKind::PathSegment,
                        vec![n(SyntaxKind::NameRef, vec![t(SyntaxKind::Ident, path_name)])],
                    )],
                ),
                t(SyntaxKind::LParen, "("),
                n(
                    SyntaxKind::IdentPat,
                    vec![n(SyntaxKind::Name, vec![t(SyntaxKind::Ident, "x")])],
                ),
                t(SyntaxKind::RParen, ")"),
            ],
        )],
    );
    stmt_file(n(
        SyntaxKind::MatchExpr,
        vec![
            t(SyntaxKind::MatchKw, "match"),
            ws(" "),
            simple_path_expr("e"),
            ws(" "),
            n(
                SyntaxKind::MatchArmList,
                vec![t(SyntaxKind::LCurly, "{"), ws(" "), arm, ws(" "), t(SyntaxKind::RCurly, "}")],
            ),
        ],
    ))
}

#[test]
fn tuple_struct_pattern_paths_are_refutable_pattern_slots() {
    let orig = tree(tuple_pat_file("S"));
    let spec = tree(tuple_pat_file(&format!("S{}", MARKER)));
    let (sema, offset) = sema_for(orig, spec);
    let ctx = build(&sema, offset).expect("a context is built");
    let pc = ctx.path_context().expect("a path context");
    assert_eq!(pc.kind, PathKind::Pat);
    assert!(pc.has_call_parens);
    let pat = ctx.pattern_ctx.expect("a pattern context");
    assert_eq!(
        pat.refutability,
        completion_context::context::PatternRefutability::Refutable
    );
}

// --- method calls ---

#[test]
fn method_call_records_receiver_and_parens() {
    let method = |name: &str| {
        stmt_file(n(
            SyntaxKind::MethodCallExpr,
            vec![
                simple_path_expr("x"),
                t(SyntaxKind::Dot, "."),
                n(SyntaxKind::NameRef, vec![t(SyntaxKind::Ident, name)]),
                n(
                    SyntaxKind::ArgList,
                    vec![t(SyntaxKind::LParen, "("), t(SyntaxKind::RParen, ")")],
                ),
            ],
        ))
    };
    let orig = tree(method("m"));
    let spec = tree(method(&format!("m{}", MARKER)));
    let receiver = nth_of_kind(&orig, SyntaxKind::PathExpr, 0);
    let (sema, offset) = sema_for(orig, spec);
    let ctx = build(&sema, offset).expect("a context is built");
    let nameref = ctx.nameref_ctx().expect("a name-ref context");
    match nameref.dot_access {
        Some(DotAccess::Method { receiver: r, has_parens }) => {
            assert_eq!(r, Some(receiver));
            assert!(has_parens);
        }
        _ => panic!("expected a method access"),
    }
}

// --- attribute-macro lock-step expansion ---

/// `#[app_attr]\nfn h() { <tail> }`.
fn attributed_fn_file(tail: Vec<Syn>) -> Syn {
    let mut stmts: Vec<Syn> = vec![t(SyntaxKind::LCurly, "{")];
    if tail.is_empty() {
        stmts.push(ws("  "));
    } else {
        stmts.push(ws(" "));
        let mut tl = tail;
        stmts.append(&mut tl);
        stmts.push(ws(" "));
    }
    stmts.push(t(SyntaxKind::RCurly, "}"));
    n(
        SyntaxKind::SourceFile,
        vec![
            ws("\n"),
            n(
                SyntaxKind::Fn,
                vec![
                    n(
                        SyntaxKind::Attr,
                        vec![
                            t(SyntaxKind::Pound, "#"),
                            n(
                                SyntaxKind::Meta,
                                vec![n(
                                    SyntaxKind::Path,
                                    vec![n(
                                        SyntaxKind::PathSegment,
                                        vec![n(
                                            SyntaxKind::NameRef,
                                            vec![t(SyntaxKind::Ident, "app_attr")],
                                        )],
                                    )],
                                )],
                            ),
                        ],
                    ),
                    ws("\n"),
                    t(SyntaxKind::FnKw, "fn"),
                    ws(" "),
                    n(SyntaxKind::Name, vec![t(SyntaxKind::Ident, "h")]),
                    n(
                        SyntaxKind::ParamList,
                        vec![t(SyntaxKind::LParen, "("), t(SyntaxKind::RParen, ")")],
                    ),
                    ws(" "),
                    n(SyntaxKind::BlockExpr, vec![n(SyntaxKind::StmtList, stmts)]),
                ],
            ),
            ws("\n"),
        ],
    )
}

/// `fn h() { <tail> }` — the attribute's expansion output.
fn attr_expansion_file(tail: Vec<Syn>) -> Syn {
    let mut stmts: Vec<Syn> = vec![t(SyntaxKind::LCurly, "{")];
    if tail.is_empty() {
        stmts.push(ws("  "));
    } else {
        stmts.push(ws(" "));
        let mut tl = tail;
        stmts.append(&mut tl);
        stmts.push(ws(" "));
    }
    stmts.push(t(SyntaxKind::RCurly, "}"));
    n(
        SyntaxKind::SourceFile,
        vec![n(
            SyntaxKind::Fn,
            vec![
                t(SyntaxKind::FnKw, "fn"),
                ws(" "),
                n(SyntaxKind::Name, vec![t(SyntaxKind::Ident, "h")]),
                n(
                    SyntaxKind::ParamList,
                    vec![t(SyntaxKind::LParen, "("), t(SyntaxKind::RParen, ")")],
                ),
                ws(" "),
                n(SyntaxKind::BlockExpr, vec![n(SyntaxKind::StmtList, stmts)]),
            ],
        )],
    )
}

fn attr_sema(with_real_expansion: bool) -> (Semantics, usize) {
    let orig = tree(attributed_fn_file(vec![]));
    let spec = tree(attributed_fn_file(vec![path_expr_named(MARKER)]));
    let offset = marker_offset(&spec);
    let fake_tok = right_tok(&spec, offset);
    let fn0 = nth_of_kind(&orig, SyntaxKind::Fn, 0);
    let fn1 = nth_of_kind(&spec, SyntaxKind::Fn, 0);
    let scope_node = orig.nodes[left_tok(&orig, offset)].parent.expect("parent");
    let exp_orig = tree(attr_expansion_file(vec![]));
    let exp_spec = tree(attr_expansion_file(vec![path_expr_named(MARKER)]));
    let mapped_tok = {
        let mut found: usize = 0;
        let mut i: usize = 0;
        while i < exp_spec.nodes.len() {
            if exp_spec.nodes[i].is_token && exp_spec.nodes[i].text == MARKER {
                found = i;
            }
            i += 1;
        }
        found
    };
    let mut sema = empty_sema();
    sema.trees = vec![orig, spec, exp_orig, exp_spec];
    sema.parses = vec![ParseEntry { file: 0, tree: 0 }];
    sema.spec_parses = vec![SpecParseEntry { file: 0, offset, tree: 1 }];
    sema.scopes = vec![ScopeAtEntry {
        tree: 0,
        node: scope_node,
        offset,
        krate: 0,
        module: 0,
        entries: vec![],
        visible_traits: vec![],
    }];
    if with_real_expansion {
        sema.attr_expansions = vec![NodeKeyEntry { tree: 0, node: fn0, val: 2 }];
    }
    sema.spec_attr_expansions = vec![SpecExpEntry {
        tree: 0,
        node: fn0,
        spec_tree: 1,
        spec_node: fn1,
        fake_tok,
        out_tree: 3,
        out_tok: mapped_tok,
    }];
    (sema, offset)
}

fn path_expr_named(name: &str) -> Syn {
    n(
        SyntaxKind::PathExpr,
        vec![n(
            SyntaxKind::Path,
            vec![n(
                SyntaxKind::PathSegment,
                vec![n(SyntaxKind::NameRef, vec![t(SyntaxKind::Ident, name)])],
            )],
        )],
    )
}

#[test]
fn attribute_expansion_classifies_inside_the_expansion() {
    let (sema, offset) = attr_sema(true);
    let ctx = build(&sema, offset).expect("a context is built");
    assert_eq!(
        ctx.path_kind(),
        Some(PathKind::Expr {
            in_block_expr: true,
            in_loop_body: false,
            in_functional_update: false,
        })
    );
}

#[test]
fn one_sided_attribute_expansion_stops_but_still_classifies() {
    // Only the speculative side expands: the walk stops on the
    // pre-expansion pair, where the placeholder still classifies.
    let (sema, offset) = attr_sema(false);
    let ctx = build(&sema, offset).expect("a context is built");
    assert_eq!(
        ctx.path_kind(),
        Some(PathKind::Expr {
            in_block_expr: true,
            in_loop_body: false,
            in_functional_update: false,
        })
    );
}

// --- derive pseudo-expansion ---

/// `#[derive(<arg>)]\nstruct S;`.
fn derive_target_file(arg: &str) -> Syn {
    n(
        SyntaxKind::SourceFile,
        vec![
            ws("\n"),
            n(
                SyntaxKind::Struct,
                vec![
                    n(
                        SyntaxKind::Attr,
                        vec![
                            t(SyntaxKind::Pound, "#"),
                            n(
                                SyntaxKind::Meta,
                                vec![
                                    n(
                                        SyntaxKind::Path,
                                        vec![n(
                                            SyntaxKind::PathSegment,
                                            vec![n(
                                                SyntaxKind::NameRef,
                                                vec![t(SyntaxKind::Ident, "derive")],
                                            )],
                                        )],
                                    ),
                                    n(
                                        SyntaxKind::TokenTree,
                                        vec![
                                            t(SyntaxKind::LParen, "("),
                                            t(SyntaxKind::Ident, arg),
                                            t(SyntaxKind::RParen, ")"),
                                        ],
                                    ),
                                ],
                            ),
                        ],
                    ),
                    ws("\n"),
                    t(SyntaxKind::StructKw, "struct"),
                    ws(" "),
                    n(SyntaxKind::Name, vec![t(SyntaxKind::Ident, "S")]),
                    t(SyntaxKind::Semicolon, ";"),
                ],
            ),
            ws("\n"),
        ],
    )
}

/// The pseudo-expansion of the annotation: the placeholder lands in an
/// item-position path.
fn derive_expansion_file(name: &str) -> Syn {
    n(
        SyntaxKind::SourceFile,
        vec![n(
            SyntaxKind::MacroCall,
            vec![n(
                SyntaxKind::Path,
                vec![n(
                    SyntaxKind::PathSegment,
                    vec![n(SyntaxKind::NameRef, vec![t(SyntaxKind::Ident, name)])],
                )],
            )],
        )],
    )
}

#[test]
fn derive_annotation_forces_the_derive_slot_and_collects_applied_macros() {
    let orig = tree(derive_target_file("Cl"));
    let spec = tree(derive_target_file(&format!("Cl{}", MARKER)));
    let offset = marker_offset(&spec);
    let fake_tok = right_tok(&spec, offset);
    let attr0 = nth_of_kind(&orig, SyntaxKind::Attr, 0);
    let attr1 = nth_of_kind(&spec, SyntaxKind::Attr, 0);
    let scope_node = orig.nodes[left_tok(&orig, offset)].parent.expect("parent");
    let exp_orig = tree(n(SyntaxKind::SourceFile, vec![ws(" ")]));
    let exp_spec = tree(derive_expansion_file(MARKER));
    let mapped_tok = {
        let mut found: usize = 0;
        let mut i: usize = 0;
        while i < exp_spec.nodes.len() {
            if exp_spec.nodes[i].is_token && exp_spec.nodes[i].text == MARKER {
                found = i;
            }
            i += 1;
        }
        found
    };
    let mut sema = empty_sema();
    sema.trees = vec![orig, spec, exp_orig, exp_spec];
    sema.parses = vec![ParseEntry { file: 0, tree: 0 }];
    sema.spec_parses = vec![SpecParseEntry { file: 0, offset, tree: 1 }];
    sema.scopes = vec![ScopeAtEntry {
        tree: 0,
        node: scope_node,
        offset,
        krate: 0,
        module: 0,
        entries: vec![],
        visible_traits: vec![],
    }];
    sema.derive_expansions = vec![NodeKeyEntry { tree: 0, node: attr0, val: 2 }];
    sema.spec_derive_expansions = vec![SpecExpEntry {
        tree: 0,
        node: attr0,
        spec_tree: 1,
        spec_node: attr1,
        fake_tok,
        out_tree: 3,
        out_tok: mapped_tok,
    }];
    sema.derive_resolutions = vec![completion_context::sema::DeriveResEntry {
        tree: 0,
        attr: attr0,
        macros: vec![42],
    }];
    let ctx = build(&sema, offset).expect("a context is built");
    assert_eq!(ctx.path_kind(), Some(PathKind::Derive));
    assert_eq!(ctx.existing_derives, vec![42]);
}
