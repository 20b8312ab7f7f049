//! The completion-context result object: what kind of entity is being typed
//! at the cursor, with its accessors and the per-candidate visibility
//! filter.

use vstd::prelude::*;

use crate::kind::SyntaxKind;
use crate::patterns::{ImmediateLocation, ImmediatePrevSibling};
use crate::sema::{AttrData, NodeLoc, ScopeEntry, Semantics};
use crate::text::TextRange;
use vstd::string::StringExecFns;

verus! {

/// A cursor position: a file identity and a byte offset.
#[derive(Clone, Copy, Debug, PartialEq, Eq, Structural)]
pub struct FilePosition {
    pub file: u32,
    pub offset: usize,
}

/// Per-request configuration. The placeholder identifier inserted by the
/// speculative re-parse is a configuration value; only its byte length
/// enters the range arithmetic.
#[derive(Clone, Copy, Debug, PartialEq, Eq, Structural)]
pub struct CompletionConfig {
    pub enable_private_editable: bool,
    pub marker_len: usize,
}

/// Whether the pattern position must accept every value of the scrutinee.
#[derive(Clone, Copy, Debug, PartialEq, Eq, Structural)]
pub enum PatternRefutability {
    Refutable,
    Irrefutable,
}

/// Three-valued visibility of a candidate item at the completion site.
#[derive(Clone, Copy, Debug, PartialEq, Eq, Structural)]
pub enum Visible {
    Yes,
    Editable,
    No,
}

/// Whether an annotation is an inner (`#![..]`) or outer (`#[..]`) one.
#[derive(Clone, Copy, Debug, PartialEq, Eq, Structural)]
pub enum AttrKind {
    Inner,
    Outer,
}

/// The item-list flavour a path in item position sits in.
#[derive(Clone, Copy, Debug, PartialEq, Eq, Structural)]
pub enum ItemListKind {
    SourceFile,
    Module,
    Impl,
    Trait,
    ExternBlock,
}

/// The syntactic slot a completed path occupies.
#[derive(Clone, Copy, Debug, PartialEq, Eq, Structural)]
pub enum PathKind {
    Expr { in_block_expr: bool, in_loop_body: bool, in_functional_update: bool },
    Type,
    Attr { kind: AttrKind, annotated_item_kind: Option<SyntaxKind> },
    Derive,
    Item { kind: ItemListKind },
    Pat,
    Vis { has_in_token: bool },
    Use,
}

/// The resolved qualifier of a completed path. The `path` node lives in the
/// original tree.
#[derive(Clone, Copy, Debug, PartialEq, Eq, Structural)]
pub struct PathQualifierCtx {
    pub path: usize,
    pub resolution: Option<usize>,
    /// Whether the qualifier consists solely of `super` segments.
    pub is_super_chain: bool,
    /// Whether the qualifier is inherited from a parent use-tree.
    pub use_tree_parent: bool,
    /// Whether the qualifier is a bare inferred-type qualifier (`<_>`).
    pub is_infer_qualifier: bool,
}

/// Everything recorded about a path at the completion position. Node
/// indices refer to the final speculative tree's path unless stated
/// otherwise.
#[derive(Clone, Copy, Debug, PartialEq, Eq, Structural)]
pub struct PathCompletionCtx {
    /// Whether call parentheses (or braces, for record patterns) follow.
    pub has_call_parens: bool,
    /// Whether the call carries a macro bang.
    pub has_macro_bang: bool,
    /// Whether the path starts with a leading path separator.
    pub is_absolute_path: bool,
    pub qualifier: Option<PathQualifierCtx>,
    /// The parent path of the completed path, when nested.
    pub parent_path: Option<usize>,
    pub kind: PathKind,
    /// Whether the completed segment carries a generic-argument list.
    pub has_type_args: bool,
}

/// Whether a parameter's owner is a function or a closure; the payload is
/// the owner node in the original tree.
#[derive(Clone, Copy, Debug, PartialEq, Eq, Structural)]
pub enum ParamKind {
    Function(usize),
    Closure(usize),
}

/// A pattern in parameter position: the owning parameter list and
/// parameter, re-located in the original tree.
#[derive(Clone, Copy, Debug, PartialEq, Eq, Structural)]
pub struct ParamCtx {
    pub param_list: usize,
    pub param: usize,
    pub kind: ParamKind,
}

/// The pattern context at the completion position. Re-locatable nodes live
/// in the original tree; the binding modifiers are recorded as presence
/// flags.
#[derive(Clone, Copy, Debug, PartialEq, Eq, Structural)]
pub struct PatternContext {
    pub refutability: PatternRefutability,
    pub param_ctx: Option<ParamCtx>,
    pub has_type_ascription: bool,
    /// The immediate parent pattern, re-located in the original tree.
    pub parent_pat: Option<usize>,
    pub has_ref_token: bool,
    pub has_mut_token: bool,
}

/// The flavour of a lifetime position.
#[derive(Clone, Copy, Debug, PartialEq, Eq, Structural)]
pub enum LifetimeKind {
    /// A lifetime-parameter site; `is_decl` distinguishes the declaration
    /// itself from a bound on it.
    LifetimeParam { is_decl: bool },
    Lifetime,
    LabelRef,
    LabelDef,
}

/// A lifetime at the completion position; the node is re-located in the
/// original tree.
#[derive(Clone, Copy, Debug, PartialEq, Eq, Structural)]
pub struct LifetimeContext {
    pub lifetime: Option<usize>,
    pub kind: LifetimeKind,
}

/// The parent kind of a declared name at the completion position.
#[derive(Clone, Copy, Debug, PartialEq, Eq, Structural)]
pub enum NameKind {
    Const,
    ConstParam,
    Enum,
    Function,
    IdentPat,
    MacroDef,
    MacroRules,
    Module,
    RecordField,
    Rename,
    SelfParam,
    Static,
    Struct,
    Trait,
    TypeAlias,
    TypeParam,
    Union,
    Variant,
}

/// A declared name at the completion position; the node is re-located in
/// the original tree.
#[derive(Clone, Copy, Debug, PartialEq, Eq, Structural)]
pub struct NameContext {
    pub name: Option<usize>,
    pub kind: NameKind,
}

/// A dot access at the completion position; receivers are re-located in the
/// original tree.
#[derive(Clone, Copy, Debug, PartialEq, Eq, Structural)]
pub enum DotAccess {
    Field {
        receiver: Option<usize>,
        /// Whether the receiver is an integer literal followed by a bare
        /// dot, which is syntactically ambiguous with a float literal.
        receiver_is_ambiguous_float_literal: bool,
    },
    Method { receiver: Option<usize>, has_parens: bool },
}

/// A name reference at the completion position; `nameref` is re-located in
/// the original tree.
#[derive(Clone, Copy, Debug, PartialEq, Eq, Structural)]
pub struct NameRefContext {
    pub nameref: Option<usize>,
    pub dot_access: Option<DotAccess>,
    pub path_ctx: Option<PathCompletionCtx>,
}

/// The closed classification of the identifier being completed.
#[derive(Clone, Copy, Debug, PartialEq, Eq, Structural)]
pub enum IdentContext {
    Name(NameContext),
    NameRef(NameRefContext),
    Lifetime(LifetimeContext),
    /// A string literal: the token in the original tree, and its
    /// macro-expanded form when one exists.
    StringLit { original: usize, expanded: Option<usize> },
    /// The cursor sits in a not-yet-expanded annotation's token tree; the
    /// payload is the enclosing attribute in the speculative tree.
    UnexpandedAttrTT { fake_attribute_under_caret: Option<usize> },
}

/// A token reference with its cached kind and range.
#[derive(Clone, Copy, Debug, PartialEq, Eq, Structural)]
pub struct TokenInfo {
    pub loc: NodeLoc,
    pub kind: SyntaxKind,
    pub range: TextRange,
}

/// The expected binding name at the cursor, with its display text.
#[derive(Debug, Clone, PartialEq, Eq)]
pub struct ExpectedNameInfo {
    /// Whether the name comes from a name reference (a record field) rather
    /// than a declared name.
    pub is_name_ref: bool,
    pub node: usize,
    pub text: String,
}

/// An item's visibility, as the set of modules it is visible from.
#[derive(Debug, Clone, PartialEq, Eq)]
pub enum ItemVisibility {
    Public,
    Restricted(Vec<u32>),
}

impl ItemVisibility {
    /// Whether an item with this visibility is visible from `module`.
    pub open spec fn spec_visible_from(self, module: u32) -> bool {
        match self {
            ItemVisibility::Public => true,
            ItemVisibility::Restricted(ms) => ms@.contains(module),
        }
    }

    pub fn is_visible_from(&self, module: u32) -> (r: bool)
        ensures
            r == self.spec_visible_from(module),
    {
        match self {
            ItemVisibility::Public => true,
            ItemVisibility::Restricted(ms) => vec_u32_contains(ms, module),
        }
    }
}

/// Whether `v` holds `x`.
fn vec_u32_contains(v: &Vec<u32>, x: u32) -> (r: bool)
    ensures
        r == v@.contains(x),
{
    let mut i: usize = 0;
    while i < v.len()
        invariant
            i <= v.len(),
            forall|k: int| 0 <= k < i ==> v@[k] != x,
        decreases v.len() - i,
    {
        if v[i] == x {
            proof {
                assert(v@[i as int] == x);
            }
            return true;
        }
        i = i + 1;
    }
    proof {
        assert(!v@.contains(x));
    }
    false
}

/// A candidate item, reduced to what the visibility filter reads.
#[derive(Debug, Clone, PartialEq, Eq)]
pub struct VisibleItemData {
    pub vis: ItemVisibility,
    pub attrs: AttrData,
    pub krate: u32,
}

/// An item in a namespace, as read by the hidden-item check.
#[derive(Debug, Clone, PartialEq, Eq)]
pub struct ItemInNsData {
    pub attrs: Option<AttrData>,
    pub krate: Option<u32>,
}

/// A local binding visible at the completion site.
#[derive(Debug, Clone, PartialEq, Eq)]
pub struct LocalEntry {
    pub name: String,
    pub local: u32,
}

/// The aggregate result of a completion request: where exactly the cursor
/// is, syntax-wise. Constructed fresh per request and immutable afterwards;
/// node references point into the original-side trees of the request, never
/// into the discarded speculative tree.
#[derive(Debug, Clone, PartialEq, Eq)]
pub struct CompletionContext {
    pub config: CompletionConfig,
    pub position: FilePosition,
    /// The token before the cursor, in the original file.
    pub original_token: TokenInfo,
    /// The token before the cursor, in the macro-expanded file.
    pub token: TokenInfo,
    /// The crate of the current file.
    pub krate: u32,
    /// The module of the scope at the cursor.
    pub module: u32,
    pub expected_name: Option<ExpectedNameInfo>,
    pub expected_type: Option<usize>,
    /// The enclosing function, in the expanded file.
    pub function_def: Option<NodeLoc>,
    /// The enclosing impl block, in the expanded file.
    pub impl_def: Option<NodeLoc>,
    /// Whether the cursor sits in a `let` statement missing its semicolon.
    pub incomplete_let: bool,
    pub completion_location: Option<ImmediateLocation>,
    pub prev_sibling: Option<ImmediatePrevSibling>,
    pub previous_token: Option<TokenInfo>,
    pub ident_ctx: IdentContext,
    pub pattern_ctx: Option<PatternContext>,
    /// Derive macros already applied at the originating annotation, for
    /// duplicate suppression.
    pub existing_derives: Vec<u64>,
    pub locals: Vec<LocalEntry>,
    /// The names visible in the scope at the cursor.
    pub scope_entries: Vec<ScopeEntry>,
    pub visible_traits: Vec<u32>,
    /// The `Drop` trait's id, when known to the model.
    pub famous_drop: Option<u32>,
}

/// The mathematical model of a completion context: the context with its
/// vectors abstracted to sequences.
#[verifier::ext_equal]
pub struct CtxView {
    pub config: CompletionConfig,
    pub position: FilePosition,
    pub original_token: TokenInfo,
    pub token: TokenInfo,
    pub krate: u32,
    pub module: u32,
    pub expected_name: Option<ExpectedNameInfo>,
    pub expected_type: Option<usize>,
    pub function_def: Option<NodeLoc>,
    pub impl_def: Option<NodeLoc>,
    pub incomplete_let: bool,
    pub completion_location: Option<ImmediateLocation>,
    pub prev_sibling: Option<ImmediatePrevSibling>,
    pub previous_token: Option<TokenInfo>,
    pub ident_ctx: IdentContext,
    pub pattern_ctx: Option<PatternContext>,
    pub existing_derives: Seq<u64>,
    pub locals: Seq<LocalEntry>,
    pub scope_entries: Seq<ScopeEntry>,
    pub visible_traits: Seq<u32>,
    pub famous_drop: Option<u32>,
}

impl View for CompletionContext {
    type V = CtxView;

    open spec fn view(&self) -> CtxView {
        CtxView {
            config: self.config,
            position: self.position,
            original_token: self.original_token,
            token: self.token,
            krate: self.krate,
            module: self.module,
            expected_name: self.expected_name,
            expected_type: self.expected_type,
            function_def: self.function_def,
            impl_def: self.impl_def,
            incomplete_let: self.incomplete_let,
            completion_location: self.completion_location,
            prev_sibling: self.prev_sibling,
            previous_token: self.previous_token,
            ident_ctx: self.ident_ctx,
            pattern_ctx: self.pattern_ctx,
            existing_derives: self.existing_derives@,
            locals: self.locals@,
            scope_entries: self.scope_entries@,
            visible_traits: self.visible_traits@,
            famous_drop: self.famous_drop,
        }
    }
}

impl CompletionContext {
    /// The range the completion replaces.
    pub open spec fn spec_source_range(self) -> TextRange {
        if self.token.kind == SyntaxKind::CharLit {
            // The user has typed only the quote of a lifetime; complete the
            // single following byte (clamped at the text-size limit).
            TextRange {
                start: self.original_token.range.start,
                end: if self.original_token.range.start < usize::MAX {
                    (self.original_token.range.start + 1) as usize
                } else {
                    self.original_token.range.start
                },
            }
        } else if self.token.kind == SyntaxKind::Ident || self.token.kind
            == SyntaxKind::LifetimeIdent || self.token.kind == SyntaxKind::Underscore
            || self.token.kind.spec_is_keyword() {
            self.original_token.range
        } else {
            TextRange { start: self.position.offset, end: self.position.offset }
        }
    }

    /// The range of the identifier being completed: the kind is taken from
    /// the macro-expanded token, the range from the original one.
    pub fn source_range(&self) -> (r: TextRange)
        ensures
            r == self.spec_source_range(),
    {
        let kind = self.token.kind;
        if kind == SyntaxKind::CharLit {
            let s = self.original_token.range.start;
            if s < usize::MAX {
                TextRange { start: s, end: s + 1 }
            } else {
                TextRange { start: s, end: s }
            }
        } else if kind == SyntaxKind::Ident || kind == SyntaxKind::LifetimeIdent || kind
            == SyntaxKind::Underscore || kind.is_keyword() {
            self.original_token.range
        } else {
            TextRange { start: self.position.offset, end: self.position.offset }
        }
    }

    pub fn previous_token_is(&self, kind: SyntaxKind) -> (r: bool)
        ensures
            r == match self.previous_token {
                Option::Some(t) => t.kind == kind,
                Option::None => false,
            },
    {
        match &self.previous_token {
            Option::Some(t) => t.kind == kind,
            Option::None => false,
        }
    }

    pub fn nameref_ctx(&self) -> (r: Option<&NameRefContext>)
        ensures
            match self.ident_ctx {
                IdentContext::NameRef(n) => r is Some && *r->0 == n,
                _ => r is None,
            },
    {
        match &self.ident_ctx {
            IdentContext::NameRef(it) => Some(it),
            _ => None,
        }
    }

    pub fn name_ctx(&self) -> (r: Option<&NameContext>)
        ensures
            match self.ident_ctx {
                IdentContext::Name(n) => r is Some && *r->0 == n,
                _ => r is None,
            },
    {
        match &self.ident_ctx {
            IdentContext::Name(it) => Some(it),
            _ => None,
        }
    }

    pub fn lifetime_ctx(&self) -> (r: Option<&LifetimeContext>)
        ensures
            match self.ident_ctx {
                IdentContext::Lifetime(l) => r is Some && *r->0 == l,
                _ => r is None,
            },
    {
        match &self.ident_ctx {
            IdentContext::Lifetime(it) => Some(it),
            _ => None,
        }
    }

    /// The receiver of a dot access, when the cursor completes one; a node
    /// in the original tree.
    pub open spec fn spec_dot_receiver(self) -> Option<usize> {
        match self.ident_ctx {
            IdentContext::NameRef(n) => match n.dot_access {
                Option::Some(DotAccess::Field { receiver, .. }) => receiver,
                Option::Some(DotAccess::Method { receiver, .. }) => receiver,
                Option::None => Option::None,
            },
            _ => Option::None,
        }
    }

    pub fn dot_receiver(&self) -> (r: Option<usize>)
        ensures
            r == self.spec_dot_receiver(),
    {
        match &self.ident_ctx {
            IdentContext::NameRef(n) => match &n.dot_access {
                Option::Some(DotAccess::Field { receiver, .. }) => *receiver,
                Option::Some(DotAccess::Method { receiver, .. }) => *receiver,
                Option::None => None,
            },
            _ => None,
        }
    }

    pub fn has_dot_receiver(&self) -> (r: bool)
        ensures
            r == (self.spec_dot_receiver() is Some),
    {
        self.dot_receiver().is_some()
    }

    pub fn expects_assoc_item(&self) -> (r: bool)
        ensures
            r == match self.completion_location {
                Option::Some(ImmediateLocation::Trait) => true,
                Option::Some(ImmediateLocation::Impl) => true,
                _ => false,
            },
    {
        match self.completion_location {
            Option::Some(ImmediateLocation::Trait) => true,
            Option::Some(ImmediateLocation::Impl) => true,
            _ => false,
        }
    }

    pub fn expects_variant(&self) -> (r: bool)
        ensures
            r == match self.ident_ctx {
                IdentContext::Name(n) => n.kind == NameKind::Variant,
                _ => false,
            },
    {
        match &self.ident_ctx {
            IdentContext::Name(n) => n.kind == NameKind::Variant,
            _ => false,
        }
    }

    pub fn expects_non_trait_assoc_item(&self) -> (r: bool)
        ensures
            r == (self.completion_location == Option::Some(ImmediateLocation::Impl)),
    {
        match self.completion_location {
            Option::Some(ImmediateLocation::Impl) => true,
            _ => false,
        }
    }

    pub fn expects_item(&self) -> (r: bool)
        ensures
            r == (self.completion_location == Option::Some(ImmediateLocation::ItemList)),
    {
        match self.completion_location {
            Option::Some(ImmediateLocation::ItemList) => true,
            _ => false,
        }
    }

    /// A provisional generic-argument heuristic; approximate rather than
    /// load-bearing.
    pub fn expects_generic_arg(&self) -> (r: bool)
        ensures
            r == match self.completion_location {
                Option::Some(ImmediateLocation::GenericArgList(_)) => true,
                _ => false,
            },
    {
        match self.completion_location {
            Option::Some(ImmediateLocation::GenericArgList(_)) => true,
            _ => false,
        }
    }

    pub fn has_block_expr_parent(&self) -> (r: bool)
        ensures
            r == (self.completion_location == Option::Some(ImmediateLocation::StmtList)),
    {
        match self.completion_location {
            Option::Some(ImmediateLocation::StmtList) => true,
            _ => false,
        }
    }

    pub fn expects_ident_ref_expr(&self) -> (r: bool)
        ensures
            r == (self.completion_location == Option::Some(ImmediateLocation::RefExpr)),
    {
        match self.completion_location {
            Option::Some(ImmediateLocation::RefExpr) => true,
            _ => false,
        }
    }

    /// Whether the cursor completes a field declaration: a tuple-struct
    /// field slot, or a record-field name.
    pub open spec fn spec_expect_field(self) -> bool {
        self.completion_location == Option::Some(ImmediateLocation::TupleField) || match self
            .ident_ctx {
            IdentContext::Name(n) => n.kind == NameKind::RecordField,
            _ => false,
        }
    }

    pub fn expect_field(&self) -> (r: bool)
        ensures
            r == self.spec_expect_field(),
    {
        match self.completion_location {
            Option::Some(ImmediateLocation::TupleField) => true,
            _ => match &self.ident_ctx {
                IdentContext::Name(n) => n.kind == NameKind::RecordField,
                _ => false,
            },
        }
    }

    /// Whether the cursor is right after an unfinished trait or impl
    /// header; approximate rather than load-bearing.
    pub fn has_unfinished_impl_or_trait_prev_sibling(&self) -> (r: bool)
        ensures
            r == match self.prev_sibling {
                Option::Some(ImmediatePrevSibling::ImplDefType) => true,
                Option::Some(ImmediatePrevSibling::TraitDefName) => true,
                _ => false,
            },
    {
        match self.prev_sibling {
            Option::Some(ImmediatePrevSibling::ImplDefType) => true,
            Option::Some(ImmediatePrevSibling::TraitDefName) => true,
            _ => false,
        }
    }

    pub fn has_impl_prev_sibling(&self) -> (r: bool)
        ensures
            r == (self.prev_sibling == Option::Some(ImmediatePrevSibling::ImplDefType)),
    {
        match self.prev_sibling {
            Option::Some(ImmediatePrevSibling::ImplDefType) => true,
            _ => false,
        }
    }

    pub fn has_visibility_prev_sibling(&self) -> (r: bool)
        ensures
            r == (self.prev_sibling == Option::Some(ImmediatePrevSibling::Visibility)),
    {
        match self.prev_sibling {
            Option::Some(ImmediatePrevSibling::Visibility) => true,
            _ => false,
        }
    }

    pub fn after_if(&self) -> (r: bool)
        ensures
            r == (self.prev_sibling == Option::Some(ImmediatePrevSibling::IfExpr)),
    {
        match self.prev_sibling {
            Option::Some(ImmediatePrevSibling::IfExpr) => true,
            _ => false,
        }
    }

    /// Whether a path completion is ruled out by the immediate
    /// surroundings; approximate rather than load-bearing.
    pub open spec fn spec_is_path_disallowed(self) -> bool {
        ||| (match self.previous_token {
            Option::Some(t) => t.kind == SyntaxKind::UnsafeKw,
            Option::None => false,
        })
        ||| self.prev_sibling == Option::Some(ImmediatePrevSibling::Attribute)
        ||| self.prev_sibling == Option::Some(ImmediatePrevSibling::Visibility)
        ||| (match self.completion_location {
            Option::Some(ImmediateLocation::RecordPat(_)) => true,
            Option::Some(ImmediateLocation::RecordExpr(_)) => true,
            _ => false,
        })
        ||| (match self.ident_ctx {
            IdentContext::Name(n) => n.kind == NameKind::Module || n.kind == NameKind::Rename,
            _ => false,
        })
    }

    pub fn is_path_disallowed(&self) -> (r: bool)
        ensures
            r == self.spec_is_path_disallowed(),
    {
        if self.previous_token_is(SyntaxKind::UnsafeKw) {
            return true;
        }
        match self.prev_sibling {
            Option::Some(ImmediatePrevSibling::Attribute) => {
                return true;
            },
            Option::Some(ImmediatePrevSibling::Visibility) => {
                return true;
            },
            _ => {},
        }
        match self.completion_location {
            Option::Some(ImmediateLocation::RecordPat(_)) => {
                return true;
            },
            Option::Some(ImmediateLocation::RecordExpr(_)) => {
                return true;
            },
            _ => {},
        }
        match &self.ident_ctx {
            IdentContext::Name(n) => n.kind == NameKind::Module || n.kind == NameKind::Rename,
            _ => false,
        }
    }

    /// The path context of the completion, when the cursor completes a path
    /// segment.
    pub open spec fn spec_path_context(self) -> Option<PathCompletionCtx> {
        match self.ident_ctx {
            IdentContext::NameRef(n) => n.path_ctx,
            _ => Option::None,
        }
    }

    pub fn path_context(&self) -> (r: Option<&PathCompletionCtx>)
        ensures
            match self.spec_path_context() {
                Option::Some(p) => r is Some && *r->0 == p,
                Option::None => r is None,
            },
    {
        match &self.ident_ctx {
            IdentContext::NameRef(n) => match &n.path_ctx {
                Option::Some(p) => Some(p),
                Option::None => None,
            },
            _ => None,
        }
    }

    pub fn expects_expression(&self) -> (r: bool)
        ensures
            r == match self.spec_path_context() {
                Option::Some(p) => p.kind matches PathKind::Expr { .. },
                Option::None => false,
            },
    {
        match self.path_context() {
            Option::Some(p) => match p.kind {
                PathKind::Expr { .. } => true,
                _ => false,
            },
            Option::None => false,
        }
    }

    /// Whether the completed path is qualified or absolute.
    pub open spec fn spec_is_non_trivial_path(self) -> bool {
        match self.spec_path_context() {
            Option::Some(p) => p.is_absolute_path || p.qualifier is Some,
            Option::None => false,
        }
    }

    pub fn is_non_trivial_path(&self) -> (r: bool)
        ensures
            r == self.spec_is_non_trivial_path(),
    {
        match self.path_context() {
            Option::Some(p) => p.is_absolute_path || p.qualifier.is_some(),
            Option::None => false,
        }
    }

    /// The qualifier path node (in the original tree), when one exists.
    pub open spec fn spec_path_qual(self) -> Option<usize> {
        match self.spec_path_context() {
            Option::Some(p) => match p.qualifier {
                Option::Some(q) => Option::Some(q.path),
                Option::None => Option::None,
            },
            Option::None => Option::None,
        }
    }

    pub fn path_qual(&self) -> (r: Option<usize>)
        ensures
            r == self.spec_path_qual(),
    {
        match self.path_context() {
            Option::Some(p) => match &p.qualifier {
                Option::Some(q) => Some(q.path),
                Option::None => None,
            },
            Option::None => None,
        }
    }

    pub fn path_kind(&self) -> (r: Option<PathKind>)
        ensures
            r == match self.spec_path_context() {
                Option::Some(p) => Option::Some(p.kind),
                Option::None => Option::<PathKind>::None,
            },
    {
        match self.path_context() {
            Option::Some(p) => Some(p.kind),
            Option::None => None,
        }
    }

    /// Hidden-from-docs items are only completed within their defining
    /// crate.
    pub open spec fn spec_is_doc_hidden(self, attrs: AttrData, defining_crate: u32) -> bool {
        self.krate != defining_crate && attrs.doc_hidden
    }

    pub fn is_doc_hidden(&self, attrs: &AttrData, defining_crate: u32) -> (r: bool)
        ensures
            r == self.spec_is_doc_hidden(*attrs, defining_crate),
    {
        self.krate != defining_crate && attrs.doc_hidden
    }

    /// The visibility filter: hidden when not visible from the completion
    /// module (unless private-editable completion is enabled and the
    /// defining source root is editable), and hidden when the item is
    /// hidden from docs in another crate.
    pub open spec fn spec_is_visible_impl(
        self,
        sema: Semantics,
        vis: ItemVisibility,
        attrs: AttrData,
        defining_crate: u32,
    ) -> Visible {
        if !vis.spec_visible_from(self.module) {
            if !self.config.enable_private_editable {
                Visible::No
            } else {
                if 0 <= defining_crate < sema.crates.len() {
                    let root_file = sema.crates[defining_crate as int].root_file;
                    match sema.spec_file_source_root(root_file) {
                        Option::Some(root) => match sema.spec_root_is_library(root) {
                            Option::Some(is_library) => if !is_library {
                                Visible::Editable
                            } else {
                                Visible::No
                            },
                            Option::None => Visible::No,
                        },
                        Option::None => Visible::No,
                    }
                } else {
                    Visible::No
                }
            }
        } else if self.spec_is_doc_hidden(attrs, defining_crate) {
            Visible::No
        } else {
            Visible::Yes
        }
    }

    pub fn is_visible_impl(
        &self,
        sema: &Semantics,
        vis: &ItemVisibility,
        attrs: &AttrData,
        defining_crate: u32,
    ) -> (r: Visible)
        ensures
            r == self.spec_is_visible_impl(*sema, *vis, *attrs, defining_crate),
    {
        if !vis.is_visible_from(self.module) {
            if !self.config.enable_private_editable {
                return Visible::No;
            }
            // When the defining location is editable, private items are
            // offered as well.
            let dc = defining_crate as usize;
            if dc < sema.crates.len() {
                let root_file = sema.crates[dc].root_file;
                match sema.file_source_root(root_file) {
                    Option::Some(root) => match sema.root_is_library(root) {
                        Option::Some(is_library) => {
                            if !is_library {
                                return Visible::Editable;
                            } else {
                                return Visible::No;
                            }
                        },
                        Option::None => {
                            return Visible::No;
                        },
                    },
                    Option::None => {
                        return Visible::No;
                    },
                }
            } else {
                return Visible::No;
            }
        }
        if self.is_doc_hidden(attrs, defining_crate) {
            Visible::No
        } else {
            Visible::Yes
        }
    }

    /// Whether a candidate item is visible and not hidden from docs at the
    /// completion site.
    pub fn is_visible(&self, sema: &Semantics, item: &VisibleItemData) -> (r: Visible)
        ensures
            r == self.spec_is_visible_impl(*sema, item.vis, item.attrs, item.krate),
    {
        self.is_visible_impl(sema, &item.vis, &item.attrs, item.krate)
    }

    /// Whether a scope definition is hidden from docs at the completion
    /// site.
    pub open spec fn spec_is_scope_def_hidden(self, entry: ScopeEntry) -> bool {
        match (entry.attrs, entry.krate) {
            (Option::Some(attrs), Option::Some(krate)) => self.spec_is_doc_hidden(attrs, krate),
            _ => false,
        }
    }

    pub fn is_scope_def_hidden(&self, entry: &ScopeEntry) -> (r: bool)
        ensures
            r == self.spec_is_scope_def_hidden(*entry),
    {
        match (&entry.attrs, &entry.krate) {
            (Option::Some(attrs), Option::Some(krate)) => self.is_doc_hidden(attrs, *krate),
            _ => false,
        }
    }

    /// Whether an item in a namespace is hidden from docs at the completion
    /// site.
    pub open spec fn spec_is_item_hidden(self, item: ItemInNsData) -> bool {
        match (item.attrs, item.krate) {
            (Option::Some(attrs), Option::Some(krate)) => self.spec_is_doc_hidden(attrs, krate),
            _ => false,
        }
    }

    pub fn is_item_hidden(&self, item: &ItemInNsData) -> (r: bool)
        ensures
            r == self.spec_is_item_hidden(*item),
    {
        match (&item.attrs, &item.krate) {
            (Option::Some(attrs), Option::Some(krate)) => self.is_doc_hidden(attrs, *krate),
            _ => false,
        }
    }

    /// The traits in scope, with the `Drop` trait removed.
    pub open spec fn spec_traits_in_scope(self) -> Seq<u32> {
        self.visible_traits@.filter(
            |t: u32|
                match self.famous_drop {
                    Option::Some(d) => t != d,
                    Option::None => true,
                },
        )
    }

    pub fn traits_in_scope(&self) -> (r: Vec<u32>)
        ensures
            r@ == self.spec_traits_in_scope(),
    {
        let mut acc: Vec<u32> = Vec::new();
        let mut i: usize = 0;
        proof {
            assert(self.visible_traits@.take(0).filter(
                |t: u32|
                    match self.famous_drop {
                        Option::Some(d) => t != d,
                        Option::None => true,
                    },
            ) =~= Seq::<u32>::empty());
        }
        while i < self.visible_traits.len()
            invariant
                i <= self.visible_traits.len(),
                acc@ == self.visible_traits@.take(i as int).filter(
                    |t: u32|
                        match self.famous_drop {
                            Option::Some(d) => t != d,
                            Option::None => true,
                        },
                ),
            decreases self.visible_traits.len() - i,
        {
            let t = self.visible_traits[i];
            let keep = match self.famous_drop {
                Option::Some(d) => t != d,
                Option::None => true,
            };
            proof {
                assert(self.visible_traits@.take(i + 1).drop_last() =~= self.visible_traits@.take(
                    i as int,
                ));
                reveal(Seq::filter);
            }
            if keep {
                acc.push(t);
            }
            i = i + 1;
        }
        proof {
            assert(self.visible_traits@.take(self.visible_traits@.len() as int)
                =~= self.visible_traits@);
        }
        acc
    }

    /// All names in scope whose definitions are not hidden from docs, in
    /// scope order.
    pub open spec fn spec_process_all_names(self) -> Seq<ScopeEntry> {
        self.scope_entries@.filter(|e: ScopeEntry| !self.spec_is_scope_def_hidden(e))
    }

    pub fn process_all_names(&self) -> (r: Vec<ScopeEntry>)
        ensures
            r@ == self.spec_process_all_names(),
    {
        let mut acc: Vec<ScopeEntry> = Vec::new();
        let mut i: usize = 0;
        proof {
            assert(self.scope_entries@.take(0).filter(
                |e: ScopeEntry| !self.spec_is_scope_def_hidden(e),
            ) =~= Seq::<ScopeEntry>::empty());
        }
        while i < self.scope_entries.len()
            invariant
                i <= self.scope_entries.len(),
                acc@ == self.scope_entries@.take(i as int).filter(
                    |e: ScopeEntry| !self.spec_is_scope_def_hidden(e),
                ),
            decreases self.scope_entries.len() - i,
        {
            let hidden = self.is_scope_def_hidden(&self.scope_entries[i]);
            proof {
                assert(self.scope_entries@.take(i + 1).drop_last() =~= self.scope_entries@.take(
                    i as int,
                ));
                reveal(Seq::filter);
            }
            if !hidden {
                let e = duplicate_scope_entry(&self.scope_entries[i]);
                acc.push(e);
            }
            i = i + 1;
        }
        proof {
            assert(self.scope_entries@.take(self.scope_entries@.len() as int)
                =~= self.scope_entries@);
        }
        acc
    }

    /// All names in scope, unfiltered, in scope order.
    pub fn process_all_names_raw(&self) -> (r: Vec<ScopeEntry>)
        ensures
            r@ == self.scope_entries@,
    {
        let mut acc: Vec<ScopeEntry> = Vec::new();
        let mut i: usize = 0;
        while i < self.scope_entries.len()
            invariant
                i <= self.scope_entries.len(),
                acc@ == self.scope_entries@.take(i as int),
            decreases self.scope_entries.len() - i,
        {
            let e = duplicate_scope_entry(&self.scope_entries[i]);
            acc.push(e);
            proof {
                assert(acc@ =~= self.scope_entries@.take(i + 1));
            }
            i = i + 1;
        }
        proof {
            assert(self.scope_entries@.take(self.scope_entries@.len() as int)
                =~= self.scope_entries@);
        }
        acc
    }

    /// Whether a trait is one of the operator traits, judged by its `lang`
    /// attribute.
    pub fn is_ops_trait(&self, trait_attrs: &AttrData) -> (r: bool)
        ensures
            r == match trait_attrs.lang {
                Option::Some(lang) => spec_is_op_trait_lang_name(lang@),
                Option::None => false,
            },
    {
        match &trait_attrs.lang {
            Option::Some(lang) => is_op_trait_lang_name(lang),
            Option::None => false,
        }
    }
}

/// An exact copy of a scope entry.
fn duplicate_scope_entry(e: &ScopeEntry) -> (r: ScopeEntry)
    ensures
        r == *e,
{
    ScopeEntry {
        name: e.name.clone(),
        is_local: e.is_local,
        local: e.local,
        attrs: match &e.attrs {
            Option::Some(a) => Some(
                AttrData {
                    doc_hidden: a.doc_hidden,
                    lang: match &a.lang {
                        Option::Some(l) => Some(l.clone()),
                        Option::None => None,
                    },
                },
            ),
            Option::None => None,
        },
        krate: e.krate,
    }
}

/// Whether `s` is the `lang` name of an operator trait.
pub open spec fn spec_is_op_trait_lang_name(s: Seq<char>) -> bool {
    ||| s == "add_assign"@
    ||| s == "add"@
    ||| s == "bitand_assign"@
    ||| s == "bitand"@
    ||| s == "bitor_assign"@
    ||| s == "bitor"@
    ||| s == "bitxor_assign"@
    ||| s == "bitxor"@
    ||| s == "deref_mut"@
    ||| s == "deref"@
    ||| s == "div_assign"@
    ||| s == "div"@
    ||| s == "eq"@
    ||| s == "fn_mut"@
    ||| s == "fn_once"@
    ||| s == "fn"@
    ||| s == "index_mut"@
    ||| s == "index"@
    ||| s == "mul_assign"@
    ||| s == "mul"@
    ||| s == "neg"@
    ||| s == "not"@
    ||| s == "partial_ord"@
    ||| s == "rem_assign"@
    ||| s == "rem"@
    ||| s == "shl_assign"@
    ||| s == "shl"@
    ||| s == "shr_assign"@
    ||| s == "shr"@
    ||| s == "sub"@
}

/// Whether the string equals the literal, by view.
fn str_eq_lit(s: &String, lit: &str) -> (r: bool)
    ensures
        r == (s@ == lit@),
{
    let o: String = <String as StringExecFns>::from_str(lit);
    s.eq(&o)
}

pub fn is_op_trait_lang_name(s: &String) -> (r: bool)
    ensures
        r == spec_is_op_trait_lang_name(s@),
{
    str_eq_lit(s, "add_assign") || str_eq_lit(s, "add") || str_eq_lit(s, "bitand_assign")
        || str_eq_lit(s, "bitand") || str_eq_lit(s, "bitor_assign") || str_eq_lit(s, "bitor")
        || str_eq_lit(s, "bitxor_assign") || str_eq_lit(s, "bitxor") || str_eq_lit(s, "deref_mut")
        || str_eq_lit(s, "deref") || str_eq_lit(s, "div_assign") || str_eq_lit(s, "div")
        || str_eq_lit(s, "eq") || str_eq_lit(s, "fn_mut") || str_eq_lit(s, "fn_once")
        || str_eq_lit(s, "fn") || str_eq_lit(s, "index_mut") || str_eq_lit(s, "index")
        || str_eq_lit(s, "mul_assign") || str_eq_lit(s, "mul") || str_eq_lit(s, "neg")
        || str_eq_lit(s, "not") || str_eq_lit(s, "partial_ord") || str_eq_lit(s, "rem_assign")
        || str_eq_lit(s, "rem") || str_eq_lit(s, "shl_assign") || str_eq_lit(s, "shl")
        || str_eq_lit(s, "shr_assign") || str_eq_lit(s, "shr") || str_eq_lit(s, "sub")
}

} // verus!
