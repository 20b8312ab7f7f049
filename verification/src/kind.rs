//! The node-kind enumeration of the external grammar, and the closed
//! kind classes the classifier dispatches on.

use vstd::prelude::*;

verus! {

/// Kind tag of a syntax node or token. Classification is a fixed dispatch
/// over this enumeration; kinds the engine never inspects are collapsed
/// into representative variants (`Error` for unrecognized nodes).
#[derive(Clone, Copy, Debug, PartialEq, Eq, Structural)]
pub enum SyntaxKind {
    // Tokens.
    Ident,
    LifetimeIdent,
    Underscore,
    CharLit,
    StringLit,
    IntNumber,
    FloatNumber,
    Whitespace,
    Comment,
    Comma,
    Semicolon,
    Colon,
    ColonColon,
    Eq,
    Amp,
    Bang,
    Dot,
    DotDot,
    LParen,
    RParen,
    LCurly,
    RCurly,
    LAngle,
    RAngle,
    Pound,
    At,
    ThinArrow,
    Pipe,
    // Keyword tokens.
    FnKw,
    LetKw,
    IfKw,
    ElseKw,
    MatchKw,
    ForKw,
    WhileKw,
    LoopKw,
    InKw,
    MutKw,
    RefKw,
    PubKw,
    UnsafeKw,
    StructKw,
    EnumKw,
    TraitKw,
    ImplKw,
    ModKw,
    ConstKw,
    StaticKw,
    UseKw,
    TypeKw,
    SuperKw,
    SelfKw,
    // Nodes: names and paths.
    Name,
    NameRef,
    Lifetime,
    Path,
    PathSegment,
    PathType,
    PathExpr,
    PathPat,
    InferType,
    GenericArgList,
    // Nodes: items.
    SourceFile,
    Fn,
    Struct,
    Enum,
    Union,
    Trait,
    Impl,
    Module,
    Const,
    Static,
    TypeAlias,
    Use,
    UseTree,
    UseTreeList,
    ExternBlock,
    ExternCrate,
    MacroRules,
    MacroDef,
    MacroCall,
    Variant,
    RecordField,
    TupleField,
    RecordFieldList,
    TupleFieldList,
    Rename,
    ItemList,
    AssocItemList,
    ExternItemList,
    ConstParam,
    TypeParam,
    LifetimeParam,
    Visibility,
    Attr,
    Meta,
    TokenTree,
    // Nodes: expressions.
    BlockExpr,
    StmtList,
    ExprStmt,
    LetStmt,
    LetExpr,
    IfExpr,
    MatchExpr,
    MatchArmList,
    MatchArm,
    ForExpr,
    WhileExpr,
    LoopExpr,
    BreakExpr,
    ContinueExpr,
    Label,
    CallExpr,
    MethodCallExpr,
    FieldExpr,
    RefExpr,
    ArgList,
    ParamList,
    Param,
    SelfParam,
    ClosureExpr,
    RecordExpr,
    RecordExprFieldList,
    RecordExprField,
    Literal,
    MacroExpr,
    MacroType,
    MacroPat,
    // Nodes: patterns.
    IdentPat,
    TupleStructPat,
    RecordPat,
    RecordPatFieldList,
    RecordPatField,
    TuplePat,
    WildcardPat,
    RetType,
    GenericParamList,
    VariantList,
    // Parse-error node.
    Error,
}

impl SyntaxKind {
    /// Whether this kind is a keyword token.
    pub open spec fn spec_is_keyword(self) -> bool {
        match self {
            SyntaxKind::FnKw
            | SyntaxKind::LetKw
            | SyntaxKind::IfKw
            | SyntaxKind::ElseKw
            | SyntaxKind::MatchKw
            | SyntaxKind::ForKw
            | SyntaxKind::WhileKw
            | SyntaxKind::LoopKw
            | SyntaxKind::InKw
            | SyntaxKind::MutKw
            | SyntaxKind::RefKw
            | SyntaxKind::PubKw
            | SyntaxKind::UnsafeKw
            | SyntaxKind::StructKw
            | SyntaxKind::EnumKw
            | SyntaxKind::TraitKw
            | SyntaxKind::ImplKw
            | SyntaxKind::ModKw
            | SyntaxKind::ConstKw
            | SyntaxKind::StaticKw
            | SyntaxKind::UseKw
            | SyntaxKind::TypeKw
            | SyntaxKind::SuperKw
            | SyntaxKind::SelfKw => true,
            _ => false,
        }
    }

    pub fn is_keyword(self) -> (r: bool)
        ensures
            r == self.spec_is_keyword(),
    {
        match self {
            SyntaxKind::FnKw
            | SyntaxKind::LetKw
            | SyntaxKind::IfKw
            | SyntaxKind::ElseKw
            | SyntaxKind::MatchKw
            | SyntaxKind::ForKw
            | SyntaxKind::WhileKw
            | SyntaxKind::LoopKw
            | SyntaxKind::InKw
            | SyntaxKind::MutKw
            | SyntaxKind::RefKw
            | SyntaxKind::PubKw
            | SyntaxKind::UnsafeKw
            | SyntaxKind::StructKw
            | SyntaxKind::EnumKw
            | SyntaxKind::TraitKw
            | SyntaxKind::ImplKw
            | SyntaxKind::ModKw
            | SyntaxKind::ConstKw
            | SyntaxKind::StaticKw
            | SyntaxKind::UseKw
            | SyntaxKind::TypeKw
            | SyntaxKind::SuperKw
            | SyntaxKind::SelfKw => true,
            _ => false,
        }
    }

    /// Whether nodes of this kind are items of the grammar.
    pub open spec fn spec_is_item(self) -> bool {
        match self {
            SyntaxKind::Const
            | SyntaxKind::Enum
            | SyntaxKind::ExternBlock
            | SyntaxKind::ExternCrate
            | SyntaxKind::Fn
            | SyntaxKind::Impl
            | SyntaxKind::MacroCall
            | SyntaxKind::MacroRules
            | SyntaxKind::MacroDef
            | SyntaxKind::Module
            | SyntaxKind::Static
            | SyntaxKind::Struct
            | SyntaxKind::Trait
            | SyntaxKind::TypeAlias
            | SyntaxKind::Union
            | SyntaxKind::Use => true,
            _ => false,
        }
    }

    pub fn is_item(self) -> (r: bool)
        ensures
            r == self.spec_is_item(),
    {
        match self {
            SyntaxKind::Const
            | SyntaxKind::Enum
            | SyntaxKind::ExternBlock
            | SyntaxKind::ExternCrate
            | SyntaxKind::Fn
            | SyntaxKind::Impl
            | SyntaxKind::MacroCall
            | SyntaxKind::MacroRules
            | SyntaxKind::MacroDef
            | SyntaxKind::Module
            | SyntaxKind::Static
            | SyntaxKind::Struct
            | SyntaxKind::Trait
            | SyntaxKind::TypeAlias
            | SyntaxKind::Union
            | SyntaxKind::Use => true,
            _ => false,
        }
    }

    /// Whether nodes of this kind are patterns.
    pub open spec fn spec_is_pat(self) -> bool {
        match self {
            SyntaxKind::IdentPat
            | SyntaxKind::TupleStructPat
            | SyntaxKind::RecordPat
            | SyntaxKind::PathPat
            | SyntaxKind::TuplePat
            | SyntaxKind::WildcardPat
            | SyntaxKind::MacroPat => true,
            _ => false,
        }
    }

    pub fn is_pat(self) -> (r: bool)
        ensures
            r == self.spec_is_pat(),
    {
        match self {
            SyntaxKind::IdentPat
            | SyntaxKind::TupleStructPat
            | SyntaxKind::RecordPat
            | SyntaxKind::PathPat
            | SyntaxKind::TuplePat
            | SyntaxKind::WildcardPat
            | SyntaxKind::MacroPat => true,
            _ => false,
        }
    }

    /// Whether nodes of this kind are name-like: a declared name, a name
    /// reference, or a lifetime.
    pub open spec fn spec_is_name_like(self) -> bool {
        match self {
            SyntaxKind::Name | SyntaxKind::NameRef | SyntaxKind::Lifetime => true,
            _ => false,
        }
    }

    pub fn is_name_like(self) -> (r: bool)
        ensures
            r == self.spec_is_name_like(),
    {
        match self {
            SyntaxKind::Name | SyntaxKind::NameRef | SyntaxKind::Lifetime => true,
            _ => false,
        }
    }

    /// Whether nodes of this kind are expressions.
    pub open spec fn spec_is_expr(self) -> bool {
        match self {
            SyntaxKind::BlockExpr
            | SyntaxKind::BreakExpr
            | SyntaxKind::CallExpr
            | SyntaxKind::ClosureExpr
            | SyntaxKind::ContinueExpr
            | SyntaxKind::FieldExpr
            | SyntaxKind::ForExpr
            | SyntaxKind::IfExpr
            | SyntaxKind::LetExpr
            | SyntaxKind::Literal
            | SyntaxKind::LoopExpr
            | SyntaxKind::MacroExpr
            | SyntaxKind::MatchExpr
            | SyntaxKind::MethodCallExpr
            | SyntaxKind::PathExpr
            | SyntaxKind::RecordExpr
            | SyntaxKind::RefExpr
            | SyntaxKind::WhileExpr => true,
            _ => false,
        }
    }

    pub fn is_expr(self) -> (r: bool)
        ensures
            r == self.spec_is_expr(),
    {
        match self {
            SyntaxKind::BlockExpr
            | SyntaxKind::BreakExpr
            | SyntaxKind::CallExpr
            | SyntaxKind::ClosureExpr
            | SyntaxKind::ContinueExpr
            | SyntaxKind::FieldExpr
            | SyntaxKind::ForExpr
            | SyntaxKind::IfExpr
            | SyntaxKind::LetExpr
            | SyntaxKind::Literal
            | SyntaxKind::LoopExpr
            | SyntaxKind::MacroExpr
            | SyntaxKind::MatchExpr
            | SyntaxKind::MethodCallExpr
            | SyntaxKind::PathExpr
            | SyntaxKind::RecordExpr
            | SyntaxKind::RefExpr
            | SyntaxKind::WhileExpr => true,
            _ => false,
        }
    }

    /// Whether nodes of this kind are type references.
    pub open spec fn spec_is_type(self) -> bool {
        match self {
            SyntaxKind::PathType | SyntaxKind::InferType | SyntaxKind::MacroType => true,
            _ => false,
        }
    }

    pub fn is_type(self) -> (r: bool)
        ensures
            r == self.spec_is_type(),
    {
        match self {
            SyntaxKind::PathType | SyntaxKind::InferType | SyntaxKind::MacroType => true,
            _ => false,
        }
    }

    /// Whether this kind is trivia (skipped when looking for the previous
    /// meaningful token).
    pub open spec fn spec_is_trivia(self) -> bool {
        match self {
            SyntaxKind::Whitespace | SyntaxKind::Comment => true,
            _ => false,
        }
    }

    pub fn is_trivia(self) -> (r: bool)
        ensures
            r == self.spec_is_trivia(),
    {
        match self {
            SyntaxKind::Whitespace | SyntaxKind::Comment => true,
            _ => false,
        }
    }
}

/// The classes of nodes looked up by the "nearest node of a class at an
/// offset" searches.
#[derive(Clone, Copy, Debug, PartialEq, Eq, Structural)]
pub enum KindClass {
    /// Any item node.
    Item,
    /// A macro-argument token tree.
    TokenTree,
    /// A declared name, name reference, or lifetime.
    NameLike,
    /// A name reference only.
    NameRefOnly,
    /// A lifetime node only.
    LifetimeOnly,
    /// An attribute node.
    Attr,
    /// A macro call.
    MacroCall,
    /// A use-tree list.
    UseTreeList,
    /// A parameter list.
    ParamList,
    /// A path segment.
    PathSegment,
    /// Any pattern node.
    Pat,
    /// Any expression node.
    Expr,
    /// A declared name only.
    NameOnly,
    /// Any type-reference node.
    TypeNode,
    /// A parameter node only.
    ParamOnly,
    /// A meta node only.
    MetaOnly,
}

/// Whether `kind` belongs to the class `class`.
pub open spec fn spec_kind_in_class(kind: SyntaxKind, class: KindClass) -> bool {
    match class {
        KindClass::Item => kind.spec_is_item(),
        KindClass::TokenTree => kind == SyntaxKind::TokenTree,
        KindClass::NameLike => kind.spec_is_name_like(),
        KindClass::NameRefOnly => kind == SyntaxKind::NameRef,
        KindClass::LifetimeOnly => kind == SyntaxKind::Lifetime,
        KindClass::Attr => kind == SyntaxKind::Attr,
        KindClass::MacroCall => kind == SyntaxKind::MacroCall,
        KindClass::UseTreeList => kind == SyntaxKind::UseTreeList,
        KindClass::ParamList => kind == SyntaxKind::ParamList,
        KindClass::PathSegment => kind == SyntaxKind::PathSegment,
        KindClass::Pat => kind.spec_is_pat(),
        KindClass::Expr => kind.spec_is_expr(),
        KindClass::NameOnly => kind == SyntaxKind::Name,
        KindClass::TypeNode => kind.spec_is_type(),
        KindClass::ParamOnly => kind == SyntaxKind::Param,
        KindClass::MetaOnly => kind == SyntaxKind::Meta,
    }
}

pub fn kind_in_class(kind: SyntaxKind, class: KindClass) -> (r: bool)
    ensures
        r == spec_kind_in_class(kind, class),
{
    match class {
        KindClass::Item => kind.is_item(),
        KindClass::TokenTree => kind == SyntaxKind::TokenTree,
        KindClass::NameLike => kind.is_name_like(),
        KindClass::NameRefOnly => kind == SyntaxKind::NameRef,
        KindClass::LifetimeOnly => kind == SyntaxKind::Lifetime,
        KindClass::Attr => kind == SyntaxKind::Attr,
        KindClass::MacroCall => kind == SyntaxKind::MacroCall,
        KindClass::UseTreeList => kind == SyntaxKind::UseTreeList,
        KindClass::ParamList => kind == SyntaxKind::ParamList,
        KindClass::PathSegment => kind == SyntaxKind::PathSegment,
        KindClass::Pat => kind.is_pat(),
        KindClass::Expr => kind.is_expr(),
        KindClass::NameOnly => kind == SyntaxKind::Name,
        KindClass::TypeNode => kind.is_type(),
        KindClass::ParamOnly => kind == SyntaxKind::Param,
        KindClass::MetaOnly => kind == SyntaxKind::Meta,
    }
}

} // verus!
