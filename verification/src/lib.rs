//! A speculative completion-context resolution engine.
//!
//! Given a cursor position inside a source file, the library determines what
//! kind of syntactic entity is being typed at that position. It reconciles two
//! parse trees — the real file and a speculative copy with a placeholder
//! identifier inserted at the cursor — and keeps them synchronized through
//! macro and attribute expansion steps, stopping at the first point where the
//! two trees disagree. The final placeholder position is then classified into
//! a closed set of identifier contexts, path slots and pattern shapes, and the
//! expected type and name at the cursor are inferred from the enclosing
//! syntax.
//!
//! Parsing, macro expansion and type inference are external collaborators:
//! they are represented by [`sema::Semantics`], a deterministic table-driven
//! model of the semantic services the engine consumes.

pub mod construct;
pub mod classify;
pub mod context;
pub mod expand;
pub mod expect;
pub mod fieldlist;
pub mod kind;
pub mod patterns;
pub mod release;
pub mod sema;
pub mod text;
pub mod traitsolve;
pub mod tree;

pub use context::{CompletionConfig, CompletionContext, FilePosition};
pub use kind::SyntaxKind;
pub use sema::Semantics;
pub use text::TextRange;
