//! Completion of field-list positions: when the cursor declares a record
//! field, or sits in a tuple-struct field slot with no visibility written
//! yet, the three visibility keywords are offered.

use vstd::prelude::*;

use crate::context::CompletionContext;
use crate::patterns::ImmediatePrevSibling;

verus! {

/// One offered completion: a keyword label and the snippet inserted for
/// it.
#[derive(Debug, Clone, PartialEq, Eq)]
pub struct CompletionItem {
    pub label: String,
    pub snippet: String,
}

/// The accumulator the providers add their candidates to.
#[derive(Debug, Clone, PartialEq, Eq)]
pub struct Completions {
    pub items: Vec<CompletionItem>,
}

impl View for Completions {
    type V = Seq<(Seq<char>, Seq<char>)>;

    open spec fn view(&self) -> Seq<(Seq<char>, Seq<char>)> {
        self.items@.map_values(|it: CompletionItem| (it.label@, it.snippet@))
    }
}

impl Completions {
    pub fn new() -> (r: Completions)
        ensures
            r@ == Seq::<(Seq<char>, Seq<char>)>::empty(),
    {
        let r = Completions { items: Vec::new() };
        proof {
            assert(r@ =~= Seq::<(Seq<char>, Seq<char>)>::empty());
        }
        r
    }

    /// Add one keyword snippet.
    pub fn add_keyword_snippet(&mut self, kw: &str, snippet: &str)
        ensures
            final(self)@ == old(self)@.push((kw@, snippet@)),
    {
        let item = CompletionItem {
            label: kw.to_owned(),
            snippet: snippet.to_owned(),
        };
        self.items.push(item);
        proof {
            assert(self@ =~= old(self)@.push((kw@, snippet@)));
        }
    }
}

/// Whether the context is a field-declaration position with no visibility
/// keyword already written: a record-field name or a tuple-struct field
/// slot, without a preceding visibility sibling.
pub open spec fn spec_wants_visibility_keywords(ctx: CompletionContext) -> bool {
    ctx.spec_expect_field() && ctx.prev_sibling != Option::Some(ImmediatePrevSibling::Visibility)
}

/// The three visibility-keyword suggestions, as label/snippet views.
pub open spec fn spec_visibility_suggestions() -> Seq<(Seq<char>, Seq<char>)> {
    seq![
        ("pub(crate)"@, "pub(crate)"@),
        ("pub(super)"@, "pub(super)"@),
        ("pub"@, "pub"@),
    ]
}

/// Offer the visibility keywords in a field-list position: exactly the
/// three suggestions are added when the cursor declares a field and no
/// visibility token precedes it, and nothing is added otherwise.
pub fn complete_field_list(acc: &mut Completions, ctx: &CompletionContext)
    ensures
        spec_wants_visibility_keywords(*ctx) ==> final(acc)@ == old(acc)@
            + spec_visibility_suggestions(),
        !spec_wants_visibility_keywords(*ctx) ==> final(acc)@ == old(acc)@,
{
    if ctx.expect_field() && !ctx.has_visibility_prev_sibling() {
        acc.add_keyword_snippet("pub(crate)", "pub(crate)");
        acc.add_keyword_snippet("pub(super)", "pub(super)");
        acc.add_keyword_snippet("pub", "pub");
        proof {
            assert(acc@ =~= old(acc)@ + spec_visibility_suggestions());
        }
    }
}

} // verus!
