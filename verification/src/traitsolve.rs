//! Trait-goal solving decisions.
//!
//! The solver itself is an external engine; what the library owns is the
//! shape of a goal as far as the dispatch reads it, the early answer for
//! projection goals with an unknown self type, the canonicalization step,
//! the solver limits and fuel accounting, and the closure-trait lang-item
//! lookup.

use vstd::prelude::*;

use vstd::string::StringExecFns;

verus! {

/// A solver cache handle. Handles compare by identity: two handles are
/// equal exactly when they came from the same allocation token.
#[derive(Clone, Copy, Debug, PartialEq, Eq, Structural)]
pub struct ChalkCache {
    pub token: u64,
}

/// A fresh cache handle under the given identity token.
pub fn chalk_cache(token: u64) -> (r: ChalkCache)
    ensures
        r.token == token,
{
    ChalkCache { token }
}

/// The default solver limits, with explicit overrides taking precedence:
/// an overflow depth of 300 and a maximum goal size of 150.
pub fn chalk_solver_limits(overflow_depth: Option<u64>, max_size: Option<u64>) -> (r: (u64, u64))
    ensures
        r.0 == (match overflow_depth {
            Option::Some(d) => d,
            Option::None => 300u64,
        }),
        r.1 == (match max_size {
            Option::Some(m) => m,
            Option::None => 150u64,
        }),
{
    let d = match overflow_depth {
        Option::Some(d) => d,
        Option::None => 300,
    };
    let m = match max_size {
        Option::Some(m) => m,
        Option::None => 150,
    };
    (d, m)
}

/// The solver fuel: each poll burns one unit, and solving continues while
/// fuel remains.
#[derive(Clone, Copy, Debug, PartialEq, Eq, Structural)]
pub struct SolveFuel {
    pub remaining: i64,
}

impl SolveFuel {
    /// A fresh fuel counter, with an explicit limit taking precedence over
    /// the default of 100.
    pub fn new(limit: Option<i64>) -> (r: SolveFuel)
        ensures
            r.remaining == (match limit {
                Option::Some(l) => l,
                Option::None => 100i64,
            }),
    {
        SolveFuel {
            remaining: match limit {
                Option::Some(l) => l,
                Option::None => 100,
            },
        }
    }

    /// One continuation poll: burns a unit and reports whether fuel was
    /// left before the burn.
    pub fn should_continue(&mut self) -> (r: bool)
        requires
            old(self).remaining > i64::MIN,
        ensures
            final(self).remaining == old(self).remaining - 1,
            r == (old(self).remaining > 0),
    {
        let remaining = self.remaining;
        self.remaining = remaining - 1;
        remaining > 0
    }
}

/// A trait goal, reduced to the shape the dispatch reads.
#[derive(Clone, Copy, Debug, PartialEq, Eq, Structural)]
pub enum GoalShape {
    /// `T: Trait` must hold.
    HoldsImplemented { trait_id: u32 },
    /// A projection alias equation; the flag says whether the projection's
    /// self type is still an unresolved bound variable.
    HoldsAliasEqProjection { self_ty_is_bound_var: bool },
    /// Any other goal.
    Other,
}

/// A canonicalized goal in its environment.
#[derive(Clone, Copy, Debug, PartialEq, Eq, Structural)]
pub struct CanonicalGoal {
    pub shape: GoalShape,
}

/// A canonical goal wrapped in universes. Universes are not dealt with:
/// every query uses a single universe.
#[derive(Clone, Copy, Debug, PartialEq, Eq, Structural)]
pub struct UCanonicalGoal {
    pub canonical: CanonicalGoal,
    pub universes: u32,
}

/// How definite a partial solver answer is.
#[derive(Clone, Copy, Debug, PartialEq, Eq, Structural)]
pub enum Guidance {
    Definite(u64),
    Suggested(u64),
    Unknown,
}

/// A solver answer: a unique substitution, or an ambiguous answer with
/// guidance.
#[derive(Clone, Copy, Debug, PartialEq, Eq, Structural)]
pub enum Solution {
    Unique(u64),
    Ambig(Guidance),
}

/// What the trait-solve dispatch decides for a goal.
#[derive(Clone, Copy, Debug, PartialEq, Eq, Structural)]
pub enum TraitSolveStep {
    /// Answered without consulting the solver.
    Answer(Solution),
    /// Hand the canonicalized goal to the solver.
    Solve(UCanonicalGoal),
}

/// Solve a trait goal: a projection goal whose self type is still a bound
/// variable is answered as ambiguous-unknown at once — the solver would
/// call such a normalization impossible — and every other goal is wrapped
/// in a single universe and handed to the solver.
pub fn trait_solve_query(goal: &CanonicalGoal) -> (r: TraitSolveStep)
    ensures
        r == (match goal.shape {
            GoalShape::HoldsAliasEqProjection { self_ty_is_bound_var: true } =>
                TraitSolveStep::Answer(Solution::Ambig(Guidance::Unknown)),
            _ => TraitSolveStep::Solve(UCanonicalGoal { canonical: *goal, universes: 1u32 }),
        }),
{
    match goal.shape {
        GoalShape::HoldsAliasEqProjection { self_ty_is_bound_var } => {
            if self_ty_is_bound_var {
                TraitSolveStep::Answer(Solution::Ambig(Guidance::Unknown))
            } else {
                TraitSolveStep::Solve(UCanonicalGoal { canonical: *goal, universes: 1 })
            }
        },
        _ => TraitSolveStep::Solve(UCanonicalGoal { canonical: *goal, universes: 1 }),
    }
}

/// What a lang item resolves to.
#[derive(Clone, Copy, Debug, PartialEq, Eq, Structural)]
pub enum LangItemTarget {
    TraitId(u32),
    Other,
}

/// One crate's lang item.
#[derive(Debug, Clone, PartialEq, Eq)]
pub struct LangItemEntry {
    pub krate: u32,
    pub name: String,
    pub target: LangItemTarget,
}

/// The lang-item table of the database.
#[derive(Debug, Clone, PartialEq, Eq)]
pub struct LangItems {
    pub entries: Vec<LangItemEntry>,
}

/// First match for a (crate, name) lang-item query.
pub open spec fn spec_lang_item_from(
    entries: Seq<LangItemEntry>,
    krate: u32,
    name: Seq<char>,
    i: int,
) -> Option<LangItemTarget>
    decreases entries.len() - i,
{
    if i < 0 || i >= entries.len() {
        Option::None
    } else if entries[i].krate == krate && entries[i].name@ == name {
        Option::Some(entries[i].target)
    } else {
        spec_lang_item_from(entries, krate, name, i + 1)
    }
}

impl LangItems {
    pub open spec fn spec_lang_item(self, krate: u32, name: Seq<char>) -> Option<LangItemTarget> {
        spec_lang_item_from(self.entries@, krate, name, 0)
    }

    pub fn lang_item(&self, krate: u32, name: &String) -> (r: Option<LangItemTarget>)
        ensures
            r == self.spec_lang_item(krate, name@),
    {
        let mut i: usize = 0;
        while i < self.entries.len()
            invariant
                i <= self.entries.len(),
                spec_lang_item_from(self.entries@, krate, name@, 0) == spec_lang_item_from(
                    self.entries@,
                    krate,
                    name@,
                    i as int,
                ),
            decreases self.entries.len() - i,
        {
            if self.entries[i].krate == krate && self.entries[i].name.eq(name) {
                return Some(self.entries[i].target);
            }
            i = i + 1;
        }
        None
    }
}

/// A set of clauses assumed true: inside `fn foo<T: Default>(t: T)` the
/// clause `T: Default` is assumed. Types and traits are carried by id.
#[derive(Debug, Clone, PartialEq, Eq, Hash)]
pub struct TraitEnvironment {
    pub krate: u32,
    pub traits_from_clauses: Vec<(u32, u32)>,
}

/// The trait ids among the first `i` clauses whose self type is `ty`.
pub open spec fn spec_traits_for_ty_upto(clauses: Seq<(u32, u32)>, ty: u32, i: int) -> Seq<u32>
    decreases i,
{
    if i <= 0 || i > clauses.len() {
        Seq::empty()
    } else {
        let rest = spec_traits_for_ty_upto(clauses, ty, i - 1);
        if clauses[i - 1].0 == ty {
            rest.push(clauses[i - 1].1)
        } else {
            rest
        }
    }
}

impl TraitEnvironment {
    /// The empty environment of a crate: no clauses are assumed.
    pub fn empty(krate: u32) -> (r: TraitEnvironment)
        ensures
            r.krate == krate,
            r.traits_from_clauses@ =~= Seq::<(u32, u32)>::empty(),
    {
        TraitEnvironment { krate, traits_from_clauses: Vec::new() }
    }

    /// The traits assumed (by a clause) to be implemented for `ty`, in
    /// clause order.
    pub fn traits_in_scope_from_clauses(&self, ty: u32) -> (r: Vec<u32>)
        ensures
            r@ == spec_traits_for_ty_upto(
                self.traits_from_clauses@,
                ty,
                self.traits_from_clauses@.len() as int,
            ),
    {
        let mut acc: Vec<u32> = Vec::new();
        let mut i: usize = 0;
        while i < self.traits_from_clauses.len()
            invariant
                i <= self.traits_from_clauses.len(),
                acc@ == spec_traits_for_ty_upto(self.traits_from_clauses@, ty, i as int),
            decreases self.traits_from_clauses.len() - i,
        {
            if self.traits_from_clauses[i].0 == ty {
                acc.push(self.traits_from_clauses[i].1);
            }
            i = i + 1;
        }
        acc
    }
}

/// The three closure traits.
#[derive(Debug, Clone, Copy, PartialEq, Eq, Structural, Hash)]
pub enum FnTrait {
    FnOnce,
    FnMut,
    Fn,
}

impl FnTrait {
    /// The lang-item name of the closure trait.
    pub fn lang_item_name(self) -> (r: &'static str)
        ensures
            (self == FnTrait::FnOnce ==> r@ == "fn_once"@),
            (self == FnTrait::FnMut ==> r@ == "fn_mut"@),
            (self == FnTrait::Fn ==> r@ == "fn"@),
    {
        match self {
            FnTrait::FnOnce => "fn_once",
            FnTrait::FnMut => "fn_mut",
            FnTrait::Fn => "fn",
        }
    }

    /// The trait id a crate registers for this closure trait: the lang
    /// item under the trait's name, when it resolves to a trait.
    pub fn get_id(&self, db: &LangItems, krate: u32) -> (r: Option<u32>)
        ensures
            r == (match db.spec_lang_item(
                krate,
                match *self {
                    FnTrait::FnOnce => "fn_once"@,
                    FnTrait::FnMut => "fn_mut"@,
                    FnTrait::Fn => "fn"@,
                },
            ) {
                Option::Some(LangItemTarget::TraitId(t)) => Option::Some(t),
                _ => Option::<u32>::None,
            }),
    {
        let name: String = <String as StringExecFns>::from_str(self.lang_item_name());
        match db.lang_item(krate, &name) {
            Option::Some(LangItemTarget::TraitId(t)) => Some(t),
            _ => None,
        }
    }
}

} // verus!
