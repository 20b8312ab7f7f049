//! The semantic model consumed by the engine, as a deterministic,
//! table-driven value.
//!
//! The production services behind a completion request — the source database
//! (parse, re-parse with an insertion), macro and derive expansion, type
//! inference, name resolution, scopes and visibility — are external
//! collaborators. This module models them as explicit finite tables: every
//! query the engine makes is answered by a first-match lookup, so the whole
//! resolution pipeline is a function of the model value and can be verified
//! end to end. A table entry that points at a missing tree or node is
//! treated as an unanswered query.

use vstd::prelude::*;

use crate::patterns::{ImmediateLocation, ImmediatePrevSibling};
use crate::tree::SynTree;

verus! {

/// A (tree, node) pair: a node reference that names its tree.
#[derive(Clone, Copy, Debug, PartialEq, Eq, Structural)]
pub struct NodeLoc {
    pub tree: usize,
    pub node: usize,
}

/// One inferred or declared type. `deref_inner` is the target after
/// stripping one reference layer; `callable_ret` the return type when the
/// type is callable.
#[derive(Debug, Clone, PartialEq, Eq)]
pub struct TypeData {
    pub display: String,
    pub deref_inner: Option<usize>,
    pub callable_ret: Option<usize>,
}

/// A parse of a file into a tree.
#[derive(Clone, Copy, Debug, PartialEq, Eq, Structural)]
pub struct ParseEntry {
    pub file: u32,
    pub tree: usize,
}

/// A re-parse of a file with the placeholder inserted at an offset.
#[derive(Clone, Copy, Debug, PartialEq, Eq, Structural)]
pub struct SpecParseEntry {
    pub file: u32,
    pub offset: usize,
    pub tree: usize,
}

/// A single step of descending a token into the macro expansion it ends up
/// in.
#[derive(Clone, Copy, Debug, PartialEq, Eq, Structural)]
pub struct DescendEntry {
    pub tree: usize,
    pub tok: usize,
    pub out_tree: usize,
    pub out_tok: usize,
}

/// A keyed node query with a `usize` answer: a type of an expression or
/// pattern, a resolved record field's type, a function's declared return
/// type, a real (non-speculative) expansion's output tree.
#[derive(Clone, Copy, Debug, PartialEq, Eq, Structural)]
pub struct NodeKeyEntry {
    pub tree: usize,
    pub node: usize,
    pub val: usize,
}

/// A speculative expansion answer: the expansion of the real node when the
/// placeholder token is threaded through the speculative node.
#[derive(Clone, Copy, Debug, PartialEq, Eq, Structural)]
pub struct SpecExpEntry {
    pub tree: usize,
    pub node: usize,
    pub spec_tree: usize,
    pub spec_node: usize,
    pub fake_tok: usize,
    pub out_tree: usize,
    pub out_tok: usize,
}

/// The active parameter at a call-argument token: its declared name and
/// type.
#[derive(Debug, Clone, PartialEq, Eq)]
pub struct ActiveParamEntry {
    pub tree: usize,
    pub tok: usize,
    pub name: Option<String>,
    pub ty: usize,
}

/// The immediate-location classification at a given placeholder position.
#[derive(Clone, Copy, Debug, PartialEq, Eq, Structural)]
pub struct LocationEntry {
    pub tree: usize,
    pub offset: usize,
    pub node: usize,
    pub loc: ImmediateLocation,
}

/// The previous-sibling classification of a given name-like node.
#[derive(Clone, Copy, Debug, PartialEq, Eq, Structural)]
pub struct PrevSiblingEntry {
    pub tree: usize,
    pub node: usize,
    pub sib: ImmediatePrevSibling,
}

/// One name visible in a scope. Locals carry their binding id; other
/// definitions carry the attribute set and crate used by the hidden-item
/// filter.
#[derive(Debug, Clone, PartialEq, Eq)]
pub struct ScopeEntry {
    pub name: String,
    pub is_local: bool,
    pub local: u32,
    pub attrs: Option<AttrData>,
    pub krate: Option<u32>,
}

/// The attributes of an item, reduced to what the engine reads.
#[derive(Debug, Clone, PartialEq, Eq)]
pub struct AttrData {
    pub doc_hidden: bool,
    pub lang: Option<String>,
}

/// The scope at a given (node, offset) position.
#[derive(Debug, Clone, PartialEq, Eq)]
pub struct ScopeAtEntry {
    pub tree: usize,
    pub node: usize,
    pub offset: usize,
    pub krate: u32,
    pub module: u32,
    pub entries: Vec<ScopeEntry>,
    pub visible_traits: Vec<u32>,
}

/// The derive macros already resolved on an annotation.
#[derive(Debug, Clone, PartialEq, Eq)]
pub struct DeriveResEntry {
    pub tree: usize,
    pub attr: usize,
    pub macros: Vec<u64>,
}

/// A crate known to the model.
#[derive(Clone, Copy, Debug, PartialEq, Eq, Structural)]
pub struct CrateEntry {
    pub root_file: u32,
}

/// The source root a file belongs to.
#[derive(Clone, Copy, Debug, PartialEq, Eq, Structural)]
pub struct FileRootEntry {
    pub file: u32,
    pub root: u32,
}

/// Whether a source root is a read-only library root.
#[derive(Clone, Copy, Debug, PartialEq, Eq, Structural)]
pub struct RootEntry {
    pub root: u32,
    pub is_library: bool,
}

/// The deterministic semantic model: parse trees and query tables.
#[derive(Debug, Clone)]
pub struct Semantics {
    pub trees: Vec<SynTree>,
    pub types: Vec<TypeData>,
    pub parses: Vec<ParseEntry>,
    pub spec_parses: Vec<SpecParseEntry>,
    pub descends: Vec<DescendEntry>,
    pub scopes: Vec<ScopeAtEntry>,
    pub expr_types: Vec<NodeKeyEntry>,
    pub pat_types: Vec<NodeKeyEntry>,
    pub record_field_types: Vec<NodeKeyEntry>,
    pub fn_ret_types: Vec<NodeKeyEntry>,
    pub path_resolutions: Vec<NodeKeyEntry>,
    pub attr_expansions: Vec<NodeKeyEntry>,
    pub macro_expansions: Vec<NodeKeyEntry>,
    pub derive_expansions: Vec<NodeKeyEntry>,
    pub spec_attr_expansions: Vec<SpecExpEntry>,
    pub spec_macro_expansions: Vec<SpecExpEntry>,
    pub spec_derive_expansions: Vec<SpecExpEntry>,
    pub active_params: Vec<ActiveParamEntry>,
    pub locations: Vec<LocationEntry>,
    pub prev_siblings: Vec<PrevSiblingEntry>,
    pub derive_resolutions: Vec<DeriveResEntry>,
    pub crates: Vec<CrateEntry>,
    pub file_roots: Vec<FileRootEntry>,
    pub roots: Vec<RootEntry>,
    pub famous_drop: Option<u32>,
}

// First-match lookups over the tables. Each spec function scans from index
// `i`; the exec mirror starts at 0.

pub open spec fn spec_parse_from(entries: Seq<ParseEntry>, file: u32, i: int) -> Option<usize>
    decreases entries.len() - i,
{
    if i < 0 || i >= entries.len() {
        Option::None
    } else if entries[i].file == file {
        Option::Some(entries[i].tree)
    } else {
        spec_parse_from(entries, file, i + 1)
    }
}

pub open spec fn spec_spec_parse_from(
    entries: Seq<SpecParseEntry>,
    file: u32,
    offset: int,
    i: int,
) -> Option<usize>
    decreases entries.len() - i,
{
    if i < 0 || i >= entries.len() {
        Option::None
    } else if entries[i].file == file && entries[i].offset == offset {
        Option::Some(entries[i].tree)
    } else {
        spec_spec_parse_from(entries, file, offset, i + 1)
    }
}

pub open spec fn spec_descend_from(
    entries: Seq<DescendEntry>,
    tree: int,
    tok: int,
    i: int,
) -> Option<NodeLoc>
    decreases entries.len() - i,
{
    if i < 0 || i >= entries.len() {
        Option::None
    } else if entries[i].tree == tree && entries[i].tok == tok {
        Option::Some(NodeLoc { tree: entries[i].out_tree, node: entries[i].out_tok })
    } else {
        spec_descend_from(entries, tree, tok, i + 1)
    }
}

pub open spec fn spec_node_key_from(
    entries: Seq<NodeKeyEntry>,
    tree: int,
    node: int,
    i: int,
) -> Option<usize>
    decreases entries.len() - i,
{
    if i < 0 || i >= entries.len() {
        Option::None
    } else if entries[i].tree == tree && entries[i].node == node {
        Option::Some(entries[i].val)
    } else {
        spec_node_key_from(entries, tree, node, i + 1)
    }
}

pub open spec fn spec_spec_exp_from(
    entries: Seq<SpecExpEntry>,
    tree: int,
    node: int,
    spec_tree: int,
    spec_node: int,
    fake_tok: int,
    i: int,
) -> Option<NodeLoc>
    decreases entries.len() - i,
{
    if i < 0 || i >= entries.len() {
        Option::None
    } else if entries[i].tree == tree && entries[i].node == node && entries[i].spec_tree
        == spec_tree && entries[i].spec_node == spec_node && entries[i].fake_tok == fake_tok {
        Option::Some(NodeLoc { tree: entries[i].out_tree, node: entries[i].out_tok })
    } else {
        spec_spec_exp_from(entries, tree, node, spec_tree, spec_node, fake_tok, i + 1)
    }
}

pub open spec fn spec_active_param_from(
    entries: Seq<ActiveParamEntry>,
    tree: int,
    tok: int,
    i: int,
) -> Option<int>
    decreases entries.len() - i,
{
    if i < 0 || i >= entries.len() {
        Option::None
    } else if entries[i].tree == tree && entries[i].tok == tok {
        Option::Some(i)
    } else {
        spec_active_param_from(entries, tree, tok, i + 1)
    }
}

pub open spec fn spec_location_from(
    entries: Seq<LocationEntry>,
    tree: int,
    offset: int,
    node: int,
    i: int,
) -> Option<ImmediateLocation>
    decreases entries.len() - i,
{
    if i < 0 || i >= entries.len() {
        Option::None
    } else if entries[i].tree == tree && entries[i].offset == offset && entries[i].node == node {
        Option::Some(entries[i].loc)
    } else {
        spec_location_from(entries, tree, offset, node, i + 1)
    }
}

pub open spec fn spec_prev_sibling_from(
    entries: Seq<PrevSiblingEntry>,
    tree: int,
    node: int,
    i: int,
) -> Option<ImmediatePrevSibling>
    decreases entries.len() - i,
{
    if i < 0 || i >= entries.len() {
        Option::None
    } else if entries[i].tree == tree && entries[i].node == node {
        Option::Some(entries[i].sib)
    } else {
        spec_prev_sibling_from(entries, tree, node, i + 1)
    }
}

pub open spec fn spec_scope_at_from(
    entries: Seq<ScopeAtEntry>,
    tree: int,
    node: int,
    offset: int,
    i: int,
) -> Option<int>
    decreases entries.len() - i,
{
    if i < 0 || i >= entries.len() {
        Option::None
    } else if entries[i].tree == tree && entries[i].node == node && entries[i].offset == offset {
        Option::Some(i)
    } else {
        spec_scope_at_from(entries, tree, node, offset, i + 1)
    }
}

pub open spec fn spec_derive_res_from(
    entries: Seq<DeriveResEntry>,
    tree: int,
    attr: int,
    i: int,
) -> Option<int>
    decreases entries.len() - i,
{
    if i < 0 || i >= entries.len() {
        Option::None
    } else if entries[i].tree == tree && entries[i].attr == attr {
        Option::Some(i)
    } else {
        spec_derive_res_from(entries, tree, attr, i + 1)
    }
}

pub open spec fn spec_file_root_from(entries: Seq<FileRootEntry>, file: u32, i: int) -> Option<
    u32,
>
    decreases entries.len() - i,
{
    if i < 0 || i >= entries.len() {
        Option::None
    } else if entries[i].file == file {
        Option::Some(entries[i].root)
    } else {
        spec_file_root_from(entries, file, i + 1)
    }
}

pub open spec fn spec_root_is_library_from(entries: Seq<RootEntry>, root: u32, i: int) -> Option<
    bool,
>
    decreases entries.len() - i,
{
    if i < 0 || i >= entries.len() {
        Option::None
    } else if entries[i].root == root {
        Option::Some(entries[i].is_library)
    } else {
        spec_root_is_library_from(entries, root, i + 1)
    }
}

impl Semantics {
    /// Whether tree `t` exists and is well-formed.
    pub open spec fn spec_tree_ok(self, t: int) -> bool {
        0 <= t < self.trees.len() && self.trees[t].wf()
    }

    /// The tree `t`, available only when present and well-formed.
    pub fn tree_checked(&self, t: usize) -> (r: Option<&SynTree>)
        ensures
            r is Some <==> self.spec_tree_ok(t as int),
            r is Some ==> *r->0 == self.trees[t as int],
    {
        if t < self.trees.len() {
            let tr = &self.trees[t];
            if tr.check_wf() {
                Some(tr)
            } else {
                None
            }
        } else {
            None
        }
    }

    /// Relies on the source database: parse a file into a tree.
    pub open spec fn spec_parse(self, file: u32) -> Option<usize> {
        spec_parse_from(self.parses@, file, 0)
    }

    pub fn parse(&self, file: u32) -> (r: Option<usize>)
        ensures
            r == self.spec_parse(file),
    {
        let mut i: usize = 0;
        while i < self.parses.len()
            invariant
                i <= self.parses.len(),
                spec_parse_from(self.parses@, file, 0) == spec_parse_from(
                    self.parses@,
                    file,
                    i as int,
                ),
            decreases self.parses.len() - i,
        {
            if self.parses[i].file == file {
                return Some(self.parses[i].tree);
            }
            i = i + 1;
        }
        None
    }

    /// The source database's re-parse of `file` with the placeholder
    /// identifier inserted at `offset`.
    pub open spec fn spec_speculative_parse(self, file: u32, offset: int) -> Option<usize> {
        spec_spec_parse_from(self.spec_parses@, file, offset, 0)
    }

    pub fn speculative_parse(&self, file: u32, offset: usize) -> (r: Option<usize>)
        ensures
            r == self.spec_speculative_parse(file, offset as int),
    {
        let mut i: usize = 0;
        while i < self.spec_parses.len()
            invariant
                i <= self.spec_parses.len(),
                spec_spec_parse_from(self.spec_parses@, file, offset as int, 0)
                    == spec_spec_parse_from(self.spec_parses@, file, offset as int, i as int),
            decreases self.spec_parses.len() - i,
        {
            if self.spec_parses[i].file == file && self.spec_parses[i].offset == offset {
                return Some(self.spec_parses[i].tree);
            }
            i = i + 1;
        }
        None
    }

    /// One-step descent of a token into the macro expansion containing it;
    /// identity when the model has no entry.
    pub open spec fn spec_descend_single(self, loc: NodeLoc) -> NodeLoc {
        match spec_descend_from(self.descends@, loc.tree as int, loc.node as int, 0) {
            Option::Some(d) => d,
            Option::None => loc,
        }
    }

    pub fn descend_into_macros_single(&self, loc: NodeLoc) -> (r: NodeLoc)
        ensures
            r == self.spec_descend_single(loc),
    {
        let mut i: usize = 0;
        while i < self.descends.len()
            invariant
                i <= self.descends.len(),
                spec_descend_from(self.descends@, loc.tree as int, loc.node as int, 0)
                    == spec_descend_from(self.descends@, loc.tree as int, loc.node as int, i as int),
            decreases self.descends.len() - i,
        {
            if self.descends[i].tree == loc.tree && self.descends[i].tok == loc.node {
                return NodeLoc { tree: self.descends[i].out_tree, node: self.descends[i].out_tok };
            }
            i = i + 1;
        }
        loc
    }

    /// The index of the scope entry at a (node, offset) position.
    pub open spec fn spec_scope_at(self, tree: int, node: int, offset: int) -> Option<int> {
        spec_scope_at_from(self.scopes@, tree, node, offset, 0)
    }

    pub fn scope_at(&self, tree: usize, node: usize, offset: usize) -> (r: Option<usize>)
        ensures
            match self.spec_scope_at(tree as int, node as int, offset as int) {
                Option::Some(k) => r == Option::Some(k as usize) && 0 <= k < self.scopes.len(),
                Option::None => r is None,
            },
    {
        let mut i: usize = 0;
        while i < self.scopes.len()
            invariant
                i <= self.scopes.len(),
                spec_scope_at_from(self.scopes@, tree as int, node as int, offset as int, 0)
                    == spec_scope_at_from(
                    self.scopes@,
                    tree as int,
                    node as int,
                    offset as int,
                    i as int,
                ),
            decreases self.scopes.len() - i,
        {
            if self.scopes[i].tree == tree && self.scopes[i].node == node && self.scopes[i].offset
                == offset {
                return Some(i);
            }
            i = i + 1;
        }
        None
    }
}

/// First-match lookup in a (tree, node)-keyed table.
pub fn node_key_get(entries: &Vec<NodeKeyEntry>, tree: usize, node: usize) -> (r: Option<usize>)
    ensures
        r == spec_node_key_from(entries@, tree as int, node as int, 0),
{
    let mut i: usize = 0;
    while i < entries.len()
        invariant
            i <= entries.len(),
            spec_node_key_from(entries@, tree as int, node as int, 0) == spec_node_key_from(
                entries@,
                tree as int,
                node as int,
                i as int,
            ),
        decreases entries.len() - i,
    {
        if entries[i].tree == tree && entries[i].node == node {
            return Some(entries[i].val);
        }
        i = i + 1;
    }
    None
}

/// First-match lookup in a speculative-expansion table.
pub fn spec_exp_get(
    entries: &Vec<SpecExpEntry>,
    tree: usize,
    node: usize,
    spec_tree: usize,
    spec_node: usize,
    fake_tok: usize,
) -> (r: Option<NodeLoc>)
    ensures
        r == spec_spec_exp_from(
            entries@,
            tree as int,
            node as int,
            spec_tree as int,
            spec_node as int,
            fake_tok as int,
            0,
        ),
{
    let mut i: usize = 0;
    while i < entries.len()
        invariant
            i <= entries.len(),
            spec_spec_exp_from(
                entries@,
                tree as int,
                node as int,
                spec_tree as int,
                spec_node as int,
                fake_tok as int,
                0,
            ) == spec_spec_exp_from(
                entries@,
                tree as int,
                node as int,
                spec_tree as int,
                spec_node as int,
                fake_tok as int,
                i as int,
            ),
        decreases entries.len() - i,
    {
        if entries[i].tree == tree && entries[i].node == node && entries[i].spec_tree == spec_tree
            && entries[i].spec_node == spec_node && entries[i].fake_tok == fake_tok {
            return Some(NodeLoc { tree: entries[i].out_tree, node: entries[i].out_tok });
        }
        i = i + 1;
    }
    None
}

impl Semantics {
    /// The index of the active-parameter entry at a call-argument token.
    pub open spec fn spec_active_param(self, tree: int, tok: int) -> Option<int> {
        spec_active_param_from(self.active_params@, tree, tok, 0)
    }

    pub fn active_param_at(&self, tree: usize, tok: usize) -> (r: Option<usize>)
        ensures
            match self.spec_active_param(tree as int, tok as int) {
                Option::Some(k) => r == Option::Some(k as usize) && 0 <= k
                    < self.active_params.len(),
                Option::None => r is None,
            },
    {
        let mut i: usize = 0;
        while i < self.active_params.len()
            invariant
                i <= self.active_params.len(),
                spec_active_param_from(self.active_params@, tree as int, tok as int, 0)
                    == spec_active_param_from(
                    self.active_params@,
                    tree as int,
                    tok as int,
                    i as int,
                ),
            decreases self.active_params.len() - i,
        {
            if self.active_params[i].tree == tree && self.active_params[i].tok == tok {
                return Some(i);
            }
            i = i + 1;
        }
        None
    }

    /// The immediate-location classification at a placeholder position.
    pub open spec fn spec_determine_location(self, tree: int, offset: int, node: int) -> Option<
        ImmediateLocation,
    > {
        spec_location_from(self.locations@, tree, offset, node, 0)
    }

    pub fn determine_location(&self, tree: usize, offset: usize, node: usize) -> (r: Option<
        ImmediateLocation,
    >)
        ensures
            r == self.spec_determine_location(tree as int, offset as int, node as int),
    {
        let mut i: usize = 0;
        while i < self.locations.len()
            invariant
                i <= self.locations.len(),
                spec_location_from(self.locations@, tree as int, offset as int, node as int, 0)
                    == spec_location_from(
                    self.locations@,
                    tree as int,
                    offset as int,
                    node as int,
                    i as int,
                ),
            decreases self.locations.len() - i,
        {
            if self.locations[i].tree == tree && self.locations[i].offset == offset
                && self.locations[i].node == node {
                return Some(self.locations[i].loc);
            }
            i = i + 1;
        }
        None
    }

    /// The previous-sibling classification of a name-like node.
    pub open spec fn spec_determine_prev_sibling(self, tree: int, node: int) -> Option<
        ImmediatePrevSibling,
    > {
        spec_prev_sibling_from(self.prev_siblings@, tree, node, 0)
    }

    pub fn determine_prev_sibling(&self, tree: usize, node: usize) -> (r: Option<
        ImmediatePrevSibling,
    >)
        ensures
            r == self.spec_determine_prev_sibling(tree as int, node as int),
    {
        let mut i: usize = 0;
        while i < self.prev_siblings.len()
            invariant
                i <= self.prev_siblings.len(),
                spec_prev_sibling_from(self.prev_siblings@, tree as int, node as int, 0)
                    == spec_prev_sibling_from(
                    self.prev_siblings@,
                    tree as int,
                    node as int,
                    i as int,
                ),
            decreases self.prev_siblings.len() - i,
        {
            if self.prev_siblings[i].tree == tree && self.prev_siblings[i].node == node {
                return Some(self.prev_siblings[i].sib);
            }
            i = i + 1;
        }
        None
    }

    /// The index of the derive-resolution entry for an annotation.
    pub open spec fn spec_derive_resolution(self, tree: int, attr: int) -> Option<int> {
        spec_derive_res_from(self.derive_resolutions@, tree, attr, 0)
    }

    pub fn derive_resolution_at(&self, tree: usize, attr: usize) -> (r: Option<usize>)
        ensures
            match self.spec_derive_resolution(tree as int, attr as int) {
                Option::Some(k) => r == Option::Some(k as usize) && 0 <= k
                    < self.derive_resolutions.len(),
                Option::None => r is None,
            },
    {
        let mut i: usize = 0;
        while i < self.derive_resolutions.len()
            invariant
                i <= self.derive_resolutions.len(),
                spec_derive_res_from(self.derive_resolutions@, tree as int, attr as int, 0)
                    == spec_derive_res_from(
                    self.derive_resolutions@,
                    tree as int,
                    attr as int,
                    i as int,
                ),
            decreases self.derive_resolutions.len() - i,
        {
            if self.derive_resolutions[i].tree == tree && self.derive_resolutions[i].attr == attr {
                return Some(i);
            }
            i = i + 1;
        }
        None
    }

    /// The source root of a file.
    pub open spec fn spec_file_source_root(self, file: u32) -> Option<u32> {
        spec_file_root_from(self.file_roots@, file, 0)
    }

    pub fn file_source_root(&self, file: u32) -> (r: Option<u32>)
        ensures
            r == self.spec_file_source_root(file),
    {
        let mut i: usize = 0;
        while i < self.file_roots.len()
            invariant
                i <= self.file_roots.len(),
                spec_file_root_from(self.file_roots@, file, 0) == spec_file_root_from(
                    self.file_roots@,
                    file,
                    i as int,
                ),
            decreases self.file_roots.len() - i,
        {
            if self.file_roots[i].file == file {
                return Some(self.file_roots[i].root);
            }
            i = i + 1;
        }
        None
    }

    /// Whether a source root is a read-only library root.
    pub open spec fn spec_root_is_library(self, root: u32) -> Option<bool> {
        spec_root_is_library_from(self.roots@, root, 0)
    }

    pub fn root_is_library(&self, root: u32) -> (r: Option<bool>)
        ensures
            r == self.spec_root_is_library(root),
    {
        let mut i: usize = 0;
        while i < self.roots.len()
            invariant
                i <= self.roots.len(),
                spec_root_is_library_from(self.roots@, root, 0) == spec_root_is_library_from(
                    self.roots@,
                    root,
                    i as int,
                ),
            decreases self.roots.len() - i,
        {
            if self.roots[i].root == root {
                return Some(self.roots[i].is_library);
            }
            i = i + 1;
        }
        None
    }

    /// An exact copy of the scope entries at index `k`.
    pub fn scope_entries_at(&self, k: usize) -> (r: Vec<ScopeEntry>)
        requires
            k < self.scopes.len(),
        ensures
            r@ == self.scopes[k as int].entries@,
    {
        clone_scope_entries(&self.scopes[k].entries)
    }

    /// The display text of a type, when the type id is known to the model.
    pub fn type_display(&self, ty: usize) -> (r: Option<String>)
        ensures
            match r {
                Option::Some(s) => ty < self.types.len() && s == self.types[ty as int].display,
                Option::None => ty >= self.types.len(),
            },
    {
        if ty < self.types.len() {
            let s = self.types[ty].display.clone();
            Some(s)
        } else {
            None
        }
    }
}

/// An exact copy of a vector of scope entries.
pub fn clone_scope_entries(v: &Vec<ScopeEntry>) -> (r: Vec<ScopeEntry>)
    ensures
        r@ == v@,
{
    let mut acc: Vec<ScopeEntry> = Vec::new();
    let mut i: usize = 0;
    while i < v.len()
        invariant
            i <= v.len(),
            acc@ == v@.take(i as int),
        decreases v.len() - i,
    {
        let e = &v[i];
        let d = ScopeEntry {
            name: e.name.clone(),
            is_local: e.is_local,
            local: e.local,
            attrs: match &e.attrs {
                Option::Some(a) => Some(
                    AttrData {
                        doc_hidden: a.doc_hidden,
                        lang: match &a.lang {
                            Option::Some(l) => Some(l.clone()),
                            Option::None => None,
                        },
                    },
                ),
                Option::None => None,
            },
            krate: e.krate,
        };
        acc.push(d);
        proof {
            assert(acc@ =~= v@.take(i + 1));
        }
        i = i + 1;
    }
    proof {
        assert(v@.take(v@.len() as int) =~= v@);
    }
    acc
}

/// An exact copy of a vector of `u32` values.
pub fn clone_u32s(v: &Vec<u32>) -> (r: Vec<u32>)
    ensures
        r@ == v@,
{
    let mut acc: Vec<u32> = Vec::new();
    let mut i: usize = 0;
    while i < v.len()
        invariant
            i <= v.len(),
            acc@ == v@.take(i as int),
        decreases v.len() - i,
    {
        acc.push(v[i]);
        proof {
            assert(acc@ =~= v@.take(i + 1));
        }
        i = i + 1;
    }
    proof {
        assert(v@.take(v@.len() as int) =~= v@);
    }
    acc
}

/// An exact copy of a vector of `u64` values.
pub fn clone_u64s(v: &Vec<u64>) -> (r: Vec<u64>)
    ensures
        r@ == v@,
{
    let mut acc: Vec<u64> = Vec::new();
    let mut i: usize = 0;
    while i < v.len()
        invariant
            i <= v.len(),
            acc@ == v@.take(i as int),
        decreases v.len() - i,
    {
        acc.push(v[i]);
        proof {
            assert(acc@ =~= v@.take(i + 1));
        }
        i = i + 1;
    }
    proof {
        assert(v@.take(v@.len() as int) =~= v@);
    }
    acc
}

} // verus!
