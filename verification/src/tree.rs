//! A snapshot of the window manager's layout tree, and the search for the
//! focused leaf.

use vstd::prelude::*;

verus! {

/// One node of a layout-tree snapshot. A node with children is a container;
/// a childless node is a leaf, which carries a window identifier only when
/// it stands for an actual window. The window manager guarantees that at
/// most one node of a snapshot has `focused` set; the search relies on that
/// and does not re-check it.
pub struct LayoutNode {
    /// The node's children, in document order.
    pub nodes: Vec<LayoutNode>,
    /// The window identifier, present only on leaves that represent a window.
    pub window: Option<u32>,
    /// Whether the window manager marks this node as focused.
    pub focused: bool,
}

/// The depth-first, short-circuiting scan of the children `cs[i..]`: a
/// container child is searched recursively and a non-zero result ends the
/// scan; a leaf child ends the scan with its identifier exactly when it
/// carries one and is focused. A scan that finds nothing yields `0`.
pub open spec fn search_from(cs: Seq<LayoutNode>, i: int) -> u32
    decreases cs, cs.len() - i,
{
    if i < 0 || i >= cs.len() {
        0u32
    } else {
        let c = cs[i];
        if c.nodes@.len() > 0 {
            let r = search_from(c.nodes@, 0);
            if r != 0 {
                r
            } else {
                search_from(cs, i + 1)
            }
        } else if c.window is Some && c.focused {
            c.window->Some_0
        } else {
            search_from(cs, i + 1)
        }
    }
}

/// The identifier of the focused window of the snapshot rooted at `n`, or
/// `0` when no descendant leaf of `n` is focused. The root's own flags are
/// never consulted: the window manager's root is always a container.
pub open spec fn tree_focused(n: LayoutNode) -> u32 {
    search_from(n.nodes@, 0)
}

/// Whether the search accepts the node `c`: a childless leaf, flagged
/// focused, that carries a window identifier.
pub open spec fn is_match(c: LayoutNode) -> bool {
    c.nodes@.len() == 0 && c.focused && c.window is Some
}

/// The number of accepted leaves in the forests rooted at `cs[i..]`.
pub open spec fn match_count_from(cs: Seq<LayoutNode>, i: int) -> nat
    decreases cs, cs.len() - i,
{
    if i < 0 || i >= cs.len() {
        0
    } else {
        let c = cs[i];
        let here: nat = if c.nodes@.len() > 0 {
            match_count_from(c.nodes@, 0)
        } else if is_match(c) {
            1
        } else {
            0
        };
        here + match_count_from(cs, i + 1)
    }
}

/// Whether some accepted leaf in the forests rooted at `cs[i..]` carries
/// the window identifier `w`.
pub open spec fn has_match_from(cs: Seq<LayoutNode>, i: int, w: u32) -> bool
    decreases cs, cs.len() - i,
{
    if i < 0 || i >= cs.len() {
        false
    } else {
        let c = cs[i];
        let here: bool = if c.nodes@.len() > 0 {
            has_match_from(c.nodes@, 0, w)
        } else {
            is_match(c) && c.window->Some_0 == w
        };
        here || has_match_from(cs, i + 1, w)
    }
}

/// A scan over forests holding no accepted leaf yields `0`.
proof fn lemma_no_match_scan_zero(cs: Seq<LayoutNode>, i: int)
    requires
        match_count_from(cs, i) == 0,
    ensures
        search_from(cs, i) == 0,
    decreases cs, cs.len() - i,
{
    if 0 <= i < cs.len() {
        let c = cs[i];
        if c.nodes@.len() > 0 {
            lemma_no_match_scan_zero(c.nodes@, 0);
        }
        lemma_no_match_scan_zero(cs, i + 1);
    }
}

/// An accepted leaf with identifier `w` contributes to the match count.
proof fn lemma_match_implies_count(cs: Seq<LayoutNode>, i: int, w: u32)
    requires
        has_match_from(cs, i, w),
    ensures
        match_count_from(cs, i) >= 1,
    decreases cs, cs.len() - i,
{
    let c = cs[i];
    if c.nodes@.len() > 0 && has_match_from(c.nodes@, 0, w) {
        lemma_match_implies_count(c.nodes@, 0, w);
    } else if c.nodes@.len() == 0 && is_match(c) && c.window->Some_0 == w {
    } else {
        lemma_match_implies_count(cs, i + 1, w);
    }
}

/// A scan over forests holding exactly one accepted leaf yields that
/// leaf's identifier.
proof fn lemma_unique_match_scan(cs: Seq<LayoutNode>, i: int, w: u32)
    requires
        match_count_from(cs, i) == 1,
        has_match_from(cs, i, w),
    ensures
        search_from(cs, i) == w,
    decreases cs, cs.len() - i,
{
    let c = cs[i];
    if c.nodes@.len() > 0 {
        if match_count_from(c.nodes@, 0) == 0 {
            lemma_no_match_scan_zero(c.nodes@, 0);
            if has_match_from(c.nodes@, 0, w) {
                lemma_match_implies_count(c.nodes@, 0, w);
            }
            lemma_unique_match_scan(cs, i + 1, w);
        } else {
            if has_match_from(cs, i + 1, w) {
                lemma_match_implies_count(cs, i + 1, w);
            }
            lemma_unique_match_scan(c.nodes@, 0, w);
            if w == 0 {
                lemma_no_match_scan_zero(cs, i + 1);
            }
        }
    } else {
        if is_match(c) {
            if has_match_from(cs, i + 1, w) {
                lemma_match_implies_count(cs, i + 1, w);
            }
        } else {
            lemma_unique_match_scan(cs, i + 1, w);
        }
    }
}

/// Law: search correctness. A snapshot whose descendant leaves include
/// exactly one accepted leaf — flagged focused and carrying a window
/// identifier — makes the search return that identifier.
pub proof fn lemma_search_finds_unique_focused(n: LayoutNode, w: u32)
    requires
        match_count_from(n.nodes@, 0) == 1,
        has_match_from(n.nodes@, 0, w),
    ensures
        tree_focused(n) == w,
{
    lemma_unique_match_scan(n.nodes@, 0, w);
}

/// Law: search correctness, empty half. A snapshot with no accepted leaf
/// among its descendants — in particular one with no focused leaf at all —
/// makes the search return `0`.
pub proof fn lemma_search_no_focused(n: LayoutNode)
    requires
        match_count_from(n.nodes@, 0) == 0,
    ensures
        tree_focused(n) == 0,
{
    lemma_no_match_scan_zero(n.nodes@, 0);
}

} // verus!
