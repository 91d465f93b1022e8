//! The two-slot focus memory and its transition rule.

use vstd::prelude::*;

use crate::command::focus_command;
use crate::command::focus_command_text;
use crate::tree::LayoutNode;
use crate::tree::search_from;
use crate::tree::tree_focused;

verus! {

/// The two most recently focused windows: `current` is the window focused
/// now, `latest` the one focused before it. Both are `0` until the first
/// real observation.
#[derive(PartialEq, Eq, Structural, Clone, Copy, Debug)]
pub struct Controller {
    pub current: u32,
    pub latest: u32,
}

/// The state after bootstrap: the focused window of the startup snapshot
/// is observed, then the alternate slot is seeded with the resulting
/// current window, so that the very first toggle is a no-op.
pub open spec fn spec_prepare(s: Controller, focused: u32) -> Controller {
    let s2 = spec_observe(s, focused);
    Controller { current: s2.current, latest: s2.current }
}

/// The transition rule applied on every observed focus change, in order:
/// the `0` sentinel and a re-announcement of the current window are
/// absorbed; the previous window swaps the two slots; a fresh window
/// advances them, dropping the old `latest`.
pub open spec fn spec_observe(s: Controller, focused: u32) -> Controller {
    if focused == 0 {
        s
    } else if focused == s.current {
        s
    } else if focused == s.latest {
        Controller { current: s.latest, latest: s.current }
    } else {
        Controller { current: focused, latest: s.current }
    }
}

impl Controller {
    /// A fresh state with no focus history.
    pub fn new() -> (r: Controller)
        ensures
            r.current == 0,
            r.latest == 0,
    {
        Controller { current: 0, latest: 0 }
    }

    /// Apply the transition rule to a freshly observed focused identifier.
    pub fn observe(&mut self, focused: u32)
        ensures
            *final(self) == spec_observe(*old(self), focused),
    {
        if focused > 0 {
            if focused != self.current && focused != self.latest {
                self.latest = self.current;
                self.current = focused;
            } else if focused == self.latest {
                let latest = self.latest;
                self.latest = self.current;
                self.current = latest;
            }
        }
    }

    /// The command text that toggles back to the previously focused
    /// window: a focus command addressed to the `latest` slot. The caller
    /// submits it to the window manager; the state is not changed here —
    /// the resulting focus change comes back as an ordinary notification
    /// and swaps the slots through [`Controller::observe`].
    pub fn back_and_forth(&self) -> (r: String)
        ensures
            r@ == focus_command_text(self.latest),
    {
        focus_command(self.latest)
    }

    /// The identifier of the focused window of the snapshot `tree`, or `0`
    /// when none is focused.
    pub fn get_focused(&self, tree: &LayoutNode) -> (r: u32)
        ensures
            r == tree_focused(*tree),
    {
        self.node_iterator(tree)
    }

    /// Re-derive the focused window from the snapshot `tree` and apply the
    /// transition rule to it.
    pub fn set_focused(&mut self, tree: &LayoutNode)
        ensures
            *final(self) == spec_observe(*old(self), tree_focused(*tree)),
    {
        let focused = self.get_focused(tree);
        self.observe(focused);
    }

    /// Seed the state from the startup snapshot `tree`: both slots end up
    /// holding the focused window of `tree`, or `0` when none is focused,
    /// so the first toggle after startup is a no-op.
    pub fn __prepare_focused(&mut self, tree: &LayoutNode)
        ensures
            *final(self) == spec_prepare(*old(self), tree_focused(*tree)),
            final(self).current == final(self).latest,
    {
        self.set_focused(tree);
        self.latest = self.current;
    }

    /// Search the snapshot rooted at `node` for the focused leaf, depth
    /// first and short-circuiting, as [`tree_focused`] describes.
    pub fn node_iterator(&self, node: &LayoutNode) -> (r: u32)
        ensures
            r == tree_focused(*node),
        decreases *node,
    {
        let nlen = node.nodes.len();
        if nlen > 0 {
            let mut i: usize = 0;
            while i < nlen
                invariant
                    nlen == node.nodes@.len(),
                    i <= nlen,
                    search_from(node.nodes@, 0) == search_from(node.nodes@, i as int),
                decreases nlen - i,
            {
                let n = &node.nodes[i];
                if n.nodes.len() > 0 {
                    let focused = self.node_iterator(n);
                    if focused > 0 {
                        return focused;
                    }
                } else {
                    if n.window.is_some() && n.focused {
                        return n.window.unwrap();
                    }
                }
                i = i + 1;
            }
        }
        0
    }
}

/// Law: no-op idempotence. Re-announcing the window already recorded as
/// current leaves the state unchanged.
pub proof fn lemma_observe_current_noop(s: Controller)
    ensures
        spec_observe(s, s.current) == s,
{
}

/// Law: zero-sentinel absorption. Observing the "no window" sentinel
/// leaves any state unchanged.
pub proof fn lemma_observe_zero_noop(s: Controller)
    ensures
        spec_observe(s, 0) == s,
{
}

/// Law: toggle symmetry. From `{current: a, latest: b}` with `a` and `b`
/// distinct and both real windows, observing `b` swaps the slots, and
/// observing `a` again restores them: two toggles are an identity.
pub proof fn lemma_toggle_symmetry(a: u32, b: u32)
    requires
        a != b,
        a != 0,
        b != 0,
    ensures
        spec_observe(Controller { current: a, latest: b }, b) == (Controller {
            current: b,
            latest: a,
        }),
        spec_observe(spec_observe(Controller { current: a, latest: b }, b), a) == (Controller {
            current: a,
            latest: b,
        }),
{
}

/// Law: fresh-window advance. From `{current: a, latest: b}`, observing a
/// real window `c` distinct from both makes `c` current and demotes `a`
/// to the alternate slot; `b` is dropped. (The sentinel `0` is excluded:
/// rule one absorbs it instead.)
pub proof fn lemma_fresh_window_advance(a: u32, b: u32, c: u32)
    requires
        c != 0,
        c != a,
        c != b,
    ensures
        spec_observe(Controller { current: a, latest: b }, c) == (Controller {
            current: c,
            latest: a,
        }),
{
}

/// Law: cold start. Bootstrapping a fresh state from a snapshot whose
/// focused window is `x` seeds both slots with `x`, and the toggle that
/// follows — which makes the window manager re-announce `latest`, here
/// `x` itself — leaves the state unchanged.
pub proof fn lemma_cold_start(x: u32)
    ensures
        spec_prepare(Controller { current: 0, latest: 0 }, x) == (Controller {
            current: x,
            latest: x,
        }),
        spec_observe(Controller { current: x, latest: x }, x) == (Controller {
            current: x,
            latest: x,
        }),
{
}

} // verus!
