use i3_switcher::Controller;
use i3_switcher::LayoutNode;

fn leaf(window: Option<u32>, focused: bool) -> LayoutNode {
    LayoutNode { nodes: vec![], window, focused }
}

fn branch(nodes: Vec<LayoutNode>) -> LayoutNode {
    LayoutNode { nodes, window: None, focused: false }
}

#[test]
fn observe_current_is_noop() {
    let mut c = Controller { current: 5, latest: 7 };
    c.observe(5);
    assert_eq!(c, Controller { current: 5, latest: 7 });
}

#[test]
fn observe_zero_is_noop() {
    let mut c = Controller { current: 5, latest: 7 };
    c.observe(0);
    assert_eq!(c, Controller { current: 5, latest: 7 });

    let mut fresh = Controller::new();
    fresh.observe(0);
    assert_eq!(fresh, Controller { current: 0, latest: 0 });
}

#[test]
fn observe_latest_swaps_and_swaps_back() {
    let mut c = Controller { current: 5, latest: 7 };
    c.observe(7);
    assert_eq!(c, Controller { current: 7, latest: 5 });
    c.observe(5);
    assert_eq!(c, Controller { current: 5, latest: 7 });
}

#[test]
fn observe_fresh_window_advances() {
    let mut c = Controller { current: 5, latest: 7 };
    c.observe(9);
    assert_eq!(c, Controller { current: 9, latest: 5 });
}

#[test]
fn observed_sequence_from_cold_state() {
    let mut c = Controller::new();
    assert_eq!(c, Controller { current: 0, latest: 0 });
    c.observe(5);
    assert_eq!(c, Controller { current: 5, latest: 0 });
    c.observe(7);
    assert_eq!(c, Controller { current: 7, latest: 5 });
    c.observe(5);
    assert_eq!(c, Controller { current: 5, latest: 7 });
    c.observe(9);
    assert_eq!(c, Controller { current: 9, latest: 5 });
}

#[test]
fn search_empty_tree_yields_sentinel() {
    let c = Controller::new();
    assert_eq!(c.get_focused(&branch(vec![])), 0);
}

#[test]
fn search_containers_without_windows_yields_sentinel() {
    let c = Controller::new();
    let tree = branch(vec![branch(vec![leaf(None, false), leaf(None, false)]), leaf(None, false)]);
    assert_eq!(c.get_focused(&tree), 0);
}

#[test]
fn search_finds_nested_focused_leaf() {
    let c = Controller::new();
    let tree = branch(vec![
        branch(vec![leaf(Some(3), false), leaf(Some(4), false)]),
        branch(vec![leaf(Some(6), false), branch(vec![leaf(Some(8), true), leaf(Some(9), false)])]),
    ]);
    assert_eq!(c.get_focused(&tree), 8);
}

#[test]
fn search_skips_focused_leaf_without_identifier() {
    let c = Controller::new();
    let tree = branch(vec![leaf(None, true), leaf(Some(4), false)]);
    assert_eq!(c.get_focused(&tree), 0);
}

#[test]
fn search_skips_unfocused_windows() {
    let c = Controller::new();
    let tree = branch(vec![leaf(Some(3), false), leaf(Some(4), true)]);
    assert_eq!(c.get_focused(&tree), 4);
}

#[test]
fn set_focused_observes_tree_focus() {
    let mut c = Controller::new();
    c.set_focused(&branch(vec![leaf(Some(5), true)]));
    assert_eq!(c, Controller { current: 5, latest: 0 });
    c.set_focused(&branch(vec![leaf(Some(7), true)]));
    assert_eq!(c, Controller { current: 7, latest: 5 });
}

#[test]
fn cold_start_seeds_both_slots() {
    let tree = branch(vec![branch(vec![leaf(Some(11), true), leaf(Some(12), false)])]);
    let mut c = Controller::new();
    c.__prepare_focused(&tree);
    assert_eq!(c, Controller { current: 11, latest: 11 });

    // The first toggle after startup targets the already-current window,
    // and the focus change it provokes leaves the state unchanged.
    assert_eq!(c.back_and_forth(), "[id=11] focus");
    c.set_focused(&tree);
    assert_eq!(c, Controller { current: 11, latest: 11 });
}

#[test]
fn cold_start_without_focus_keeps_sentinel() {
    let mut c = Controller::new();
    c.__prepare_focused(&branch(vec![leaf(Some(11), false)]));
    assert_eq!(c, Controller { current: 0, latest: 0 });
}

#[test]
fn toggle_command_targets_latest() {
    let c = Controller { current: 9, latest: 5 };
    assert_eq!(c.back_and_forth(), "[id=5] focus");
}
