use lobtui::nav::NavigationState;

#[test]
fn move_down_viewport_capacity_times_scrolls_once() {
    let cap: usize = 5;
    let n: usize = 30;
    let mut nav = NavigationState::new();
    for _ in 0..cap {
        nav.move_down(n, cap);
    }
    assert_eq!(nav.selected, cap);
    assert_eq!(nav.offset, 1);
}

#[test]
fn move_down_stops_past_the_window() {
    let cap: usize = 3;
    let n: usize = 30;
    let mut nav = NavigationState::new();
    for _ in 0..10 {
        nav.move_down(n, cap);
    }
    // After the window scrolled once the cursor sits at cap and stays there.
    assert_eq!(nav.selected, cap);
    assert_eq!(nav.offset, 1);
}

#[test]
fn move_down_clamps_to_short_list() {
    let mut nav = NavigationState::new();
    nav.move_down(2, 5);
    nav.move_down(2, 5);
    nav.move_down(2, 5);
    assert_eq!(nav.selected, 1);
    assert_eq!(nav.offset, 0);
}

#[test]
fn moves_are_noops_on_empty_list() {
    let mut nav = NavigationState::new();
    nav.move_down(0, 5);
    nav.move_up(0);
    nav.jump_bottom(0, 5);
    assert_eq!(nav.selected, 0);
    assert_eq!(nav.offset, 0);
}

#[test]
fn move_up_walks_back_and_scrolls_at_the_top() {
    let cap: usize = 3;
    let n: usize = 10;
    let mut nav = NavigationState::new();
    for _ in 0..cap {
        nav.move_down(n, cap);
    }
    assert_eq!((nav.selected, nav.offset), (3, 1));
    nav.move_up(n);
    assert_eq!((nav.selected, nav.offset), (2, 1));
    nav.move_up(n);
    assert_eq!((nav.selected, nav.offset), (1, 1));
    // Cursor at the window's top with room above: the window scrolls along.
    nav.move_up(n);
    assert_eq!((nav.selected, nav.offset), (0, 0));
    // At the very top the move is a no-op.
    nav.move_up(n);
    assert_eq!((nav.selected, nav.offset), (0, 0));
}

#[test]
fn jump_top_resets_from_any_state() {
    let mut nav = NavigationState::new();
    nav.jump_bottom(25, 4);
    assert_ne!((nav.selected, nav.offset), (0, 0));
    nav.jump_top();
    assert_eq!((nav.selected, nav.offset), (0, 0));

    let mut nav = NavigationState::new();
    for _ in 0..7 {
        nav.move_down(25, 4);
    }
    nav.jump_top();
    assert_eq!((nav.selected, nav.offset), (0, 0));
}

#[test]
fn jump_bottom_selects_last_and_scrolls() {
    let mut nav = NavigationState::new();
    nav.jump_bottom(10, 3);
    assert_eq!(nav.selected, 9);
    assert_eq!(nav.offset, 6);

    let mut nav = NavigationState::new();
    nav.jump_bottom(2, 5);
    assert_eq!(nav.selected, 1);
    assert_eq!(nav.offset, 0);
}

#[test]
fn reset_equals_jump_top() {
    let mut nav = NavigationState::new();
    nav.jump_bottom(12, 4);
    nav.reset();
    assert_eq!((nav.selected, nav.offset), (0, 0));
}
