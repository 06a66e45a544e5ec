use oxide_agent::switcher::{adjust_scroll_down, adjust_scroll_up, Switcher, SwitcherSelection, PANEL_HEIGHT};

#[test]
fn scrolling_keeps_the_selection_visible() {
    assert_eq!(adjust_scroll_down(0, 13, 13), 1);
    assert_eq!(adjust_scroll_down(5, 6, 13), 5);
    assert_eq!(adjust_scroll_up(5, 3, 13), 3);
    assert_eq!(adjust_scroll_up(0, 20, 13), 8);
}

#[test]
fn navigation_wraps_around() {
    let mut s = Switcher::open(SwitcherSelection::Session(4));
    assert_eq!(s.selection, SwitcherSelection::Session(0));
    s.navigate_up(3);
    assert_eq!(s.selection, SwitcherSelection::Session(2));
    s.navigate_down(3);
    assert_eq!(s.selection, SwitcherSelection::Session(0));
    let mut long = Switcher::open(SwitcherSelection::Model(0));
    for _ in 0..PANEL_HEIGHT {
        long.navigate_down(40);
    }
    assert_eq!(long.selection, SwitcherSelection::Model(PANEL_HEIGHT));
    assert_eq!(long.scroll, 1);
    long.navigate_up(40);
    assert_eq!(long.selection, SwitcherSelection::Model(PANEL_HEIGHT - 1));
}
