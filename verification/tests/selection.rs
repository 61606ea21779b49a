use covey::gui::{App, GuiSettings, RenderingState};
use covey::result_list::{bounded_wrapping_add, bounded_wrapping_sub, BoundedUsize, ListStyle, ResultList};

#[test]
fn bounded_starts_at_zero() {
    let b = BoundedUsize::new_with_bound(5);
    assert_eq!(b.value(), 0);
    assert!(b.is_min());
    assert!(!b.is_max());
    assert!(b.is_at_bounds());
    let d = BoundedUsize::default();
    assert!(d.is_min() && d.is_max());
}

#[test]
fn saturating_set_clamps() {
    let mut b = BoundedUsize::new_with_bound(5);
    b.saturating_set(3);
    assert_eq!(b.value(), 3);
    assert!(!b.is_at_bounds());
    b.saturating_set(10);
    assert_eq!(b.value(), 5);
    assert!(b.is_max());
}

#[test]
fn saturating_add_signed_clamps_both_ends() {
    let mut b = BoundedUsize::new_with_bound(5);
    b.saturating_add_signed(2);
    assert_eq!(b.value(), 2);
    b.saturating_add_signed(-7);
    assert_eq!(b.value(), 0);
    b.saturating_add_signed(isize::MAX);
    assert_eq!(b.value(), 5);
    b.saturating_add_signed(isize::MIN);
    assert_eq!(b.value(), 0);
}

#[test]
fn wrapping_add_signed_wraps() {
    let mut b = BoundedUsize::new_with_bound(4);
    b.wrapping_add_signed(7);
    assert_eq!(b.value(), 2);
    b.wrapping_add_signed(-3);
    assert_eq!(b.value(), 4);
    b.wrapping_add_signed(1);
    assert_eq!(b.value(), 0);
    b.wrapping_add_signed(-1);
    assert_eq!(b.value(), 4);
    let mut big = BoundedUsize::new_with_bound(usize::MAX);
    big.wrapping_add_signed(-1);
    assert_eq!(big.value(), usize::MAX);
    big.wrapping_add_signed(isize::MIN);
    assert_eq!(big.value(), usize::MAX - (1usize << 63));
}

#[test]
fn wrapping_selection_helpers() {
    assert_eq!(bounded_wrapping_add(2, 1, 3), 0);
    assert_eq!(bounded_wrapping_add(0, 5, 3), 2);
    assert_eq!(bounded_wrapping_add(4, 1, 0), 0);
    assert_eq!(bounded_wrapping_sub(0, 1, 3), 2);
    assert_eq!(bounded_wrapping_sub(2, 7, 3), 1);
    assert_eq!(bounded_wrapping_sub(0, 1, 0), 0);
    // moving forward then back returns to the start
    for x in 0..5 {
        for a in 0..12 {
            assert_eq!(bounded_wrapping_sub(bounded_wrapping_add(x, a, 5), a, 5), x);
        }
    }
}

#[test]
fn result_list_len() {
    let l = ResultList { items: vec![1, 2, 3], style: Some(ListStyle::Grid) };
    assert_eq!(l.len(), 3);
    assert!(!l.is_empty());
    let e: ResultList<u8> = ResultList { items: vec![], style: None };
    assert!(e.is_empty());
}

#[test]
fn app_selection_wraps() {
    let mut app: App<()> = App::new(GuiSettings { close_on_blur: true });
    let mut rs = RenderingState { new_cursor_selection: None, list_selection_changed: false, window_is_focused: true };
    app.select_previous(3, &mut rs);
    assert_eq!(app.list_selection, 2);
    assert!(rs.list_selection_changed);
    app.select_next(3, &mut rs);
    assert_eq!(app.list_selection, 0);
    app.select_next(3, &mut rs);
    assert_eq!(app.list_selection, 1);
}

#[test]
fn empty_lists_select_the_top() {
    let mut app: App<()> = App::new(GuiSettings { close_on_blur: false });
    let mut rs = RenderingState { new_cursor_selection: None, list_selection_changed: false, window_is_focused: true };
    app.list_selection = 5;
    app.select_next(0, &mut rs);
    assert_eq!(app.list_selection, 0);
    app.list_selection = usize::MAX;
    app.select_previous(0, &mut rs);
    assert_eq!(app.list_selection, 0);
    assert_eq!(bounded_wrapping_add(usize::MAX, 1, 0), 0);
}
