use covey::style::Color;

#[test]
fn channels_read_back() {
    let c = Color::rgba(1, 2, 3, 4);
    assert_eq!((c.r(), c.g(), c.b(), c.a()), (1, 2, 3, 4));
    assert_eq!(c.split_rgba(), [1, 2, 3, 4]);
    assert_eq!(c.split_rgb(), [1, 2, 3]);
}

#[test]
fn rgb_is_opaque() {
    assert_eq!(Color::rgb(9, 8, 7).a(), 255);
    assert_eq!(Color::white(), Color::rgba(255, 255, 255, 255));
    assert_eq!(Color::rgb(9, 8, 7).with_a(0), Color::rgba(9, 8, 7, 0));
}
