use indexed_color::Frame;

fn fields(f: &Frame) -> (i32, i32, i32, i32) {
    (f.get_x_start(), f.get_y_start(), f.get_width(), f.get_height())
}

#[test]
fn frame_returns_what_it_was_made_with() {
    let f = Frame::new(10, 20, 32, 32);
    assert_eq!(f.get_x_start(), 10);
    assert_eq!(f.get_y_start(), 20);
    assert_eq!(f.get_width(), 32);
    assert_eq!(f.get_height(), 32);
}

#[test]
fn frame_keeps_a_negative_origin() {
    let f = Frame::new(-10, -20, 32, 32);
    assert_eq!(fields(&f), (-10, -20, 32, 32));
}

#[test]
fn frame_tells_its_four_fields_apart() {
    let f = Frame::new(1, 2, 3, 4);
    assert_eq!(fields(&f), (1, 2, 3, 4));
}

#[test]
fn frame_does_not_constrain_its_extent() {
    let f = Frame::new(0, 0, -5, 0);
    assert_eq!(fields(&f), (0, 0, -5, 0));
    let g = Frame::new(i32::MIN, i32::MAX, i32::MAX, i32::MIN);
    assert_eq!(fields(&g), (i32::MIN, i32::MAX, i32::MAX, i32::MIN));
}
