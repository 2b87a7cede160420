use gui_demo::viewport::Viewport;

#[test]
fn new_stores_the_four_components() {
    let v = Viewport::new(3, -4, 10, 20);
    assert_eq!(v.x, 3);
    assert_eq!(v.y, -4);
    assert_eq!(v.width, 10);
    assert_eq!(v.height, 20);
}

#[test]
fn flip_moves_origin_to_the_opposite_edge() {
    let v = Viewport::new(150, 0, 430, 495);
    let f = v.flipped(600);
    assert_eq!(f, Viewport::new(150, 105, 430, 495));
}

#[test]
fn flip_twice_with_same_height_is_identity() {
    let v = Viewport::new(7, 30, 100, 50);
    let twice = v.flipped(600).flipped(600);
    assert_eq!(twice, v);
}

#[test]
fn flip_twice_with_different_heights_is_not_identity() {
    let v = Viewport::new(7, 30, 100, 50);
    let twice = v.flipped(600).flipped(601);
    assert_ne!(twice, v);
    assert_eq!(twice.y, v.y + 1);
}

#[test]
fn flip_of_degenerate_rectangle() {
    let v = Viewport::new(0, 0, 0, 0);
    assert_eq!(v.flipped(480), Viewport::new(0, 480, 0, 0));
}
