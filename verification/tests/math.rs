use baba::math::Rect;

#[test]
fn rect_new_keeps_its_arguments() {
    let r = Rect::new(27, 9, 8, 16);
    assert_eq!((r.x, r.y, r.w, r.h), (27, 9, 8, 16));
    assert_eq!(r, Rect { x: 27, y: 9, w: 8, h: 16 });
    assert_eq!(Rect::default(), Rect::new(0, 0, 0, 0));
}
