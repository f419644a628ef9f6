use text_editor::buffer::{Buffer, Cell};

#[test]
fn buffer_simple() {
    let b = Cell::char('b');
    let c = Cell::char('c');

    let mut arr = Buffer::new(10, 10);
    assert_eq!(arr.len(), 10 * 10);

    arr.set(0, 0, b);
    arr.set(9, 9, c);

    assert_eq!(arr.get(0, 0).unwrap().c, 'b');
    assert_eq!(arr.get(9, 9).unwrap().c, 'c');
    assert!(arr.get(10, 10).is_none());
}

#[test]
fn buffer_resize_and_clear_resets() {
    let mut arr = Buffer::new(3, 2);
    arr.set(2, 1, Cell::char('x'));
    arr.set_cursor(Some((1, 1)));

    arr.resize_and_clear(3, 2);
    assert_eq!(arr.len(), 6);
    assert_eq!(arr.get(2, 1).unwrap().c, ' ');
    assert!(arr.cursor().is_none());

    arr.resize_and_clear(4, 5);
    assert_eq!(arr.width(), 4);
    assert_eq!(arr.height(), 5);
    assert_eq!(arr.len(), 20);
    assert!(!arr.is_empty());
    assert_eq!(arr.as_slice().len(), 20);
}

#[test]
fn buffer_blit_clips_and_translates_cursor() {
    let mut dst = Buffer::new(4, 4);
    let mut src = Buffer::new(3, 3);
    src.set(0, 0, Cell::char('a'));
    src.set(2, 2, Cell::char('z'));
    src.set_cursor(Some((1, 1)));

    // Offset (2, 2): only the 2x2 corner of the source fits.
    dst.blit(2, 2, &src, true);
    assert_eq!(dst.get(2, 2).unwrap().c, 'a');
    assert_eq!(dst.get(0, 0).unwrap().c, ' ');
    // The source cell (2, 2) would land at (4, 4), outside.
    assert_eq!(dst.get(3, 3).unwrap().c, ' ');
    // Cursor copied and translated by the offset.
    assert_eq!(dst.cursor(), Some((3, 3)));

    // A blit without the flag leaves the cursor alone.
    let empty = Buffer::new(1, 1);
    dst.blit(0, 0, &empty, false);
    assert_eq!(dst.cursor(), Some((3, 3)));
}

#[test]
fn buffer_get_boundaries() {
    let arr = Buffer::new(5, 3);
    assert!(arr.get(4, 2).is_some());
    assert!(arr.get(5, 0).is_none());
    assert!(arr.get(0, 3).is_none());

    let empty = Buffer::new(0, 0);
    assert!(empty.is_empty());
    assert!(empty.get(0, 0).is_none());
}
