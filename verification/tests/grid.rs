use text_editor::grid::Grid;

#[test]
fn grid_simple() {
    let mut arr = Grid::filled(10, 10, 0);
    assert_eq!(arr.len(), 10 * 10);

    arr.set(0, 0, 12);
    arr.set(9, 9, 14);

    assert_eq!(*arr.get(0, 0).unwrap(), 12);
    assert_eq!(*arr.get(9, 9).unwrap(), 14);
    assert!(arr.get(10, 10).is_none());
}

#[test]
fn grid_from_iter_takes_row_major_prefix() {
    let items = vec![1, 2, 3, 4, 5, 6, 7];
    let g = Grid::from_iter(3, 2, items);
    assert_eq!(g.len(), 6);
    assert_eq!(*g.get(0, 0).unwrap(), 1);
    assert_eq!(*g.get(2, 0).unwrap(), 3);
    assert_eq!(*g.get(0, 1).unwrap(), 4);
    assert_eq!(*g.get(2, 1).unwrap(), 6);
    assert_eq!(g.as_slice(), &[1, 2, 3, 4, 5, 6]);
}

#[test]
fn grid_blit_overwrites_region_only() {
    let mut dst = Grid::filled(4, 4, 0);
    let src = Grid::filled(2, 2, 7);
    dst.blit(1, 1, &src);
    assert_eq!(*dst.get(0, 0).unwrap(), 0);
    assert_eq!(*dst.get(1, 1).unwrap(), 7);
    assert_eq!(*dst.get(2, 2).unwrap(), 7);
    assert_eq!(*dst.get(3, 3).unwrap(), 0);
}

#[test]
fn grid_get_mut_writes_through() {
    let mut g = Grid::filled(2, 2, 'a');
    if let Some(c) = g.get_mut(1, 0) {
        *c = 'q';
    }
    assert_eq!(*g.get(1, 0).unwrap(), 'q');
    assert!(g.get_mut(2, 0).is_none());
}
