use slice_views::views::view_range;

#[test]
fn view_exposes_exactly_the_range() {
    let ys = [9, 10, 11, 12, 13, 14];
    let w = view_range(&ys, 1, 4);
    assert_eq!(w.len(), 3);
    assert_eq!(w, &[10, 11, 12]);
}

#[test]
fn whole_sequence_as_a_view() {
    let xs = [1, 2, 3, 4, 5];
    let w = view_range(&xs, 0, xs.len());
    assert_eq!(w.len(), 5);
    assert_eq!(w, &xs[..]);
}

#[test]
fn empty_views_have_length_zero_and_compare_equal() {
    let xs = [1, 2, 3, 4, 5];
    let ys = [7, 8];
    let a = view_range(&xs, 2, 2);
    let b = view_range(&ys, 0, 0);
    assert_eq!(a.len(), 0);
    assert_eq!(b.len(), 0);
    assert_eq!(a, b);
    let empty_array: [i32; 0] = [];
    assert_eq!(a, &empty_array);
    assert_eq!(a, &empty_array[..]);
}
