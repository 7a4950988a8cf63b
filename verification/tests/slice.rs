use pyimpl_backend::slice::PySliceIndices;

#[test]
fn new_indices_have_no_length_yet() {
    let indices = PySliceIndices::new(1, 10, 2);
    assert_eq!(1, indices.start);
    assert_eq!(10, indices.stop);
    assert_eq!(2, indices.step);
    assert_eq!(0, indices.slicelength);
}

#[test]
fn new_indices_keep_negative_and_extreme_values() {
    let indices = PySliceIndices::new(-3, isize::MAX, isize::MIN);
    assert_eq!(
        indices,
        PySliceIndices { start: -3, stop: isize::MAX, step: isize::MIN, slicelength: 0 }
    );
}

#[test]
fn status_zero_gives_the_indices() {
    assert_eq!(
        PySliceIndices::from_status(0, 1, 10, 2, 5),
        Some(PySliceIndices { start: 1, stop: 10, step: 2, slicelength: 5 })
    );
}

#[test]
fn other_status_gives_nothing() {
    assert_eq!(PySliceIndices::from_status(-1, 1, 10, 2, 5), None);
    assert_eq!(PySliceIndices::from_status(1, 0, 0, 0, 0), None);
}
