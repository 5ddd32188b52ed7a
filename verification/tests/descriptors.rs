use crostini::descriptors::descriptors_to_close;

#[test]
fn descriptors_from_three_up_are_closed() {
    assert_eq!(descriptors_to_close(&vec![0, 1, 2, 3, 4, 9]), vec![3, 4, 9]);
    assert_eq!(descriptors_to_close(&vec![7, 0, 5, 2]), vec![7, 5]);
}

#[test]
fn standard_descriptors_are_kept() {
    assert_eq!(descriptors_to_close(&vec![0, 1, 2]), Vec::<i32>::new());
    assert_eq!(descriptors_to_close(&Vec::new()), Vec::<i32>::new());
}
