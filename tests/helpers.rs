use cliffchess::helpers::{arr_2d_from_iter, num_to_char, repeat_char};

#[test]
fn test_just_right() {
    let mut iter = [1, 2, 3, 4, 5, 6].into_iter();
    let arr: [[u8; 2]; 3] = arr_2d_from_iter(&mut iter);
    assert_eq!(arr, [[1, 2], [3, 4], [5, 6]]);
    assert_eq!(iter.next(), None);
}

#[test]
fn test_with_extras() {
    let mut iter = [1, 2, 3, 4, 5, 6, 7].into_iter();
    let arr: [[u8; 2]; 3] = arr_2d_from_iter(&mut iter);
    assert_eq!(arr, [[1, 2], [3, 4], [5, 6]]);
    assert_eq!(iter.next(), Some(7));
}

#[test]
fn num_to_char_counts_from_the_start() {
    assert_eq!(num_to_char(0, 'a'..='z'), 'a');
    assert_eq!(num_to_char(7, 'a'..='z'), 'h');
    assert_eq!(num_to_char(8, '1'..='9'), '9');
}

#[test]
fn repeat_char_repeats() {
    assert_eq!(repeat_char('x', 3), "xxx");
    assert_eq!(repeat_char('x', 0), "");
}
