use native_git::lines::{count_file_lines, diff_line_counts, is_binary};

#[test]
fn null_byte_in_prefix_counts_zero() {
    let data: Vec<u8> = vec![b'a', 0, b'b', b'\n', b'c'];
    assert!(is_binary(&data));
    assert_eq!(count_file_lines(&data), 0);
}

#[test]
fn null_byte_beyond_prefix_is_text() {
    let mut data: Vec<u8> = vec![b'a'; 9000];
    data[8500] = 0;
    assert!(!is_binary(&data));
    assert_eq!(count_file_lines(&data), 1);
}

#[test]
fn empty_buffer_counts_zero() {
    let data: Vec<u8> = Vec::new();
    assert_eq!(count_file_lines(&data), 0);
}

#[test]
fn unterminated_text_counts_one_more_than_newlines() {
    let data: Vec<u8> = b"alpha\nbeta\ngamma".to_vec();
    assert_eq!(count_file_lines(&data), 3);
}

#[test]
fn terminated_text_counts_newlines() {
    let data: Vec<u8> = b"alpha\nbeta\n".to_vec();
    assert_eq!(count_file_lines(&data), 2);
}

#[test]
fn single_line_no_newline() {
    let data: Vec<u8> = b"alpha".to_vec();
    assert_eq!(count_file_lines(&data), 1);
}

#[test]
fn diff_identity_is_zero() {
    let x: Vec<u8> = b"one\ntwo\nthree\n".to_vec();
    assert_eq!(diff_line_counts(&x, &x), (0, 0));
    let empty: Vec<u8> = Vec::new();
    assert_eq!(diff_line_counts(&empty, &empty), (0, 0));
}

#[test]
fn diff_appended_lines() {
    let old: Vec<u8> = b"one\ntwo\nthree\n".to_vec();
    let new: Vec<u8> = b"one\ntwo\nthree\nfour\nfive\n".to_vec();
    assert_eq!(diff_line_counts(&old, &new), (2, 0));
}

#[test]
fn diff_direction_swap() {
    let a: Vec<u8> = b"one\ntwo\nthree\n".to_vec();
    let b: Vec<u8> = b"one\nthree\nfour\nfive\n".to_vec();
    let (added_ab, deleted_ab) = diff_line_counts(&a, &b);
    let (added_ba, deleted_ba) = diff_line_counts(&b, &a);
    assert_eq!((added_ba, deleted_ba), (deleted_ab, added_ab));
}

#[test]
fn diff_with_binary_side_is_zero() {
    let old: Vec<u8> = vec![b'x', 0, b'y'];
    let new: Vec<u8> = b"plain\ntext\n".to_vec();
    assert_eq!(diff_line_counts(&old, &new), (0, 0));
    assert_eq!(diff_line_counts(&new, &old), (0, 0));
}

#[test]
fn diff_rewrite_counts_both_sides() {
    let old: Vec<u8> = b"a\nb\n".to_vec();
    let new: Vec<u8> = b"c\nd\ne\n".to_vec();
    assert_eq!(diff_line_counts(&old, &new), (3, 2));
}
