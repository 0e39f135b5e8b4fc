use mini_less::lines::{count_lines, get_stripped_line_length};
use mini_less::viewport::{correct_column, is_required_correction_cursor_col, last_visible_line};
use ropey::Rope;

#[test]
fn line_count_ignores_final_line_break() {
    assert_eq!(count_lines(&Rope::from_str("a\nb\nc\n")), 3);
    assert_eq!(count_lines(&Rope::from_str("a\nb\nc")), 3);
    assert_eq!(count_lines(&Rope::from_str("only")), 1);
    assert_eq!(count_lines(&Rope::from_str("")), 1);
    assert_eq!(count_lines(&Rope::from_str("\n\n")), 2);
}

#[test]
fn stripped_length_drops_trailing_whitespace() {
    let r = Rope::from_str("hello   \n\t\nab cd\t \nxyz");
    assert_eq!(get_stripped_line_length(&r, 0), 5);
    assert_eq!(get_stripped_line_length(&r, 1), 0);
    assert_eq!(get_stripped_line_length(&r, 2), 5);
    assert_eq!(get_stripped_line_length(&r, 3), 3);
}

#[test]
fn stripped_length_counts_bytes() {
    let r = Rope::from_str("h\u{e9}llo\n");
    assert_eq!(get_stripped_line_length(&r, 0), 6);
}

#[test]
fn correction_check_values() {
    assert_eq!(is_required_correction_cursor_col(4, 4, 10), 0);
    assert_eq!(is_required_correction_cursor_col(2, 8, 10), 8);
    assert_eq!(is_required_correction_cursor_col(2, 8, 5), 4);
    assert_eq!(is_required_correction_cursor_col(2, 8, 1), 0);
    assert_eq!(is_required_correction_cursor_col(2, 8, 0), 0);
}

#[test]
fn correct_column_on_empty_line() {
    assert_eq!(correct_column(5, 7, 0), 0);
    assert_eq!(correct_column(0, 0, 0), 0);
}

#[test]
fn correct_column_on_line_shorter_than_both() {
    assert_eq!(correct_column(6, 8, 3), 2);
    assert_eq!(correct_column(8, 6, 3), 2);
}

#[test]
fn correct_column_on_line_longer_than_both() {
    assert_eq!(correct_column(2, 8, 10), 8);
    assert_eq!(correct_column(8, 8, 10), 8);
    assert_eq!(correct_column(9, 4, 20), 9);
}

#[test]
fn correct_column_between_column_and_sticky_column() {
    assert_eq!(correct_column(2, 8, 5), 4);
}

#[test]
fn last_visible_line_values() {
    assert_eq!(last_visible_line(0, 10, 50), 9);
    assert_eq!(last_visible_line(45, 10, 50), 49);
    assert_eq!(last_visible_line(0, 10, 3), 2);
    assert_eq!(last_visible_line(40, 10, 50), 49);
}

#[test]
fn stripped_length_drops_unicode_whitespace() {
    let r = Rope::from_str("abc\u{3000}\u{a0}\u{2009}\nx\u{200b}\n");
    assert_eq!(get_stripped_line_length(&r, 0), 3);
    assert_eq!(get_stripped_line_length(&r, 1), 4);
}
