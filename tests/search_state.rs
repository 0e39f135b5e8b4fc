use mini_less::search::SearchResult;

fn with_matches(m: Vec<(u64, u64)>, now_idx: Option<usize>) -> SearchResult<'static> {
    let mut s = SearchResult::new("notes.txt");
    *s.match_lines_mut() = m;
    s.now_idx = now_idx;
    s
}

#[test]
fn new_search_result_is_empty() {
    let s = SearchResult::new("notes.txt");
    assert_eq!(s.filename, "notes.txt");
    assert!(s.word.is_empty());
    assert!(s.word_vec.is_empty());
    assert!(s.match_lines.is_empty());
    assert_eq!(s.now_idx, None);
    assert!(!s.exists_match());
}

#[test]
fn getters_reach_their_fields() {
    let mut s = SearchResult::new("a");
    s.word_mut().push_str("foo");
    s.word_vec_mut().push('x');
    s.match_lines_mut().push((4, 1));
    assert_eq!(s.word, "foo");
    assert_eq!(s.word_vec, vec!['x']);
    assert_eq!(s.match_lines, vec![(4, 1)]);
}

#[test]
fn next_wraps_to_first_match() {
    let mut s = with_matches(vec![(3, 0), (7, 2), (12, 0)], Some(2));
    assert_eq!(s.next(), Some((3, 0)));
    assert_eq!(s.now_idx, Some(0));
}

#[test]
fn next_advances_within_matches() {
    let mut s = with_matches(vec![(3, 0), (7, 2), (12, 0)], Some(0));
    assert_eq!(s.next(), Some((7, 2)));
    assert_eq!(s.now_idx, Some(1));
    assert_eq!(s.next(), Some((12, 0)));
    assert_eq!(s.now_idx, Some(2));
}

#[test]
fn next_without_selection_does_nothing() {
    let mut s = with_matches(vec![(3, 0)], None);
    assert_eq!(s.next(), None);
    assert_eq!(s.now_idx, None);
}

#[test]
fn get_near_line_does_not_wrap() {
    let mut s = with_matches(vec![(3, 0), (7, 2)], None);
    assert_eq!(s.get_near_line((10, 0)), None);
    assert_eq!(s.now_idx, None);
}

#[test]
fn get_near_line_picks_first_at_or_after() {
    let mut s = with_matches(vec![(3, 0), (7, 2), (7, 5), (12, 0)], None);
    assert_eq!(s.get_near_line((7, 9)), Some((7, 2)));
    assert_eq!(s.now_idx, Some(1));
    assert_eq!(s.get_near_line((4, 0)), Some((7, 2)));
    assert_eq!(s.get_near_line((0, 0)), Some((3, 0)));
    assert_eq!(s.now_idx, Some(0));
}

#[test]
fn get_near_line_with_previous_skips_line_just_above() {
    let mut s = with_matches(vec![(3, 0), (7, 2), (12, 0)], None);
    assert_eq!(s.get_near_line_with_previous((9, 0)), Some((7, 2)));
    assert_eq!(s.now_idx, Some(1));
    assert_eq!(s.get_near_line_with_previous((8, 0)), Some((3, 0)));
    assert_eq!(s.now_idx, Some(0));
}

#[test]
fn get_near_line_with_previous_does_not_wrap() {
    let mut s = with_matches(vec![(3, 0), (7, 2)], Some(1));
    assert_eq!(s.get_near_line_with_previous((4, 0)), None);
    assert_eq!(s.now_idx, Some(1));
}

#[test]
fn reset_clears_everything_but_the_file() {
    let mut s = with_matches(vec![(3, 0)], Some(0));
    s.word = String::from("foo");
    s.word_vec = vec!['f'];
    s.reset();
    assert_eq!(s.filename, "notes.txt");
    assert!(s.word.is_empty());
    assert!(s.word_vec.is_empty());
    assert!(s.match_lines.is_empty());
    assert_eq!(s.now_idx, None);
}
