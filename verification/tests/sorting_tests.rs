//! Sorting integers and strings.

use bead_forge::sorting::{sort_i64, sort_strings, str_le};

#[test]
fn sort_i64_orders_ascending_and_keeps_duplicates() {
    assert_eq!(sort_i64(&vec![5, -1, 3, 3, i64::MIN, i64::MAX, 0]), vec![i64::MIN, -1, 0, 3, 3, 5, i64::MAX]);
    assert_eq!(sort_i64(&vec![]), Vec::<i64>::new());
    assert_eq!(sort_i64(&vec![7]), vec![7]);
}

#[test]
fn sort_i64_matches_std_sort() {
    let v: Vec<i64> = (0..200).map(|i: i64| (i * 7919) % 101 - 50).collect();
    let mut expected = v.clone();
    expected.sort();
    assert_eq!(sort_i64(&v), expected);
}

#[test]
fn sort_strings_is_lexicographic_by_char() {
    let v = vec!["b".to_string(), "a".to_string(), "ab".to_string(), "".to_string(), "B".to_string(), "é".to_string()];
    let mut expected = v.clone();
    expected.sort();
    assert_eq!(sort_strings(&v), expected);
}

#[test]
fn str_le_compares_like_str_ordering() {
    let words = ["", "a", "ab", "b", "Z", "ä", "a\u{10000}", "a\u{ffff}"];
    for x in words {
        for y in words {
            assert_eq!(str_le(x, y), x <= y, "{:?} {:?}", x, y);
        }
    }
}
