use win_acapture_rs::strutil::{
    concat3, find_char_from, find_two_from, matches_at, str_contains, str_starts_with, substring,
    vec_find_string,
};

#[test]
fn find_char_from_first_occurrence() {
    assert_eq!(find_char_from("a|b|c", '|', 0), Some(1));
    assert_eq!(find_char_from("a|b|c", '|', 2), Some(3));
    assert_eq!(find_char_from("a|b|c", '%', 0), None);
    assert_eq!(find_char_from("", '|', 0), None);
}

#[test]
fn find_two_from_first_pair() {
    assert_eq!(find_two_from("C:\\x:\\y", ':', '\\', 0), Some(1));
    assert_eq!(find_two_from("C:\\x:\\y", ':', '\\', 2), Some(4));
    assert_eq!(find_two_from("no pair", ':', '\\', 0), None);
    assert_eq!(find_two_from("ends with:", ':', '\\', 0), None);
}

#[test]
fn starts_with_prefix() {
    assert!(str_starts_with("\\Device\\HarddiskVolume3", "\\Device\\"));
    assert!(!str_starts_with("\\Dev", "\\Device\\"));
    assert!(str_starts_with("anything", ""));
}

#[test]
fn contains_needle() {
    assert!(str_contains("\\Device\\HarddiskVolume3", "HarddiskVolume3"));
    assert!(!str_contains("\\Device\\HarddiskVolume3", "Volume4"));
    assert!(str_contains("abc", ""));
    assert!(!str_contains("ab", "abc"));
    assert!(matches_at("abcabc", "cab", 2));
}

#[test]
fn substring_and_concat() {
    assert_eq!(substring("hello world", 6, 11), "world");
    assert_eq!(substring("hello", 2, 2), "");
    assert_eq!(concat3("a", "-", "b"), "a-b");
}

#[test]
fn vec_find_string_first_index() {
    let v = vec![String::from("x"), String::from("y"), String::from("x")];
    assert_eq!(vec_find_string(&v, &String::from("x")), Some(0));
    assert_eq!(vec_find_string(&v, &String::from("y")), Some(1));
    assert_eq!(vec_find_string(&v, &String::from("z")), None);
}
