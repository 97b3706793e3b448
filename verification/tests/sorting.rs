use qbtui::sorting::{sort_by_key, sort_names};

fn sorting_names(names: &[&str]) -> Vec<String> {
    names.iter().map(|s| String::from(*s)).collect()
}

#[test]
fn names_in_order_by_code_point() {
    let sorted = sort_names(sorting_names(&["b", "a", "C", "B", "ab", ""]), false);
    assert_eq!(sorted, vec!["", "B", "C", "a", "ab", "b"]);
}

#[test]
fn names_in_order_without_regard_to_case() {
    let sorted = sort_names(sorting_names(&["b", "a", "C", "B", "ab", ""]), true);
    assert_eq!(sorted, vec!["", "a", "ab", "b", "B", "C"]);
}

#[test]
fn equal_keys_stay_in_the_order_in_which_they_came() {
    assert_eq!(sort_names(sorting_names(&["TV", "tv", "Tv"]), true), vec!["TV", "tv", "Tv"]);
    assert_eq!(sort_names(sorting_names(&["tv", "Tv", "TV"]), true), vec!["tv", "Tv", "TV"]);
}

#[test]
fn sorting_keeps_every_name_as_often_as_it_came() {
    let sorted = sort_names(sorting_names(&["x", "a", "x", "a", "x"]), false);
    assert_eq!(sorted, vec!["a", "a", "x", "x", "x"]);
}

#[test]
fn sorting_nothing_gives_nothing() {
    assert!(sort_names(Vec::new(), false).is_empty());
    assert!(sort_names(Vec::new(), true).is_empty());
}

#[test]
fn a_prefix_comes_first_and_order_is_by_code_point() {
    let sorted = sort_names(sorting_names(&["abc", "ab", "\u{e9}", "z", "Z"]), false);
    assert_eq!(sorted, vec!["Z", "ab", "abc", "z", "\u{e9}"]);
}

#[test]
fn sorting_agrees_with_the_standard_sort() {
    let names = ["movies", "TV", "anime", "Books", "music", "tv", "", "a b", "a.b", "Zebra"];
    let mut by_code = sorting_names(&names);
    by_code.sort();
    assert_eq!(sort_names(sorting_names(&names), false), by_code);
    let mut by_key = sorting_names(&names);
    by_key.sort_by_key(|a| a.to_lowercase());
    assert_eq!(sort_names(sorting_names(&names), true), by_key);
}

fn sorting_entries(entries: &[(&str, &str)]) -> Vec<(String, String)> {
    entries.iter().map(|(n, k)| (String::from(*n), String::from(*k))).collect()
}

#[test]
fn names_in_order_by_the_keys_they_come_with() {
    let entries = sorting_entries(&[("x", "3"), ("y", "1"), ("z", "2"), ("w", "1")]);
    assert_eq!(sort_by_key(entries), vec!["y", "w", "z", "x"]);
    assert_eq!(sort_by_key(sorting_entries(&[("only", "")])), vec!["only"]);
    assert!(sort_by_key(Vec::new()).is_empty());
    let reversed = sorting_entries(&[("a", "z"), ("b", "y"), ("c", "x")]);
    assert_eq!(sort_by_key(reversed), vec!["c", "b", "a"]);
}
