use cw_asset::text::{contains_str, join_strs, split_by, str_eq};

#[test]
fn splitting() {
    assert_eq!(split_by("native:uusd:12345", ':'), vec!["native", "uusd", "12345"]);
    assert_eq!(split_by("", ':'), vec![""]);
    assert_eq!(split_by(":", ':'), vec!["", ""]);
    assert_eq!(split_by("a::b:", ':'), vec!["a", "", "b", ""]);
    assert_eq!(split_by("ä:ö", ':'), vec!["ä", "ö"]);
    assert_eq!(split_by("no separator", ':'), vec!["no separator"]);
}

#[test]
fn joining() {
    assert_eq!(join_strs(&["uusd", "uluna", "uosmo"], "|"), "uusd|uluna|uosmo");
    assert_eq!(join_strs(&[], "|"), "");
    assert_eq!(join_strs(&["one"], ", "), "one");
    assert_eq!(join_strs(&["", ""], "|"), "|");
}

#[test]
fn comparing_and_finding() {
    assert!(str_eq("uusd", "uusd"));
    assert!(!str_eq("uusd", "uus"));
    assert!(!str_eq("uusd", "uusD"));
    assert!(contains_str(&["a", "uusd"], "uusd"));
    assert!(!contains_str(&["a", "uusd"], "uus"));
    assert!(!contains_str(&[], ""));
}
