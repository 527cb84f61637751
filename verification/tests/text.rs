use oatool::ordered_map::OrderedMap;
use oatool::render::{
    debug_list_string, debug_option_list_string, debug_option_string, decimal_string, write_list,
    write_option,
};
use oatool::text::{
    clone_text, clone_texts, contains_char, contains_text, first_segment_of, joined,
    last_segment_of, one_text, second_segment_of, starts_with_char, strip_leading_slash, text_eq,
    text_less, texts_equal, to_chars,
};

#[test]
fn first_segment_stops_at_the_first_separator() {
    assert_eq!(first_segment_of("users.list", '.'), "users");
    assert_eq!(first_segment_of("users.admin.list", '.'), "users");
    assert_eq!(first_segment_of("users", '.'), "users");
    assert_eq!(first_segment_of(".list", '.'), "");
    assert_eq!(first_segment_of("", '.'), "");
}

#[test]
fn last_segment_starts_behind_the_last_separator() {
    assert_eq!(last_segment_of("users.list", '.'), "list");
    assert_eq!(last_segment_of("users.admin.list", '.'), "list");
    assert_eq!(last_segment_of("users", '.'), "users");
    assert_eq!(last_segment_of("users.", '.'), "");
    assert_eq!(last_segment_of("#/definitions/Region", '/'), "Region");
}

#[test]
fn second_segment_needs_a_separator() {
    assert_eq!(second_segment_of("schemas/Region", '/'), Some("Region".to_string()));
    assert_eq!(second_segment_of("schemas/Region/v1.0.0", '/'), Some("Region".to_string()));
    assert_eq!(second_segment_of("schemas/", '/'), Some(String::new()));
    assert_eq!(second_segment_of("schemas", '/'), None);
    assert_eq!(second_segment_of("", '/'), None);
}

#[test]
fn only_a_leading_slash_is_stripped() {
    assert_eq!(strip_leading_slash("/users"), "users");
    assert_eq!(strip_leading_slash("/users/{id}"), "users/{id}");
    assert_eq!(strip_leading_slash("/"), "");
    assert_eq!(strip_leading_slash("//users"), "/users");
    assert_eq!(strip_leading_slash(""), "");
    assert_eq!(strip_leading_slash("users"), "users");
    assert_eq!(strip_leading_slash("sales"), "sales");
    assert_eq!(strip_leading_slash("users/"), "users/");
    assert_eq!(strip_leading_slash("\u{e9}t\u{e9}"), "\u{e9}t\u{e9}");
}

#[test]
fn text_less_is_the_lexicographic_order() {
    assert!(text_less("200", "404"));
    assert!(text_less("404", "500"));
    assert!(!text_less("500", "404"));
    assert!(!text_less("users", "users"));
    assert!(text_less("user", "users"));
    assert!(!text_less("users", "user"));
    assert!(text_less("", "a"));
    assert!(!text_less("", ""));
    assert!(text_less("Z", "a"));
    assert!(text_less("/a", "/b"));
}

#[test]
fn text_less_agrees_with_the_order_of_strings() {
    let words = ["", "a", "ab", "b", "/users", "/users/{id}", "Users", "users", "\u{e9}", "z"];
    for a in words.iter() {
        for b in words.iter() {
            assert_eq!(text_less(a, b), a < b, "{:?} < {:?}", a, b);
        }
    }
}

#[test]
fn chars_and_small_helpers() {
    assert_eq!(to_chars("a/b"), vec!['a', '/', 'b']);
    assert!(contains_char("a/b", '/'));
    assert!(!contains_char("ab", '/'));
    assert!(starts_with_char("200", '2'));
    assert!(!starts_with_char("404", '2'));
    assert!(!starts_with_char("", '2'));
    assert_eq!(joined("/", "users"), "/users");
    assert_eq!(one_text("https"), vec!["https".to_string()]);
    assert_eq!(clone_text(&Some("x".to_string())), Some("x".to_string()));
    assert_eq!(clone_text(&None), None);
    let list = vec!["a".to_string(), "b".to_string()];
    assert_eq!(clone_texts(&list), list);
    assert!(contains_text(&list, "b"));
    assert!(!contains_text(&list, "c"));
    assert!(texts_equal(&list, &list.clone()));
    assert!(!texts_equal(&list, &list[..1]));
    assert!(!texts_equal(&list, &["a".to_string(), "c".to_string()]));
}

#[test]
fn decimal_string_writes_the_digits() {
    assert_eq!(decimal_string(0), "0");
    assert_eq!(decimal_string(7), "7");
    assert_eq!(decimal_string(10), "10");
    assert_eq!(decimal_string(120), "120");
    assert_eq!(decimal_string(9876543210), "9876543210");
    assert_eq!(decimal_string(usize::MAX), usize::MAX.to_string());
}

#[test]
fn debug_forms_are_those_of_the_standard_library() {
    let some = Some("a \"b\"".to_string());
    assert_eq!(debug_option_string(&some), format!("{:?}", some));
    let none: Option<String> = None;
    assert_eq!(debug_option_string(&none), "None");
    let list = vec!["https".to_string(), "http".to_string()];
    assert_eq!(debug_list_string(&list), "[\"https\", \"http\"]");
    assert_eq!(debug_list_string(&list), format!("{:?}", list));
    let empty: Vec<String> = Vec::new();
    assert_eq!(debug_list_string(&empty), "[]");
    assert_eq!(debug_option_list_string(&Some(list.clone())), format!("{:?}", Some(list)));
    assert_eq!(debug_option_list_string(&None), "None");
}

#[test]
fn ordered_map_keeps_its_keys_in_order() {
    let mut map: OrderedMap<String> = OrderedMap::new();
    assert!(map.is_empty());
    map.insert("b".to_string(), "2".to_string());
    map.insert("c".to_string(), "3".to_string());
    map.insert("a".to_string(), "1".to_string());
    assert_eq!(map.len(), 3);
    assert_eq!(map.key(0), "a");
    assert_eq!(map.key(1), "b");
    assert_eq!(map.key(2), "c");
    assert_eq!(map.value(0), "1");
    assert_eq!(map.value(2), "3");
    assert_eq!(map.index_of("b"), Some(1));
    assert_eq!(map.index_of("bb"), None);
    assert!(map.contains_key("c"));
    assert!(!map.contains_key("d"));
}

#[test]
fn ordered_map_replaces_the_value_of_a_key() {
    let mut map: OrderedMap<String> = OrderedMap::new();
    map.insert("a".to_string(), "1".to_string());
    map.insert("b".to_string(), "2".to_string());
    map.insert("a".to_string(), "3".to_string());
    assert_eq!(map.len(), 2);
    assert_eq!(map.get("a"), Some(&"3".to_string()));
    assert_eq!(map.get("b"), Some(&"2".to_string()));
    assert_eq!(map.get("c"), None);
}

#[test]
fn ordered_map_removes_a_key() {
    let mut map: OrderedMap<String> = OrderedMap::new();
    map.insert("a".to_string(), "1".to_string());
    map.insert("b".to_string(), "2".to_string());
    map.insert("c".to_string(), "3".to_string());
    assert_eq!(map.remove("b"), Some("2".to_string()));
    assert_eq!(map.remove("b"), None);
    assert_eq!(map.len(), 2);
    assert_eq!(map.key(0), "a");
    assert_eq!(map.key(1), "c");
    let copy = map.clone();
    assert_eq!(copy, map);
    assert_eq!(map.into_entries(), vec![
        ("a".to_string(), "1".to_string()),
        ("c".to_string(), "3".to_string()),
    ]);
}

#[test]
fn lists_and_options_are_written_around_their_items() {
    assert_eq!(write_option(&Some("x".to_string())), "Some(x)");
    assert_eq!(write_option(&None), "None");
    assert_eq!(write_list(&[]), "[]");
    assert_eq!(write_list(&["a".to_string()]), "[a]");
    assert_eq!(write_list(&["a".to_string(), "b".to_string(), "c".to_string()]), "[a, b, c]");
}

#[test]
fn text_eq_compares_the_characters() {
    assert!(text_eq("", ""));
    assert!(text_eq("GET", "GET"));
    assert!(!text_eq("GET", "get"));
    assert!(!text_eq("GET", "GE"));
    assert!(!text_eq("GE", "GET"));
    assert!(!text_eq("GET", "GEX"));
    assert!(text_eq("\u{e9}t\u{e9}", "\u{e9}t\u{e9}"));
}
