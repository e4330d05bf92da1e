use anki_sync::text::{join_fields, join_tags, split, split_fields, split_tags, Separator};

fn strings(items: Vec<&str>) -> Vec<String> {
    items.into_iter().map(|s| s.to_string()).collect()
}

#[test]
fn fields_are_joined_by_their_separator() {
    assert_eq!(join_fields(&strings(vec!["front", "back"])), "front\x1fback");
    assert_eq!(join_fields(&strings(vec!["only"])), "only");
    assert_eq!(join_fields(&strings(vec!["", "", "x"])), "\x1f\x1fx");
    assert_eq!(join_fields(&vec![]), "");
}

#[test]
fn fields_are_split_at_their_separator() {
    assert_eq!(split_fields("front\x1fback"), strings(vec!["front", "back"]));
    assert_eq!(split_fields(""), strings(vec![""]));
    assert_eq!(split_fields("\x1f"), strings(vec!["", ""]));
    assert_eq!(split("a b", Separator::Field), strings(vec!["a b"]));
}

#[test]
fn split_fields_join_back() {
    for text in vec!["", "\x1f", "a\x1f\x1fb", "\u{e4}\x1f\u{6f22}\u{5b57}\x1f"] {
        assert_eq!(join_fields(&split_fields(text)), text);
    }
}

#[test]
fn joined_fields_split_back() {
    let fields = strings(vec!["", "zwei w\u{f6}rter", ""]);
    assert_eq!(split_fields(&join_fields(&fields)), fields);
}

#[test]
fn tags_are_set_off_by_spaces() {
    assert_eq!(join_tags(&strings(vec!["one", "two"])), " one two ");
    assert_eq!(join_tags(&strings(vec!["one"])), " one ");
    assert_eq!(join_tags(&vec![]), "");
}

#[test]
fn tags_are_split_at_spaces_of_both_kinds() {
    assert_eq!(
        split_tags(" one  two\u{3000}three "),
        strings(vec!["one", "two", "three"])
    );
    assert_eq!(split_tags(""), strings(vec![]));
    assert_eq!(split_tags("   "), strings(vec![]));
}

#[test]
fn joined_tags_split_back() {
    let tags = strings(vec!["a::b", "\u{5b57}", "x"]);
    assert_eq!(split_tags(&join_tags(&tags)), tags);
}

#[test]
fn split_tags_stay_the_same() {
    let tags = split_tags("b\u{3000}a  c ");
    assert_eq!(split_tags(&join_tags(&tags)), tags);
}
