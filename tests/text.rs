use grundbuch_format::{unhyphenate, Dehyphenator, StringOrLines};

fn lines(v: &[&str]) -> StringOrLines {
    StringOrLines::MultiLine(v.iter().map(|s| s.to_string()).collect())
}

#[test]
fn hyphen_with_space_before_lowercase_is_joined() {
    assert_eq!(unhyphenate("Grundbu- ch"), "Grundbuch");
    assert_eq!(unhyphenate("Wohn- und Geschäfts- haus"), "Wohn- und Geschäftshaus");
}

#[test]
fn break_across_physical_lines_is_not_joined() {
    assert_eq!(unhyphenate("Grundbu-\nch"), "Grundbu-ch");
}

#[test]
fn compound_conjunction_is_kept() {
    assert_eq!(unhyphenate("Land- und Forstwirtschaft"), "Land- und Forstwirtschaft");
}

#[test]
fn several_breaks_in_one_line() {
    assert_eq!(unhyphenate("Grund- buch und Wohn- haus"), "Grundbuch und Wohnhaus");
    assert_eq!(unhyphenate("Flur- stück- ä"), "Flurstückä");
}

#[test]
fn umlaut_continuation_is_joined() {
    assert_eq!(unhyphenate("Grund- übertragung"), "Grundübertragung");
}

#[test]
fn uppercase_or_missing_space_is_kept() {
    assert_eq!(unhyphenate("Haus- Nr"), "Haus- Nr");
    assert_eq!(unhyphenate("1-2"), "1-2");
    assert_eq!(unhyphenate("a -b"), "a -b");
    assert_eq!(unhyphenate("a – b"), "a – b");
}

#[test]
fn lines_are_concatenated() {
    assert_eq!(unhyphenate("ab\r\ncd\nef"), "abcdef");
    assert_eq!(unhyphenate(""), "");
}

#[test]
fn dehyphenator_can_be_reused() {
    let d = Dehyphenator::new();
    assert_eq!(d.unhyphenate("Ver- merk"), "Vermerk");
    assert_eq!(d.unhyphenate("Eigen- tümer"), "Eigentümer");
}

#[test]
fn lines_of_single_string() {
    let t = StringOrLines::SingleLine("a\r\nb\n\nc\n".to_string());
    assert_eq!(t.lines(), vec!["a", "b", "", "c"]);
    let t = StringOrLines::SingleLine("x\r".to_string());
    assert_eq!(t.lines(), vec!["x\r"]);
    assert!(StringOrLines::SingleLine(String::new()).lines().is_empty());
}

#[test]
fn text_joins_with_crlf() {
    assert_eq!(lines(&["a", "b", "c"]).text(), "a\r\nb\r\nc");
    assert_eq!(StringOrLines::SingleLine("a\nb".to_string()).text(), "a\r\nb");
    assert_eq!(lines(&[]).text(), "");
}

#[test]
fn text_clean_dehyphenates_joined_lines() {
    let t = lines(&["Grund- buch", "Land- und Forstwirtschaft"]);
    assert_eq!(t.text_clean(), "GrundbuchLand- und Forstwirtschaft");
}

#[test]
fn emptiness_of_either_form() {
    assert!(StringOrLines::default().is_empty());
    assert!(lines(&[]).is_empty());
    assert!(!lines(&[""]).is_empty());
    assert!(!StringOrLines::SingleLine("\n".to_string()).is_empty());
}

#[test]
fn default_is_empty_single_string() {
    assert_eq!(StringOrLines::default(), StringOrLines::SingleLine(String::new()));
}

#[test]
fn plain_string_becomes_line_list() {
    let t: StringOrLines = "Erste Zeile\r\nZweite Zeile".to_string().into();
    assert_eq!(t, lines(&["Erste Zeile", "Zweite Zeile"]));
}

#[test]
fn string_and_line_list_hold_the_same_lines() {
    let single = StringOrLines::SingleLine("Erste Zeile\nZweite Zeile".to_string());
    let from_plain = StringOrLines::from("Erste Zeile\nZweite Zeile".to_string());
    let list = lines(&["Erste Zeile", "Zweite Zeile"]);
    assert_ne!(single, list);
    assert_eq!(single.lines(), list.lines());
    assert!(single.same_lines(&list));
    assert!(from_plain.same_lines(&list));
    assert!(!single.same_lines(&lines(&["Erste Zeile"])));
}

#[test]
fn into_string_keeps_single_or_joins_list() {
    assert_eq!(String::from(StringOrLines::SingleLine("a\nb".to_string())), "a\nb");
    assert_eq!(String::from(lines(&["a", "b"])), "a\r\nb");
}

#[test]
fn joined_lines_split_back_unchanged() {
    let list = lines(&["a\r", "", "b- und c", "d"]);
    let joined = list.text();
    assert_eq!(joined, "a\r\r\n\r\nb- und c\r\nd");
    let single = StringOrLines::SingleLine(joined);
    assert_eq!(single.lines(), list.lines());
    assert!(single.same_lines(&list));
}

#[test]
fn trailing_empty_line_does_not_survive_joining() {
    let list = lines(&["a", ""]);
    let single = StringOrLines::SingleLine(list.text());
    assert_eq!(single.lines(), vec!["a"]);
}
