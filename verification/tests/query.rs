use macos_open::name_query;
use macos_open::query::{MQ_STRING_ESCAPE, MQ_STRING_SPECIAL_CHARS, QUERY_HEAD, QUERY_TAIL};

#[test]
fn name_query_of_a_plain_name() {
    assert_eq!(
        name_query("Safari"),
        "kMDItemContentTypeTree == \"com.apple.application\"c && kMDItemDisplayName == \"Safari\"cd"
    );
}

#[test]
fn name_query_escapes_the_special_characters() {
    assert_eq!(
        name_query("a\"b*c?d\\e"),
        "kMDItemContentTypeTree == \"com.apple.application\"c && kMDItemDisplayName == \"a\\\"b\\*c\\?d\\\\e\"cd"
    );
}

#[test]
fn name_query_escapes_each_occurrence() {
    assert_eq!(name_query("**"), format!("{}\\*\\*{}", QUERY_HEAD, QUERY_TAIL));
    assert_eq!(name_query("\\\""), format!("{}\\\\\\\"{}", QUERY_HEAD, QUERY_TAIL));
}

#[test]
fn name_query_of_an_empty_name() {
    assert_eq!(name_query(""), format!("{}{}", QUERY_HEAD, QUERY_TAIL));
}

#[test]
fn name_query_leaves_other_characters_alone() {
    assert_eq!(
        name_query("Caffè 'Nero' (2) & Co."),
        format!("{}Caffè 'Nero' (2) & Co.{}", QUERY_HEAD, QUERY_TAIL)
    );
}

#[test]
fn the_escape_character_is_special_itself() {
    assert_eq!(MQ_STRING_ESCAPE, '\\');
    assert_eq!(MQ_STRING_SPECIAL_CHARS, ['?', '*', '\\', '"']);
    assert!(MQ_STRING_SPECIAL_CHARS.contains(&MQ_STRING_ESCAPE));
}
